//! Small string operations: splitting on a character, comparing, joining and number text.
use vstd::prelude::*;
use vstd::string::*;

verus! {

/// The pieces that `str::split(sep)` yields for a single separator character, in order:
/// one more piece than there are separators, empty pieces included.
pub open spec fn split_chars(s: Seq<char>, sep: char) -> Seq<Seq<char>>
    decreases s.len(),
{
    if s.len() == 0 {
        seq![Seq::<char>::empty()]
    } else {
        let prev = split_chars(s.drop_last(), sep);
        if s.last() == sep {
            prev.push(Seq::<char>::empty())
        } else {
            prev.update(prev.len() - 1, prev.last().push(s.last()))
        }
    }
}

/// The views of a vector of strings.
pub open spec fn texts(v: Seq<String>) -> Seq<Seq<char>> {
    v.map_values(|p: String| p@)
}

/// `s.split(sep)` collected into owned strings.
pub fn split_on(s: &str, sep: char) -> (parts: Vec<String>)
    ensures
        texts(parts@) == split_chars(s@, sep),
{
    let n = s.unicode_len();
    let mut parts: Vec<String> = Vec::new();
    let mut start: usize = 0;
    let mut i: usize = 0;
    proof {
        assert(s@.take(0) =~= Seq::<char>::empty());
        assert(texts(parts@) + seq![s@.subrange(0, 0)] =~= split_chars(s@.take(0), sep));
    }
    while i < n
        invariant
            n == s@.len(),
            start <= i <= n,
            texts(parts@) + seq![s@.subrange(start as int, i as int)] == split_chars(
                s@.take(i as int),
                sep,
            ),
        decreases n - i,
    {
        let c = s.get_char(i);
        let ghost prev = split_chars(s@.take(i as int), sep);
        proof {
            assert(s@.take(i + 1).drop_last() =~= s@.take(i as int));
            assert(s@.take(i + 1).last() == c);
        }
        if c == sep {
            let piece = String::from_str(s.substring_char(start, i));
            parts.push(piece);
            start = i + 1;
            i = i + 1;
            proof {
                assert(texts(parts@) =~= prev);
                assert(s@.subrange(start as int, i as int) =~= Seq::<char>::empty());
                assert(texts(parts@) + seq![s@.subrange(start as int, i as int)] =~= split_chars(
                    s@.take(i as int),
                    sep,
                ));
            }
        } else {
            let ghost old_parts = texts(parts@);
            let ghost old_start = start;
            i = i + 1;
            proof {
                assert(prev.len() == old_parts.len() + 1);
                assert(prev.last() == s@.subrange(old_start as int, i - 1));
                assert(s@.subrange(old_start as int, i as int) =~= s@.subrange(
                    old_start as int,
                    i - 1,
                ).push(c));
                assert(texts(parts@) + seq![s@.subrange(start as int, i as int)] =~= split_chars(
                    s@.take(i as int),
                    sep,
                ));
            }
        }
    }
    let last = String::from_str(s.substring_char(start, n));
    parts.push(last);
    proof {
        assert(s@.take(n as int) =~= s@);
        assert(texts(parts@) =~= texts(parts@).drop_last().push(last@));
    }
    parts
}

/// `a == b` on string slices: the same characters in the same order.
pub fn str_eq(a: &str, b: &str) -> (r: bool)
    ensures
        r == (a@ == b@),
{
    let n = a.unicode_len();
    if n != b.unicode_len() {
        return false;
    }
    let mut i: usize = 0;
    while i < n
        invariant
            n == a@.len(),
            n == b@.len(),
            i <= n,
            forall|k: int| 0 <= k < i ==> a@[k] == b@[k],
        decreases n - i,
    {
        if a.get_char(i) != b.get_char(i) {
            return false;
        }
        i = i + 1;
    }
    proof {
        assert(a@ =~= b@);
    }
    true
}

/// The items joined with `sep` between each two of them, as `[String]::join` writes them.
pub open spec fn join_spec(items: Seq<Seq<char>>, sep: Seq<char>) -> Seq<char>
    decreases items.len(),
{
    if items.len() == 0 {
        Seq::<char>::empty()
    } else if items.len() == 1 {
        items[0]
    } else {
        join_spec(items.drop_last(), sep) + sep + items.last()
    }
}

/// `items.join(sep)`.
pub fn join(items: &Vec<String>, sep: &str) -> (r: String)
    ensures
        r@ == join_spec(texts(items@), sep@),
{
    let mut r = String::new();
    let n = items.len();
    let mut i: usize = 0;
    while i < n
        invariant
            n == items@.len(),
            i <= n,
            r@ == join_spec(texts(items@).take(i as int), sep@),
        decreases n - i,
    {
        proof {
            assert(texts(items@).take(i + 1).drop_last() =~= texts(items@).take(i as int));
        }
        if i > 0 {
            r.append(sep);
        }
        r.append(items[i].as_str());
        proof {
            if i == 0 {
                assert(r@ =~= texts(items@).take(1)[0]);
            }
        }
        i = i + 1;
    }
    proof {
        assert(texts(items@).take(n as int) =~= texts(items@));
    }
    r
}

/// The decimal digits of a natural number, most significant first.
pub open spec fn digits(n: nat) -> Seq<char>
    decreases n,
{
    if n < 10 {
        seq![(('0' as u8) + (n as u8)) as char]
    } else {
        digits(n / 10).push((('0' as u8) + ((n % 10) as u8)) as char)
    }
}

/// An integer written in decimal, with a leading `-` when negative.
pub open spec fn decimal_text(n: int) -> Seq<char> {
    if n < 0 {
        seq!['-'] + digits((-n) as nat)
    } else {
        digits(n as nat)
    }
}

/// What `str::to_lowercase` gives for a string.
pub uninterp spec fn lowercase_text(s: Seq<char>) -> Seq<char>;

/// `str::to_lowercase`. Claimed: the named result, a function of the string alone; the Unicode
/// case mapping it applies is left unsaid.
#[verifier::external_body]
fn to_lowercase_outside(s: &str) -> (r: String)
    ensures
        r@ == lowercase_text(s@),
{
    s.to_lowercase()
}

/// The string in lower case, as `str::to_lowercase` maps it.
pub fn to_lowercase(s: &str) -> (r: String)
    ensures
        r@ == lowercase_text(s@),
{
    to_lowercase_outside(s)
}

/// The one-character text of a decimal digit.
fn digit_str(d: u64) -> (r: &'static str)
    requires
        d < 10,
    ensures
        r@ == digits(d as nat),
{
    proof {
        reveal_strlit("0");
        reveal_strlit("1");
        reveal_strlit("2");
        reveal_strlit("3");
        reveal_strlit("4");
        reveal_strlit("5");
        reveal_strlit("6");
        reveal_strlit("7");
        reveal_strlit("8");
        reveal_strlit("9");
    }
    if d == 0 {
        "0"
    } else if d == 1 {
        "1"
    } else if d == 2 {
        "2"
    } else if d == 3 {
        "3"
    } else if d == 4 {
        "4"
    } else if d == 5 {
        "5"
    } else if d == 6 {
        "6"
    } else if d == 7 {
        "7"
    } else if d == 8 {
        "8"
    } else {
        "9"
    }
}

/// Appends the decimal digits of `n` to `out`.
fn push_digits(n: u64, out: &mut String)
    ensures
        final(out)@ == old(out)@ + digits(n as nat),
    decreases n,
{
    if n < 10 {
        out.append(digit_str(n));
    } else {
        push_digits(n / 10, out);
        out.append(digit_str(n % 10));
        proof {
            assert(digits(n as nat) == digits((n / 10) as nat) + digits((n % 10) as nat));
        }
    }
}

/// The number written in decimal, as `i64::to_string` writes it.
pub fn i64_to_text(n: i64) -> (r: String)
    ensures
        r@ == decimal_text(n as int),
{
    let mut r = String::new();
    if n < 0 {
        r.append("-");
        let m: u64 = (-(n as i128)) as u64;
        push_digits(m, &mut r);
        proof {
            reveal_strlit("-");
        }
    } else {
        push_digits(n as u64, &mut r);
    }
    proof {
        assert(r@ =~= decimal_text(n as int));
    }
    r
}

/// The number written in decimal, as `usize::to_string` writes it.
pub fn usize_to_text(n: usize) -> (r: String)
    ensures
        r@ == decimal_text(n as int),
{
    let mut r = String::new();
    push_digits(n as u64, &mut r);
    proof {
        assert(r@ =~= decimal_text(n as int));
    }
    r
}

/// `a` followed by `b`.
pub fn concat_text(a: &str, b: &str) -> (r: String)
    ensures
        r@ == a@ + b@,
{
    let mut r = String::from_str(a);
    r.append(b);
    r
}

} // verus!
