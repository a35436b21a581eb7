//! Live football fixtures from the Sportmonks service.
use vstd::prelude::*;
use vstd::string::*;
use crate::text::concat_text;

verus! {

/// A fixture as the service describes it.
#[derive(Debug)]
pub struct SportmonksFixture {
    pub id: u32,
    pub name: String,
    pub starting_at: String,
    pub result_info: Option<String>,
    pub status: String,
    pub participants: Vec<SportmonksParticipant>,
}

/// A team taking part in a fixture.
#[derive(Debug)]
pub struct SportmonksParticipant {
    pub id: u32,
    pub name: String,
}

/// Where the service lives and the token that opens it.
#[derive(Debug)]
pub struct SportmonksClient {
    api_token: String,
    base_url: String,
}

impl SportmonksClient {
    /// The access token.
    pub closed spec fn token(self) -> Seq<char> {
        self.api_token@
    }

    /// The service's base address.
    pub closed spec fn base(self) -> Seq<char> {
        self.base_url@
    }

    /// A client with the token, for the service's third version.
    pub fn new(api_token: String) -> (c: SportmonksClient)
        ensures
            c.token() == api_token@,
            c.base() == "https://api.sportmonks.com/v3"@,
    {
        SportmonksClient { api_token, base_url: String::from_str("https://api.sportmonks.com/v3") }
    }

    /// The address of the live football fixtures, with participants and scores.
    pub fn live_matches_url(&self) -> (r: String)
        ensures
            r@ == self.base() + "/football/fixtures/live?api_token="@ + self.token()
                + "&include=participants;scores"@,
    {
        let a = concat_text(self.base_url.as_str(), "/football/fixtures/live?api_token=");
        let b = concat_text(a.as_str(), self.api_token.as_str());
        concat_text(b.as_str(), "&include=participants;scores")
    }
}

} // verus!
