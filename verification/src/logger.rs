//! The trade log: one CSV file per sheet, a header line, then a line per trade.
use vstd::prelude::*;
use vstd::string::*;
use crate::text::{concat_text, join, join_spec, texts};

verus! {

/// Where the trade log of a sheet is written.
#[derive(Debug)]
pub struct SheetLogger {
    log_file: String,
}

impl SheetLogger {
    /// The path of the log file.
    pub closed spec fn path(self) -> Seq<char> {
        self.log_file@
    }

    /// The logger of a sheet: it writes to `logs/trades_<sheet_id>.csv`.
    pub fn for_sheet(sheet_id: &str) -> (l: SheetLogger)
        ensures
            l.path() == "logs/trades_"@ + sheet_id@ + ".csv"@,
    {
        let head = concat_text("logs/trades_", sheet_id);
        SheetLogger { log_file: concat_text(head.as_str(), ".csv") }
    }

    /// The path of the log file.
    pub fn log_file(&self) -> (r: &String)
        ensures
            r@ == self.path(),
    {
        &self.log_file
    }

    /// The header line a new log file starts with.
    pub fn header() -> (r: String)
        ensures
            r@ == "timestamp,market_id,side,price,size,status"@,
    {
        String::from_str("timestamp,market_id,side,price,size,status")
    }

    /// A log line: the fields joined by commas.
    pub fn row_line(row_data: &Vec<String>) -> (r: String)
        ensures
            r@ == join_spec(texts(row_data@), ","@),
    {
        join(row_data, ",")
    }
}

} // verus!
