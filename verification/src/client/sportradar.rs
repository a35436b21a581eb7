//! Live games from the Sportradar service.
use vstd::prelude::*;
use crate::text::{concat_text, str_eq};

verus! {

/// A day's schedule.
#[derive(Debug)]
pub struct ScheduleResponse {
    pub games: Vec<Game>,
}

/// A game and its score so far.
#[derive(Debug)]
pub struct Game {
    pub id: String,
    pub status: String,
    pub scheduled: String,
    pub home: Team,
    pub away: Team,
    pub home_score: Option<i32>,
    pub away_score: Option<i32>,
}

/// A team.
#[derive(Debug)]
pub struct Team {
    pub id: String,
    pub name: String,
    pub alias: Option<String>,
}

/// The key that opens the service.
#[derive(Debug)]
pub struct SportradarClient {
    api_key: String,
}

/// The base address of the trial service for a sport; soccer for a sport it does not know.
pub open spec fn sport_base(sport: Seq<char>) -> Seq<char> {
    if sport == "soccer"@ {
        "https://api.sportradar.com/soccer/trial/v4/en"@
    } else if sport == "nba"@ {
        "https://api.sportradar.com/nba/trial/v7/en"@
    } else if sport == "mlb"@ {
        "https://api.sportradar.com/mlb/trial/v7/en"@
    } else if sport == "global_basketball"@ {
        "https://api.sportradar.com/global-basketball/trial/v7/en"@
    } else {
        "https://api.sportradar.com/soccer/trial/v4/en"@
    }
}

impl SportradarClient {
    /// The access key.
    pub closed spec fn key(self) -> Seq<char> {
        self.api_key@
    }

    /// A client with the key.
    pub fn new(api_key: String) -> (c: SportradarClient)
        ensures
            c.key() == api_key@,
    {
        SportradarClient { api_key }
    }

    /// The address of an endpoint of a sport's service, with the key as a query parameter.
    pub fn build_url(&self, sport: &str, endpoint: &str) -> (r: String)
        ensures
            r@ == sport_base(sport@) + endpoint@ + "?api_key="@ + self.key(),
    {
        let base = if str_eq(sport, "soccer") {
            "https://api.sportradar.com/soccer/trial/v4/en"
        } else if str_eq(sport, "nba") {
            "https://api.sportradar.com/nba/trial/v7/en"
        } else if str_eq(sport, "mlb") {
            "https://api.sportradar.com/mlb/trial/v7/en"
        } else if str_eq(sport, "global_basketball") {
            "https://api.sportradar.com/global-basketball/trial/v7/en"
        } else {
            "https://api.sportradar.com/soccer/trial/v4/en"
        };
        let a = concat_text(base, endpoint);
        let b = concat_text(a.as_str(), "?api_key=");
        concat_text(b.as_str(), self.api_key.as_str())
    }

    /// The address of a sport's live games.
    pub fn live_games_url(&self, sport: &str) -> (r: String)
        ensures
            r@ == sport_base(sport@) + "/games/live"@ + "?api_key="@ + self.key(),
    {
        self.build_url(sport, "/games/live")
    }
}

} // verus!
