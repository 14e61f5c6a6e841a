//! The upstream client's rules: the requests it makes, the credential it
//! carries, and how it reads the answers.
//!
//! The network round trips themselves happen outside this library; the
//! functions here build what is sent and judge what came back.

use vstd::prelude::*;
use vstd::string::*;
use crate::errors::MflError;
use crate::marker::{find_login_marker, is_marker_of};

verus! {

/// The upstream client: the season it works in and, once logged in, the
/// user marker that every later request carries.
#[derive(Debug, Clone)]
pub struct MflApi {
    pub year: String,
    pub mfl_user_id_cookie: Option<String>,
}

/// One free agent as the free-agents report lists it.
#[allow(non_snake_case)]
#[derive(Debug, Clone)]
pub struct FreeAgentPlayer {
    pub id: String,
    pub salary: String,
    pub contractStatus: String,
}

/// The unit wrapper around the free agents.
#[derive(Debug, Clone)]
pub struct FreeAgentLeagueUnit {
    pub unit: String,
    pub player: Vec<FreeAgentPlayer>,
}

/// The free-agents part of the report.
#[allow(non_snake_case)]
#[derive(Debug, Clone)]
pub struct FreeAgents {
    pub leagueUnit: FreeAgentLeagueUnit,
}

/// The whole free-agents report.
#[allow(non_snake_case)]
#[derive(Debug, Clone)]
pub struct FreeAgentResponse {
    pub version: String,
    pub freeAgents: FreeAgents,
    pub encoding: String,
}

/// The whole players report.
#[derive(Debug, Clone)]
pub struct PlayersStatusResponse {
    pub players: PlayersPlayers,
    pub encoding: String,
    pub version: String,
}

/// The player list of the players report.
#[derive(Debug, Clone)]
pub struct PlayersPlayers {
    pub player: Vec<PlayersPlayer>,
    pub timestamp: String,
}

/// One player of the players report.
#[derive(Debug, Clone)]
pub struct PlayersPlayer {
    pub position: Option<String>,
    pub id: String,
    pub team: Option<String>,
    pub name: String,
    pub status: Option<String>,
}

/// What the percent-encoding of `s` is.
pub uninterp spec fn url_encoded(s: Seq<char>) -> Seq<char>;

/// Characters that percent-encoding leaves as they are.
pub open spec fn is_unreserved(c: char) -> bool {
    ('0' <= c && c <= '9') || ('A' <= c && c <= 'Z') || ('a' <= c && c <= 'z') || c == '-'
        || c == '.' || c == '_' || c == '~'
}

/// Relies on `urlencoding::encode`: every byte of the UTF-8 text is
/// percent-encoded except ASCII letters, digits and `-._~`, which stay.
#[verifier::external_body]
fn url_encode(s: &str) -> (r: String)
    ensures
        r@ == url_encoded(s@),
        (forall|k: int| 0 <= k < s@.len() ==> is_unreserved(#[trigger] s@[k])) ==> r@ == s@,
{
    urlencoding::encode(s).into_owned()
}

/// A status in 200..=299.
pub open spec fn is_success(status: u16) -> bool {
    200 <= status && status <= 299
}

/// Where the upstream service lives.
pub open spec fn api_root() -> Seq<char> {
    "https://api.myfantasyleague.com/"@
}

/// The login request for `user` and `password` in season `year`.
pub open spec fn login_url_of(year: Seq<char>, user: Seq<char>, password: Seq<char>) -> Seq<char> {
    api_root() + year + "/login?USERNAME="@ + url_encoded(user) + "&PASSWORD="@ + url_encoded(
        password,
    ) + "&XML=1"@
}

/// The request for a league's details.
pub open spec fn league_info_url_of(year: Seq<char>, league_id: Seq<char>) -> Seq<char> {
    api_root() + year + "/export?TYPE=league&L="@ + league_id + "&JSON=1"@
}

/// The request for a league's free agents, at one position or all.
pub open spec fn free_agents_url_of(
    year: Seq<char>,
    league_id: Seq<char>,
    position: Option<Seq<char>>,
) -> Seq<char> {
    api_root() + year + "/export?TYPE=freeAgents&L="@ + league_id + match position {
        Some(p) => "&POSITION="@ + p,
        None => Seq::empty(),
    } + "&JSON=1"@
}

/// The request for the details of the players with the comma-joined `ids`.
pub open spec fn players_url_of(year: Seq<char>, league_id: Seq<char>, ids: Seq<char>) -> Seq<char> {
    api_root() + year + "/export?TYPE=players&L="@ + league_id + "&PLAYERS="@ + ids + "&JSON=1"@
}

/// The header value that carries a user marker.
pub open spec fn cookie_of(marker: Seq<char>) -> Seq<char> {
    "MFL_USER_ID="@ + marker
}

/// The characters of an optional string.
pub open spec fn opt_view(o: Option<String>) -> Option<Seq<char>> {
    match o {
        Some(s) => Some(s@),
        None => None,
    }
}

/// How an answer's status decides between its body and an error.
pub open spec fn status_outcome(status: u16, body: String) -> Result<String, MflError> {
    if is_success(status) {
        Ok(body)
    } else {
        Err(MflError::ApiStatusError { status, body })
    }
}

/// Passes on the body of a success answer; any other status becomes
/// `ApiStatusError` with the status and the body.
pub fn check_status(status: u16, body: String) -> (r: Result<String, MflError>)
    ensures
        r == status_outcome(status, body),
{
    if 200 <= status && status <= 299 {
        Ok(body)
    } else {
        Err(MflError::ApiStatusError { status, body })
    }
}

impl MflApi {
    /// A client for `year`, not logged in.
    pub fn new(year: String) -> (r: MflApi)
        ensures
            r.year == year,
            r.mfl_user_id_cookie is None,
    {
        MflApi { year, mfl_user_id_cookie: None }
    }

    /// The login request, with the user name and password percent-encoded.
    pub fn login_url(&self, username: &str, password: &str) -> (r: String)
        ensures
            r@ == login_url_of(self.year@, username@, password@),
    {
        let mut u = String::from_str("https://api.myfantasyleague.com/");
        u.append(self.year.as_str());
        u.append("/login?USERNAME=");
        let user = url_encode(username);
        u.append(user.as_str());
        u.append("&PASSWORD=");
        let pass = url_encode(password);
        u.append(pass.as_str());
        u.append("&XML=1");
        u
    }

    /// Takes in the answer to the login request. A success answer whose body
    /// carries the user marker logs the client in; otherwise the client is
    /// left as it was and the error says why.
    pub fn login(&mut self, status: u16, body: String) -> (r: Result<(), MflError>)
        ensures
            !is_success(status) ==> r == Err::<(), MflError>(
                MflError::ApiStatusError { status, body },
            ) && *final(self) == *old(self),
            is_success(status) && is_marker_of(body@, None) ==> r == Err::<(), MflError>(
                MflError::LoginCookieNotFound,
            ) && *final(self) == *old(self),
            is_success(status) && !is_marker_of(body@, None) ==> r is Ok && final(self).year
                == old(self).year && final(self).mfl_user_id_cookie is Some && is_marker_of(
                body@,
                opt_view(final(self).mfl_user_id_cookie),
            ),
    {
        let text = match check_status(status, body) {
            Ok(t) => t,
            Err(e) => {
                return Err(e);
            },
        };
        match find_login_marker(text.as_str()) {
            Some(cookie) => {
                self.mfl_user_id_cookie = Some(cookie);
                Ok(())
            },
            None => Err(MflError::LoginCookieNotFound),
        }
    }

    /// The header value that carries this client's marker, if logged in.
    pub fn cookie_header(&self) -> (r: Option<String>)
        ensures
            opt_view(r) == match self.mfl_user_id_cookie {
                Some(c) => Some(cookie_of(c@)),
                None => None,
            },
    {
        match &self.mfl_user_id_cookie {
            Some(c) => {
                let mut h = String::from_str("MFL_USER_ID=");
                h.append(c.as_str());
                Some(h)
            },
            None => None,
        }
    }

    /// The request for the league's details.
    pub fn league_info_url(&self, league_id: &str) -> (r: String)
        ensures
            r@ == league_info_url_of(self.year@, league_id@),
    {
        let mut u = String::from_str("https://api.myfantasyleague.com/");
        u.append(self.year.as_str());
        u.append("/export?TYPE=league&L=");
        u.append(league_id);
        u.append("&JSON=1");
        u
    }

    /// The request for the free-agents report, filtered by position when one
    /// is given.
    pub fn free_agents_url(&self, league_id: &str, position: Option<&str>) -> (r: String)
        ensures
            r@ == free_agents_url_of(
                self.year@,
                league_id@,
                match position {
                    Some(p) => Some(p@),
                    None => None,
                },
            ),
    {
        let mut u = String::from_str("https://api.myfantasyleague.com/");
        u.append(self.year.as_str());
        u.append("/export?TYPE=freeAgents&L=");
        u.append(league_id);
        match position {
            Some(p) => {
                u.append("&POSITION=");
                u.append(p);
            },
            None => {},
        }
        u.append("&JSON=1");
        u
    }

    /// The request for the details of the players whose comma-joined ids
    /// are given; an empty list is sent as it is.
    pub fn players_url(&self, league_id: &str, player_ids: &str) -> (r: String)
        ensures
            r@ == players_url_of(self.year@, league_id@, player_ids@),
    {
        let mut u = String::from_str("https://api.myfantasyleague.com/");
        u.append(self.year.as_str());
        u.append("/export?TYPE=players&L=");
        u.append(league_id);
        u.append("&PLAYERS=");
        u.append(player_ids);
        u.append("&JSON=1");
        u
    }
}

/// How a report request's answer turns into its result: the status comes
/// first, then whether the body could be read as the report.
pub open spec fn report_outcome<T>(status: u16, body: String, parsed: Result<T, String>) -> Result<
    T,
    MflError,
> {
    if !is_success(status) {
        Err(MflError::ApiStatusError { status, body })
    } else {
        match parsed {
            Ok(report) => Ok(report),
            Err(msg) => Err(MflError::JsonParse(msg)),
        }
    }
}

impl MflApi {
    /// Takes in the answer to the free-agents request: its status, its body,
    /// and the body read as the report (or why it could not be). Gives the
    /// report's players, taken out of its unit wrapper.
    pub fn get_free_agents(
        status: u16,
        body: String,
        parsed: Result<FreeAgentResponse, String>,
    ) -> (r: Result<Vec<FreeAgentPlayer>, MflError>)
        ensures
            r == match report_outcome(status, body, parsed) {
                Ok(report) => Ok(report.freeAgents.leagueUnit.player),
                Err(e) => Err(e),
            },
    {
        match check_status(status, body) {
            Err(e) => Err(e),
            Ok(_) => match parsed {
                Ok(report) => Ok(report.freeAgents.leagueUnit.player),
                Err(msg) => Err(MflError::JsonParse(msg)),
            },
        }
    }

    /// Takes in the answer to the players request, as `get_free_agents`
    /// does. Gives the report's player list.
    pub fn get_players(
        status: u16,
        body: String,
        parsed: Result<PlayersStatusResponse, String>,
    ) -> (r: Result<PlayersPlayers, MflError>)
        ensures
            r == match report_outcome(status, body, parsed) {
                Ok(report) => Ok(report.players),
                Err(e) => Err(e),
            },
    {
        match check_status(status, body) {
            Err(e) => Err(e),
            Ok(_) => match parsed {
                Ok(report) => Ok(report.players),
                Err(msg) => Err(MflError::JsonParse(msg)),
            },
        }
    }
}

} // verus!
