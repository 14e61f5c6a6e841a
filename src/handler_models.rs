//! What the service's own endpoints take and give, and what a session holds.

use vstd::prelude::*;
use crate::mfl_api::MflApi;

verus! {

/// The body of a login request.
#[derive(Debug, Clone)]
pub struct LoginRequest {
    pub username: String,
    pub password: String,
    pub league_id: String,
    pub year: String,
}

/// The answer to a successful login: the bearer token of the new session.
#[derive(Debug, Clone)]
pub struct LoginResponse {
    pub token: String,
}

/// One player as the service reports it.
#[derive(Debug, Clone)]
pub struct PlayerResponse {
    pub id: String,
    pub name: String,
    pub position: String,
    pub team: Option<String>,
}

/// What one login leaves behind: the logged-in client and the league and
/// season it was made for.
#[derive(Debug)]
pub struct SessionData {
    pub mfl_api: MflApi,
    pub league_id: String,
    pub year: String,
}

/// A copy of an optional string.
pub fn copy_opt(o: &Option<String>) -> (r: Option<String>)
    ensures
        r == *o,
{
    match o {
        Some(s) => Some(s.clone()),
        None => None,
    }
}

impl MflApi {
    /// A copy of the client.
    pub fn duplicate(&self) -> (r: MflApi)
        ensures
            r == *self,
    {
        MflApi { year: self.year.clone(), mfl_user_id_cookie: copy_opt(&self.mfl_user_id_cookie) }
    }
}

impl SessionData {
    /// A copy of the session, equal to it in every field.
    pub fn duplicate(&self) -> (r: SessionData)
        ensures
            r == *self,
    {
        SessionData {
            mfl_api: self.mfl_api.duplicate(),
            league_id: self.league_id.clone(),
            year: self.year.clone(),
        }
    }
}

} // verus!
