//! The decisions of the service's endpoints. Each takes what an upstream
//! round trip gave and says what comes next; the round trips themselves
//! are made by the server around this library.

use vstd::prelude::*;
use vstd::string::*;
use crate::app_state::SessionStore;
use crate::errors::{MflError, ServiceError};
use crate::handler_models::{LoginRequest, LoginResponse, PlayerResponse, SessionData};
use crate::marker::{
    is_marker_of, lemma_marker_anywhere, lemma_marker_unique, marker_at, marker_close, marker_open,
    quote_free,
};
use crate::mfl_api::{
    free_agents_url_of, is_success, opt_view, FreeAgentPlayer, MflApi, PlayersPlayer,
    PlayersPlayers,
};

verus! {

/// Relies on `uuid::Uuid::new_v4` and `Uuid`'s `Display`: a random
/// version-4 id, written in the 36-character hyphenated form.
#[verifier::external_body]
fn new_session_token() -> (r: String)
    ensures
        r@.len() == 36,
{
    uuid::Uuid::new_v4().to_string()
}

/// `e` is the session that a login with `request`, answered by `body`,
/// leaves behind.
pub open spec fn login_entry(e: SessionData, request: LoginRequest, body: Seq<char>) -> bool {
    &&& e.league_id == request.league_id
    &&& e.year == request.year
    &&& e.mfl_api.year == request.year
    &&& e.mfl_api.mfl_user_id_cookie is Some
    &&& is_marker_of(body, opt_view(e.mfl_api.mfl_user_id_cookie))
}

/// A body that carries `MFL_USER_ID="v">OK`, with no marker before it,
/// counts as a marked login answer, and the session such a login leaves
/// holds `v` as its marker.
pub proof fn lemma_login_keeps_marker(
    e: SessionData,
    request: LoginRequest,
    pre: Seq<char>,
    v: Seq<char>,
    post: Seq<char>,
)
    requires
        quote_free(v, 0, v.len() as int),
        forall|i: int, j: int|
            i < pre.len() ==> !marker_at(pre + marker_open() + v + marker_close() + post, i, j),
    ensures
        !is_marker_of(pre + marker_open() + v + marker_close() + post, None),
        login_entry(e, request, pre + marker_open() + v + marker_close() + post) ==> opt_view(
            e.mfl_api.mfl_user_id_cookie,
        ) == Some(v),
{
    let b = pre + marker_open() + v + marker_close() + post;
    lemma_marker_anywhere(pre, v, post);
    if is_marker_of(b, None) {
        lemma_marker_unique(b, None, Some(v));
    }
    if login_entry(e, request, b) {
        lemma_marker_unique(b, opt_view(e.mfl_api.mfl_user_id_cookie), Some(v));
    }
}

/// Finishes a login whose upstream answer had `status` and `body`: on
/// success the new session is filed under `token`, which is handed back.
/// A failed login leaves the store as it was.
pub fn register_login(
    sessions: &mut SessionStore,
    request: LoginRequest,
    status: u16,
    body: String,
    token: String,
) -> (r: Result<LoginResponse, ServiceError>)
    ensures
        !is_success(status) ==> r == Err::<LoginResponse, ServiceError>(
            ServiceError::MflLoginError(MflError::ApiStatusError { status, body }),
        ) && final(sessions)@ == old(sessions)@,
        is_success(status) && is_marker_of(body@, None) ==> r == Err::<
            LoginResponse,
            ServiceError,
        >(ServiceError::MflLoginError(MflError::LoginCookieNotFound)) && final(sessions)@ == old(
            sessions,
        )@,
        is_success(status) && !is_marker_of(body@, None) ==> r == Ok::<
            LoginResponse,
            ServiceError,
        >((LoginResponse { token })) && final(sessions)@ == old(sessions)@.insert(
            token@,
            final(sessions)@[token@],
        ) && login_entry(final(sessions)@[token@], request, body@),
{
    let mut api = MflApi::new(request.year.clone());
    match api.login(status, body) {
        Err(e) => Err(ServiceError::MflLoginError(e)),
        Ok(()) => {
            let entry = SessionData { mfl_api: api, league_id: request.league_id, year: request.year };
            let key = token.clone();
            sessions.insert(key, entry);
            Ok(LoginResponse { token })
        },
    }
}

/// Finishes a login as `register_login` does, under a fresh random token.
pub fn login_session(
    sessions: &mut SessionStore,
    request: LoginRequest,
    status: u16,
    body: String,
) -> (r: Result<LoginResponse, ServiceError>)
    ensures
        !is_success(status) ==> r == Err::<LoginResponse, ServiceError>(
            ServiceError::MflLoginError(MflError::ApiStatusError { status, body }),
        ) && final(sessions)@ == old(sessions)@,
        is_success(status) && is_marker_of(body@, None) ==> r == Err::<
            LoginResponse,
            ServiceError,
        >(ServiceError::MflLoginError(MflError::LoginCookieNotFound)) && final(sessions)@ == old(
            sessions,
        )@,
        is_success(status) && !is_marker_of(body@, None) ==> r is Ok && r->Ok_0.token@.len() == 36
            && final(sessions)@ == old(sessions)@.insert(
            r->Ok_0.token@,
            final(sessions)@[r->Ok_0.token@],
        ) && login_entry(final(sessions)@[r->Ok_0.token@], request, body@),
{
    let token = new_session_token();
    register_login(sessions, request, status, body, token)
}

/// The free-agents request for the session the guard attached, filtered by
/// `position`. With no session attached the server is at fault.
pub fn free_agents_request(ctx: Option<&SessionData>, position: &str) -> (r: Result<
    String,
    ServiceError,
>)
    ensures
        match ctx {
            Some(d) => r is Ok && r->Ok_0@ == free_agents_url_of(
                d.mfl_api.year@,
                d.league_id@,
                Some(position@),
            ),
            None => r == Err::<String, ServiceError>(ServiceError::InternalServerError),
        },
{
    match ctx {
        Some(d) => Ok(d.mfl_api.free_agents_url(d.league_id.as_str(), Some(position))),
        None => Err(ServiceError::InternalServerError),
    }
}

/// The ids of `agents`, joined by commas.
pub open spec fn joined_ids(agents: Seq<FreeAgentPlayer>) -> Seq<char>
    decreases agents.len(),
{
    if agents.len() == 0 {
        Seq::empty()
    } else if agents.len() == 1 {
        agents[0].id@
    } else {
        joined_ids(agents.drop_last()) + ","@ + agents.last().id@
    }
}

/// The ids of `agents`, joined by commas.
pub fn join_ids(agents: &Vec<FreeAgentPlayer>) -> (r: String)
    ensures
        r@ == joined_ids(agents@),
{
    let mut out = String::new();
    let mut i: usize = 0;
    while i < agents.len()
        invariant
            i <= agents.len(),
            out@ == joined_ids(agents@.subrange(0, i as int)),
        decreases agents.len() - i,
    {
        let ghost before = agents@.subrange(0, i as int);
        assert(agents@.subrange(0, i + 1).drop_last() =~= before);
        if i > 0 {
            out.append(",");
        }
        out.append(agents[i].id.as_str());
        i = i + 1;
        proof {
            if i == 1 {
                assert(before.len() == 0);
                assert(out@ =~= joined_ids(agents@.subrange(0, i as int)));
            }
        }
    }
    assert(agents@.subrange(0, agents.len() as int) =~= agents@);
    out
}

/// `r` is how the service reports the upstream player `p`: an absent
/// position becomes empty text.
pub open spec fn reports(r: PlayerResponse, p: PlayersPlayer) -> bool {
    &&& r.id == p.id
    &&& r.name == p.name
    &&& r.team == p.team
    &&& match p.position {
        Some(pos) => r.position == pos,
        None => r.position@ == Seq::<char>::empty(),
    }
}

/// The service's report of each player of `players`, in order.
pub fn to_player_responses(players: &PlayersPlayers) -> (r: Vec<PlayerResponse>)
    ensures
        r@.len() == players.player@.len(),
        forall|k: int| 0 <= k < r@.len() ==> reports(#[trigger] r@[k], players.player@[k]),
{
    let mut out: Vec<PlayerResponse> = Vec::new();
    let mut i: usize = 0;
    while i < players.player.len()
        invariant
            i <= players.player.len(),
            out@.len() == i,
            forall|k: int| 0 <= k < i ==> reports(#[trigger] out@[k], players.player@[k]),
        decreases players.player.len() - i,
    {
        let p = &players.player[i];
        let position = match &p.position {
            Some(s) => s.clone(),
            None => String::new(),
        };
        let team = match &p.team {
            Some(t) => Some(t.clone()),
            None => None,
        };
        out.push(PlayerResponse { id: p.id.clone(), name: p.name.clone(), position, team });
        i = i + 1;
    }
    out
}

/// What the free-agents endpoint does after the free-agents report.
#[derive(Debug)]
pub enum FreeAgentsNext {
    /// Answer with this list; no further upstream call.
    Respond(Vec<PlayerResponse>),
    /// Ask upstream for the details of these comma-joined ids.
    FetchPlayers(String),
    /// Answer with this error.
    Fail(ServiceError),
}

/// Decides on the free-agents report: an upstream error fails the request;
/// an empty id list is answered with an empty list at once, never asked
/// for; otherwise the joined ids are asked for.
pub fn after_free_agents(listed: Result<Vec<FreeAgentPlayer>, MflError>) -> (r: FreeAgentsNext)
    ensures
        match listed {
            Err(e) => r == FreeAgentsNext::Fail(ServiceError::MflApiError(e)),
            Ok(agents) => if joined_ids(agents@).len() == 0 {
                r matches FreeAgentsNext::Respond(out) && out@.len() == 0
            } else {
                r matches FreeAgentsNext::FetchPlayers(ids) && ids@ == joined_ids(agents@)
            },
        },
        listed is Ok && listed->Ok_0@.len() == 0 ==> (r matches FreeAgentsNext::Respond(out)
            && out@.len() == 0),
{
    match listed {
        Err(e) => FreeAgentsNext::Fail(ServiceError::MflApiError(e)),
        Ok(agents) => {
            let ids = join_ids(&agents);
            if ids.as_str().is_empty() {
                FreeAgentsNext::Respond(Vec::new())
            } else {
                FreeAgentsNext::FetchPlayers(ids)
            }
        },
    }
}

/// Decides on the players report: an upstream error fails the request;
/// otherwise each player is reported.
pub fn after_players(fetched: Result<PlayersPlayers, MflError>) -> (r: Result<
    Vec<PlayerResponse>,
    ServiceError,
>)
    ensures
        match fetched {
            Err(e) => r == Err::<Vec<PlayerResponse>, ServiceError>(ServiceError::MflApiError(e)),
            Ok(players) => r is Ok && r->Ok_0@.len() == players.player@.len() && forall|k: int|
                0 <= k < players.player@.len() ==> reports(
                    #[trigger] r->Ok_0@[k],
                    players.player@[k],
                ),
        },
{
    match fetched {
        Err(e) => Err(ServiceError::MflApiError(e)),
        Ok(players) => Ok(to_player_responses(&players)),
    }
}

} // verus!
