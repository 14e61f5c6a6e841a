use mfl_manager::app_state::SessionStore;
use mfl_manager::errors::{MflError, ServiceError};
use mfl_manager::handler_middleware::{bearer_token_of, same_text, AuthMiddleware, AuthDecision};
use mfl_manager::handler_models::{LoginRequest, PlayerResponse, SessionData};
use mfl_manager::handlers::{
    after_free_agents, after_players, free_agents_request, join_ids, login_session,
    register_login, to_player_responses, FreeAgentsNext,
};
use mfl_manager::marker::{chars_of, find_login_marker};
use mfl_manager::mfl_api::{
    check_status, FreeAgentLeagueUnit, FreeAgentPlayer, FreeAgentResponse, FreeAgents, MflApi,
    PlayersPlayer, PlayersPlayers, PlayersStatusResponse,
};

fn request() -> LoginRequest {
    LoginRequest {
        username: "coach".to_string(),
        password: "secret".to_string(),
        league_id: "74560".to_string(),
        year: "2025".to_string(),
    }
}

fn session(marker: &str) -> SessionData {
    SessionData {
        mfl_api: MflApi { year: "2025".to_string(), mfl_user_id_cookie: Some(marker.to_string()) },
        league_id: "74560".to_string(),
        year: "2025".to_string(),
    }
}

fn agent(id: &str) -> FreeAgentPlayer {
    FreeAgentPlayer { id: id.to_string(), salary: "1.00".to_string(), contractStatus: "".to_string() }
}

fn player(id: &str, name: &str, position: Option<&str>, team: Option<&str>) -> PlayersPlayer {
    PlayersPlayer {
        position: position.map(|p| p.to_string()),
        id: id.to_string(),
        team: team.map(|t| t.to_string()),
        name: name.to_string(),
        status: None,
    }
}

// --- marker extraction ---

#[test]
fn marker_found_inside_markup() {
    let body = "<?xml version=\"1.0\"?><status MFL_USER_ID=\"abc123\">OK</status>";
    assert_eq!(find_login_marker(body), Some("abc123".to_string()));
}

#[test]
fn marker_absent() {
    assert_eq!(find_login_marker("<error>Invalid login</error>"), None);
    assert_eq!(find_login_marker(""), None);
}

#[test]
fn marker_leftmost_wins() {
    let body = "MFL_USER_ID=\"first\">OK and MFL_USER_ID=\"second\">OK";
    assert_eq!(find_login_marker(body), Some("first".to_string()));
}

#[test]
fn marker_needs_closing_ok() {
    assert_eq!(find_login_marker("MFL_USER_ID=\"abc\">NO"), None);
    assert_eq!(find_login_marker("MFL_USER_ID=\"abc"), None);
}

#[test]
fn marker_skips_broken_then_finds_later() {
    let body = "MFL_USER_ID=\"x\">NO MFL_USER_ID=\"y9\">OK";
    assert_eq!(find_login_marker(body), Some("y9".to_string()));
}

#[test]
fn marker_value_may_be_empty() {
    assert_eq!(find_login_marker("MFL_USER_ID=\"\">OK"), Some("".to_string()));
}

#[test]
fn chars_of_keeps_every_char() {
    assert_eq!(chars_of("añb"), vec!['a', 'ñ', 'b']);
}

// --- login ---

#[test]
fn login_with_marker_files_session() {
    let mut store = SessionStore::new();
    let r = register_login(
        &mut store,
        request(),
        200,
        "<status MFL_USER_ID=\"abc123\">OK</status>".to_string(),
        "tok-1".to_string(),
    );
    let resp = r.expect("login should succeed");
    assert_eq!(resp.token, "tok-1");
    let entry = store.get("tok-1").expect("session filed");
    assert_eq!(entry.mfl_api.mfl_user_id_cookie, Some("abc123".to_string()));
    assert_eq!(entry.mfl_api.year, "2025");
    assert_eq!(entry.league_id, "74560");
    assert_eq!(entry.year, "2025");
    assert_eq!(store.len(), 1);
}

#[test]
fn login_success_status_without_marker() {
    let mut store = SessionStore::new();
    let r = register_login(&mut store, request(), 200, "<error/>".to_string(), "tok".to_string());
    assert!(matches!(r, Err(ServiceError::MflLoginError(MflError::LoginCookieNotFound))));
    assert_eq!(store.len(), 0);
    assert!(!store.contains("tok"));
}

#[test]
fn login_error_status_keeps_status_and_body() {
    let mut store = SessionStore::new();
    let r = register_login(
        &mut store,
        request(),
        503,
        "MFL_USER_ID=\"abc\">OK".to_string(),
        "tok".to_string(),
    );
    match r {
        Err(ServiceError::MflLoginError(MflError::ApiStatusError { status, body })) => {
            assert_eq!(status, 503);
            assert_eq!(body, "MFL_USER_ID=\"abc\">OK");
        }
        other => panic!("unexpected {:?}", other),
    }
    assert_eq!(store.len(), 0);
}

#[test]
fn login_session_issues_uuid_token() {
    let mut store = SessionStore::new();
    let r = login_session(&mut store, request(), 200, "MFL_USER_ID=\"m1\">OK".to_string());
    let resp = r.expect("login should succeed");
    assert_eq!(resp.token.len(), 36);
    assert_eq!(resp.token.matches('-').count(), 4);
    let entry = store.get(&resp.token).expect("session filed");
    assert_eq!(entry.mfl_api.mfl_user_id_cookie, Some("m1".to_string()));
}

#[test]
fn two_logins_stay_apart() {
    let mut store = SessionStore::new();
    let mut second = request();
    second.username = "other".to_string();
    second.league_id = "11111".to_string();
    let a = login_session(&mut store, request(), 200, "MFL_USER_ID=\"alpha\">OK".to_string())
        .expect("first login");
    let b = login_session(&mut store, second, 200, "MFL_USER_ID=\"beta\">OK".to_string())
        .expect("second login");
    assert_ne!(a.token, b.token);
    let ea = store.get(&a.token).expect("first session");
    let eb = store.get(&b.token).expect("second session");
    assert_eq!(ea.mfl_api.mfl_user_id_cookie, Some("alpha".to_string()));
    assert_eq!(ea.league_id, "74560");
    assert_eq!(eb.mfl_api.mfl_user_id_cookie, Some("beta".to_string()));
    assert_eq!(eb.league_id, "11111");
    assert_eq!(store.len(), 2);
}

#[test]
fn client_login_sets_and_keeps_marker() {
    let mut api = MflApi::new("2025".to_string());
    assert!(api.mfl_user_id_cookie.is_none());
    assert!(api.login(200, "MFL_USER_ID=\"zz\">OK".to_string()).is_ok());
    assert_eq!(api.mfl_user_id_cookie, Some("zz".to_string()));
    let r = api.login(401, "denied".to_string());
    assert!(matches!(r, Err(MflError::ApiStatusError { status: 401, .. })));
    assert_eq!(api.mfl_user_id_cookie, Some("zz".to_string()));
}

// --- session store ---

#[test]
fn store_insert_get_clear() {
    let mut store = SessionStore::new();
    store.insert("t1".to_string(), session("abc"));
    let got = store.get("t1").expect("present");
    assert_eq!(got.mfl_api.mfl_user_id_cookie, Some("abc".to_string()));
    assert_eq!(got.mfl_api.year, "2025");
    assert_eq!(got.league_id, "74560");
    assert_eq!(got.year, "2025");
    assert!(store.get("t2").is_none());
    store.clear();
    assert!(store.get("t1").is_none());
    assert_eq!(store.len(), 0);
}

#[test]
fn store_insert_replaces() {
    let mut store = SessionStore::new();
    store.insert("t".to_string(), session("one"));
    store.insert("t".to_string(), session("two"));
    assert_eq!(store.len(), 1);
    assert_eq!(store.get("t").unwrap().mfl_api.mfl_user_id_cookie, Some("two".to_string()));
}

// --- request guard ---

fn guard_store() -> SessionStore {
    let mut store = SessionStore::new();
    store.insert("good".to_string(), session("abc"));
    store
}

#[test]
fn guard_passes_login_without_checks() {
    let guard = AuthMiddleware.new_transform(());
    assert!(matches!(guard.call("/login", None, None), AuthDecision::Forward));
}

#[test]
fn guard_rejects_missing_or_malformed_header() {
    let guard = AuthMiddleware.new_transform(());
    let store = guard_store();
    for header in [None, Some("good"), Some("Basic good"), Some("Bearer "), Some("bearer good")] {
        assert!(matches!(
            guard.call("/free-agents/QB", header, Some(&store)),
            AuthDecision::Unauthorized
        ));
    }
}

#[test]
fn guard_rejects_unknown_token_alike() {
    let guard = AuthMiddleware.new_transform(());
    let store = guard_store();
    assert!(matches!(
        guard.call("/free-agents/QB", Some("Bearer nope"), Some(&store)),
        AuthDecision::Unauthorized
    ));
}

#[test]
fn guard_attaches_known_session() {
    let guard = AuthMiddleware.new_transform(());
    let store = guard_store();
    match guard.call("/free-agents/QB", Some("Bearer good"), Some(&store)) {
        AuthDecision::Authenticated(d) => {
            assert_eq!(d.mfl_api.mfl_user_id_cookie, Some("abc".to_string()));
            assert_eq!(d.league_id, "74560");
        }
        other => panic!("unexpected {:?}", other),
    }
}

#[test]
fn guard_without_store_is_server_fault() {
    let guard = AuthMiddleware.new_transform(());
    assert!(matches!(
        guard.call("/free-agents/QB", Some("Bearer good"), None),
        AuthDecision::StoreMissing
    ));
}

#[test]
fn bearer_token_extraction() {
    assert_eq!(bearer_token_of(Some("Bearer abc")), Some("abc".to_string()));
    assert_eq!(bearer_token_of(Some("Bearer  x")), Some(" x".to_string()));
    assert_eq!(bearer_token_of(Some("Bearer ")), None);
    assert_eq!(bearer_token_of(None), None);
    assert!(same_text("/login", "/login"));
    assert!(!same_text("/login/", "/login"));
}

// --- upstream requests ---

#[test]
fn login_url_percent_encodes_credentials() {
    let api = MflApi::new("2025".to_string());
    assert_eq!(
        api.login_url("d3 cay", "R49G&#T*cS2@"),
        "https://api.myfantasyleague.com/2025/login?USERNAME=d3%20cay&PASSWORD=R49G%26%23T%2AcS2%40&XML=1"
    );
    assert_eq!(
        api.login_url("plain_user", "pw-1.2~"),
        "https://api.myfantasyleague.com/2025/login?USERNAME=plain_user&PASSWORD=pw-1.2~&XML=1"
    );
}

#[test]
fn export_urls() {
    let api = MflApi::new("2025".to_string());
    assert_eq!(
        api.free_agents_url("74560", Some("QB")),
        "https://api.myfantasyleague.com/2025/export?TYPE=freeAgents&L=74560&POSITION=QB&JSON=1"
    );
    assert_eq!(
        api.free_agents_url("74560", None),
        "https://api.myfantasyleague.com/2025/export?TYPE=freeAgents&L=74560&JSON=1"
    );
    assert_eq!(
        api.players_url("74560", "1,2"),
        "https://api.myfantasyleague.com/2025/export?TYPE=players&L=74560&PLAYERS=1,2&JSON=1"
    );
    assert_eq!(
        api.players_url("74560", ""),
        "https://api.myfantasyleague.com/2025/export?TYPE=players&L=74560&PLAYERS=&JSON=1"
    );
    assert_eq!(
        api.league_info_url("74560"),
        "https://api.myfantasyleague.com/2025/export?TYPE=league&L=74560&JSON=1"
    );
}

#[test]
fn cookie_header_carries_marker() {
    let mut api = MflApi::new("2025".to_string());
    assert_eq!(api.cookie_header(), None);
    api.mfl_user_id_cookie = Some("abc".to_string());
    assert_eq!(api.cookie_header(), Some("MFL_USER_ID=abc".to_string()));
}

// --- upstream answers ---

#[test]
fn status_check() {
    assert_eq!(check_status(200, "x".to_string()).ok(), Some("x".to_string()));
    assert_eq!(check_status(299, "y".to_string()).ok(), Some("y".to_string()));
    assert!(matches!(
        check_status(300, "z".to_string()),
        Err(MflError::ApiStatusError { status: 300, .. })
    ));
    assert!(matches!(
        check_status(199, "z".to_string()),
        Err(MflError::ApiStatusError { status: 199, .. })
    ));
}

fn free_agent_report(ids: &[&str]) -> FreeAgentResponse {
    FreeAgentResponse {
        version: "1.0".to_string(),
        freeAgents: FreeAgents {
            leagueUnit: FreeAgentLeagueUnit {
                unit: "LEAGUE".to_string(),
                player: ids.iter().map(|i| agent(i)).collect(),
            },
        },
        encoding: "utf-8".to_string(),
    }
}

#[test]
fn free_agents_answer_kinds() {
    let ok = MflApi::get_free_agents(200, "{}".to_string(), Ok(free_agent_report(&["7", "8"])))
        .expect("report");
    assert_eq!(ok.len(), 2);
    assert_eq!(ok[1].id, "8");
    let garbage = MflApi::get_free_agents(200, "<html>".to_string(), Err("expected value".to_string()));
    assert!(matches!(garbage, Err(MflError::JsonParse(ref m)) if m == "expected value"));
    let rejected = MflApi::get_free_agents(500, "boom".to_string(), Err("expected value".to_string()));
    match rejected {
        Err(MflError::ApiStatusError { status, body }) => {
            assert_eq!(status, 500);
            assert_eq!(body, "boom");
        }
        other => panic!("unexpected {:?}", other),
    }
}

#[test]
fn players_answer_kinds() {
    let report = PlayersStatusResponse {
        players: PlayersPlayers {
            player: vec![player("7", "Smith, Al", Some("QB"), None)],
            timestamp: "0".to_string(),
        },
        encoding: "utf-8".to_string(),
        version: "1.0".to_string(),
    };
    let ok = MflApi::get_players(200, "{}".to_string(), Ok(report)).expect("players");
    assert_eq!(ok.player.len(), 1);
    assert_eq!(ok.player[0].name, "Smith, Al");
    assert!(matches!(
        MflApi::get_players(404, "".to_string(), Err("eof".to_string())),
        Err(MflError::ApiStatusError { status: 404, .. })
    ));
    assert!(matches!(
        MflApi::get_players(200, "".to_string(), Err("eof".to_string())),
        Err(MflError::JsonParse(_))
    ));
}

// --- free-agents endpoint ---

#[test]
fn no_free_agents_means_no_player_lookup() {
    match after_free_agents(Ok(vec![])) {
        FreeAgentsNext::Respond(list) => assert!(list.is_empty()),
        other => panic!("unexpected {:?}", other),
    }
}

#[test]
fn free_agents_lead_to_player_lookup() {
    match after_free_agents(Ok(vec![agent("1"), agent("22"), agent("333")])) {
        FreeAgentsNext::FetchPlayers(ids) => assert_eq!(ids, "1,22,333"),
        other => panic!("unexpected {:?}", other),
    }
}

#[test]
fn free_agents_upstream_error_fails() {
    let r = after_free_agents(Err(MflError::Network("down".to_string())));
    match r {
        FreeAgentsNext::Fail(e) => {
            assert!(matches!(e, ServiceError::MflApiError(MflError::Network(_))));
            assert_eq!(e.status_code(), 500);
        }
        other => panic!("unexpected {:?}", other),
    }
}

#[test]
fn join_ids_by_commas() {
    assert_eq!(join_ids(&vec![]), "");
    assert_eq!(join_ids(&vec![agent("5")]), "5");
    assert_eq!(join_ids(&vec![agent("5"), agent("6")]), "5,6");
}

#[test]
fn players_reported_with_default_position() {
    let players = PlayersPlayers {
        player: vec![
            player("1", "Doe, Jon", Some("RB"), Some("NYJ")),
            player("2", "Roe, Ann", None, None),
        ],
        timestamp: "0".to_string(),
    };
    let out: Vec<PlayerResponse> = to_player_responses(&players);
    assert_eq!(out.len(), 2);
    assert_eq!(out[0].id, "1");
    assert_eq!(out[0].name, "Doe, Jon");
    assert_eq!(out[0].position, "RB");
    assert_eq!(out[0].team, Some("NYJ".to_string()));
    assert_eq!(out[1].position, "");
    assert_eq!(out[1].team, None);
    let via = after_players(Ok(players)).expect("players");
    assert_eq!(via.len(), 2);
    assert!(matches!(
        after_players(Err(MflError::JsonParse("x".to_string()))),
        Err(ServiceError::MflApiError(MflError::JsonParse(_)))
    ));
}

#[test]
fn free_agents_request_needs_session() {
    let d = session("abc");
    assert_eq!(
        free_agents_request(Some(&d), "WR").ok(),
        Some("https://api.myfantasyleague.com/2025/export?TYPE=freeAgents&L=74560&POSITION=WR&JSON=1".to_string())
    );
    assert!(matches!(free_agents_request(None, "WR"), Err(ServiceError::InternalServerError)));
}

#[test]
fn service_status_codes() {
    assert_eq!(ServiceError::InternalServerError.status_code(), 500);
    assert_eq!(ServiceError::BadRequest("b".to_string()).status_code(), 400);
    assert_eq!(ServiceError::Unauthorized("u".to_string()).status_code(), 401);
    assert_eq!(ServiceError::MflApiError(MflError::LoginCookieNotFound).status_code(), 500);
    assert_eq!(ServiceError::MflLoginError(MflError::LoginCookieNotFound).status_code(), 401);
    assert_eq!(ServiceError::NotFound("n".to_string()).status_code(), 404);
}

#[test]
fn session_copy_is_equal() {
    let d = session("abc");
    let c = d.duplicate();
    assert_eq!(c.mfl_api.mfl_user_id_cookie, d.mfl_api.mfl_user_id_cookie);
    assert_eq!(c.league_id, d.league_id);
    assert_eq!(c.year, d.year);
}
