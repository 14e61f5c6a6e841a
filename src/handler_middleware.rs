//! The request guard: every request but the login request needs a known
//! bearer token.

use vstd::prelude::*;
use vstd::string::*;
use crate::app_state::{lookup, SessionStore};
use crate::handler_models::SessionData;
use crate::marker::chars_of;
use crate::mfl_api::opt_view;

verus! {

/// The only route open without a session.
pub open spec fn login_path() -> Seq<char> {
    "/login"@
}

/// The scheme that must open an `Authorization` header.
pub open spec fn bearer_scheme() -> Seq<char> {
    seq!['B', 'e', 'a', 'r', 'e', 'r', ' ']
}

/// The token of an `Authorization` header: what follows `Bearer `, where
/// that is not empty.
pub open spec fn bearer_token(header: Option<Seq<char>>) -> Option<Seq<char>> {
    match header {
        Some(h) => if h.len() > 7 && h.subrange(0, 7) == bearer_scheme() {
            Some(h.subrange(7, h.len() as int))
        } else {
            None
        },
        None => None,
    }
}

/// What the guard does with a request.
#[derive(Debug)]
pub enum AuthDecision {
    /// The login request: passed on without any check.
    Forward,
    /// A known session: passed on with a copy of it.
    Authenticated(SessionData),
    /// No usable header, or a token that no session has.
    Unauthorized,
    /// The service was set up without a session store.
    StoreMissing,
}

/// The guard's rule, for a request to `path` with an `Authorization` header
/// `header`, over a store whose contents are `store`.
pub open spec fn auth_decision(
    path: Seq<char>,
    header: Option<Seq<char>>,
    store: Option<Map<Seq<char>, SessionData>>,
) -> AuthDecision {
    if path == login_path() {
        AuthDecision::Forward
    } else {
        match store {
            None => AuthDecision::StoreMissing,
            Some(m) => match bearer_token(header) {
                None => AuthDecision::Unauthorized,
                Some(t) => match lookup(m, t) {
                    Some(d) => AuthDecision::Authenticated(d),
                    None => AuthDecision::Unauthorized,
                },
            },
        }
    }
}

/// Are `a` and `b` the same characters?
pub fn same_text(a: &str, b: &str) -> (r: bool)
    ensures
        r == (a@ == b@),
{
    let x = chars_of(a);
    let y = chars_of(b);
    if x.len() != y.len() {
        return false;
    }
    let mut k: usize = 0;
    while k < x.len()
        invariant
            x@ == a@,
            y@ == b@,
            x.len() == y.len(),
            k <= x.len(),
            forall|m: int| 0 <= m < k ==> x@[m] == y@[m],
        decreases x.len() - k,
    {
        if x[k] != y[k] {
            assert(a@[k as int] != b@[k as int]);
            return false;
        }
        k = k + 1;
    }
    assert(x@ =~= y@);
    true
}

/// The token that an `Authorization` header carries, if it is well formed.
pub fn bearer_token_of(header: Option<&str>) -> (r: Option<String>)
    ensures
        opt_view(r) == bearer_token(opt_str_view(header)),
{
    match header {
        None => None,
        Some(h) => {
            let c = chars_of(h);
            let scheme: Vec<char> = vec!['B', 'e', 'a', 'r', 'e', 'r', ' '];
            if c.len() <= 7 {
                return None;
            }
            let mut k: usize = 0;
            while k < 7
                invariant
                    header == Some(h),
                    c@ == h@,
                    c.len() > 7,
                    k <= 7,
                    scheme@ == bearer_scheme(),
                    forall|m: int| 0 <= m < k ==> c@[m] == scheme@[m],
                decreases 7 - k,
            {
                if c[k] != scheme[k] {
                    assert(h@.subrange(0, 7)[k as int] != bearer_scheme()[k as int]);
                    return None;
                }
                k = k + 1;
            }
            assert(c@.subrange(0, 7) =~= bearer_scheme());
            let t = h.substring_char(7, c.len());
            Some(t.to_owned())
        },
    }
}

/// The characters of an optional string slice.
pub open spec fn opt_str_view(o: Option<&str>) -> Option<Seq<char>> {
    match o {
        Some(s) => Some(s@),
        None => None,
    }
}

/// The guard's factory: wraps the next stage of a request pipeline.
pub struct AuthMiddleware;

/// The guard in front of `service`, the next stage.
pub struct AuthMiddlewareService<S> {
    pub service: S,
}

impl AuthMiddleware {
    /// Puts the guard in front of `service`.
    pub fn new_transform<S>(&self, service: S) -> (r: AuthMiddlewareService<S>)
        ensures
            r.service == service,
    {
        AuthMiddlewareService { service }
    }
}

impl<S> AuthMiddlewareService<S> {
    /// Decides on a request to `path` whose `Authorization` header is
    /// `authorization`, with `sessions` the store the service was set up
    /// with. Only a `Forward` or `Authenticated` decision lets the request
    /// reach the next stage.
    pub fn call(
        &self,
        path: &str,
        authorization: Option<&str>,
        sessions: Option<&SessionStore>,
    ) -> (r: AuthDecision)
        ensures
            r == auth_decision(
                path@,
                opt_str_view(authorization),
                match sessions {
                    Some(s) => Some(s@),
                    None => None,
                },
            ),
    {
        proof {
            reveal_strlit("/login");
        }
        if same_text(path, "/login") {
            return AuthDecision::Forward;
        }
        let store = match sessions {
            Some(s) => s,
            None => {
                return AuthDecision::StoreMissing;
            },
        };
        match bearer_token_of(authorization) {
            None => AuthDecision::Unauthorized,
            Some(token) => match store.get(token.as_str()) {
                Some(d) => AuthDecision::Authenticated(d),
                None => AuthDecision::Unauthorized,
            },
        }
    }
}

/// A request to any route but login whose header is missing or malformed
/// is turned away, and never reaches the next stage.
pub proof fn lemma_malformed_header_rejected(
    path: Seq<char>,
    header: Option<Seq<char>>,
    store: Option<Map<Seq<char>, SessionData>>,
)
    requires
        path != login_path(),
        bearer_token(header) is None,
    ensures
        store is Some ==> auth_decision(path, header, store) == AuthDecision::Unauthorized,
        !(auth_decision(path, header, store) is Forward),
        !(auth_decision(path, header, store) is Authenticated),
{
}

/// A well-formed header whose token no session has is turned away with the
/// very answer a malformed header gets.
pub proof fn lemma_unknown_token_like_malformed(
    path: Seq<char>,
    malformed: Option<Seq<char>>,
    unknown: Option<Seq<char>>,
    store: Map<Seq<char>, SessionData>,
)
    requires
        path != login_path(),
        bearer_token(malformed) is None,
        bearer_token(unknown) is Some,
        !store.contains_key(bearer_token(unknown)->0),
    ensures
        auth_decision(path, unknown, Some(store)) == auth_decision(path, malformed, Some(store)),
        auth_decision(path, unknown, Some(store)) == AuthDecision::Unauthorized,
{
}

} // verus!
