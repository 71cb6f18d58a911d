//! End-to-end tests of the authentication state machine: login
//! initiation, callback gates, session establishment, the request gate,
//! and replay protection.

use oidc_gate::callback::CallbackError;
use oidc_gate::gate::{GateOutcome, Handling};
use oidc_gate::http::{Cookie, Method, Request, Response};
use oidc_gate::middleware::{OpenIdConnectMiddleware, RequestClass};
use oidc_gate::provider::{ExchangeError, IdentityClaims};
use oidc_gate::session::{OpenIdConnectRequestExt, Session};

fn gate_for_localhost() -> OpenIdConnectMiddleware {
    OpenIdConnectMiddleware::new(
        b"https://localhost/authorization".to_vec(),
        b"CLIENT-ID".to_vec(),
        b"https://localhost/callback".to_vec(),
    )
}

fn plain_request(method: Method, path: &[u8]) -> Request {
    Request {
        method,
        path: path.to_vec(),
        query: Vec::new(),
        cookies: Vec::new(),
        secure: true,
    }
}

fn percent_decode(v: &[u8]) -> Vec<u8> {
    let hex = |b: u8| -> u8 {
        match b {
            b'0'..=b'9' => b - b'0',
            b'A'..=b'F' => b - b'A' + 10,
            b'a'..=b'f' => b - b'a' + 10,
            _ => panic!("bad hex digit"),
        }
    };
    let mut out = Vec::new();
    let mut i = 0;
    while i < v.len() {
        if v[i] == b'%' {
            out.push(hex(v[i + 1]) * 16 + hex(v[i + 2]));
            i += 3;
        } else {
            out.push(v[i]);
            i += 1;
        }
    }
    out
}

fn query_pairs(url: &[u8]) -> Vec<(Vec<u8>, Vec<u8>)> {
    let q = url.splitn(2, |&b| b == b'?').nth(1).expect("URL has no query");
    q.split(|&b| b == b'&')
        .map(|pair| {
            let mut it = pair.splitn(2, |&b| b == b'=');
            let k = it.next().unwrap_or(&[]).to_vec();
            let v = percent_decode(it.next().unwrap_or(&[]));
            (k, v)
        })
        .collect()
}

fn lookup(pairs: &[(Vec<u8>, Vec<u8>)], key: &[u8]) -> Option<Vec<u8>> {
    pairs.iter().find(|(k, _)| k == key).map(|(_, v)| v.clone())
}

fn login_response(gate: &OpenIdConnectMiddleware) -> Response {
    let req = plain_request(Method::Get, b"/login");
    match gate.handle(&req, false, &Session { auth: None }) {
        Handling::Login(resp) => resp,
        _ => panic!("a GET of the login path must be intercepted"),
    }
}

fn callback_request(gate: &OpenIdConnectMiddleware, login: &Response, code: &[u8]) -> Request {
    let csrf = login.cookies[0].value.clone();
    let mut query = b"code=".to_vec();
    query.extend_from_slice(code);
    query.extend_from_slice(b"&state=");
    query.extend_from_slice(&csrf);
    Request {
        method: Method::Get,
        path: gate.callback_path.clone(),
        query,
        cookies: login
            .cookies
            .iter()
            .map(|c| Cookie { name: c.name.clone(), value: c.value.clone() })
            .collect(),
        secure: true,
    }
}

fn claims_for(subject: &[u8]) -> IdentityClaims {
    IdentityClaims {
        subject: subject.to_vec(),
        name: None,
        email: None,
        audience: b"CLIENT-ID".to_vec(),
        expiry: 4_000_000_000,
    }
}

#[test]
fn middleware_can_be_initialized() {
    let gate = gate_for_localhost();
    assert_eq!(gate.login_path, b"/login".to_vec());
    assert_eq!(gate.landing_path, b"/".to_vec());
    assert_eq!(gate.callback_path, b"/callback".to_vec());
    assert_eq!(gate.client_id, b"CLIENT-ID".to_vec());
}

#[test]
fn unauthed_request_redirects_to_login_uri() {
    let gate = gate_for_localhost();
    let req = plain_request(Method::Get, b"/");
    match gate.handle(&req, true, &Session { auth: None }) {
        Handling::Gated(GateOutcome::RedirectToLogin(resp)) => {
            assert_eq!(resp.status, 302);
            assert_eq!(resp.location.unwrap(), b"/login".to_vec());
        }
        _ => panic!("an unauthenticated request to a protected route must redirect"),
    }
}

#[test]
fn middleware_implements_login_handler() {
    let gate = gate_for_localhost();
    let resp = login_response(&gate);
    assert_eq!(resp.status, 302);

    let url = resp.location.clone().unwrap();
    assert!(url.starts_with(b"https://localhost/authorization?"));
    let pairs = query_pairs(&url);
    assert_eq!(lookup(&pairs, b"response_type").unwrap(), b"code".to_vec());
    assert_eq!(lookup(&pairs, b"client_id").unwrap(), b"CLIENT-ID".to_vec());
    assert_eq!(lookup(&pairs, b"scope").unwrap(), b"openid".to_vec());
    assert!(lookup(&pairs, b"state").is_some());
    assert!(lookup(&pairs, b"nonce").is_some());
    assert_eq!(
        lookup(&pairs, b"redirect_uri").unwrap(),
        b"https://localhost/callback".to_vec()
    );
}

#[test]
fn login_path_can_be_changed() {
    let gate = gate_for_localhost().with_login_path(b"/signin".to_vec());
    assert_eq!(gate.login_path, b"/signin".to_vec());
    let req = plain_request(Method::Get, b"/signin");
    assert!(matches!(
        gate.handle(&req, false, &Session { auth: None }),
        Handling::Login(_)
    ));
    // The default login path is no longer intercepted.
    let old = plain_request(Method::Get, b"/login");
    assert!(matches!(
        gate.handle(&old, false, &Session { auth: None }),
        Handling::Gated(_)
    ));
}

#[test]
fn landing_path_can_be_changed() {
    let gate = gate_for_localhost().with_landing_path(b"/home".to_vec());
    let login = login_response(&gate);
    let req = callback_request(&gate, &login, b"CODE");
    let pending = match gate.handle(&req, false, &Session { auth: None }) {
        Handling::CallbackPending(p) => p,
        _ => panic!("a valid callback must reach the exchange"),
    };
    assert_eq!(pending.code, b"CODE".to_vec());
    let mut session = Session { auth: None };
    let resp = gate.finish_callback(true, Ok(claims_for(b"user-1")), &mut session);
    assert_eq!(resp.status, 302);
    assert_eq!(resp.location.unwrap(), b"/home".to_vec());
}

#[test]
fn login_sets_two_guarded_cookies() {
    let gate = gate_for_localhost();
    let resp = login_response(&gate);
    assert_eq!(resp.cookies.len(), 2);
    assert_eq!(resp.cookies[0].name, b"openid_csrf".to_vec());
    assert_eq!(resp.cookies[1].name, b"openid_nonce".to_vec());
    for c in &resp.cookies {
        assert!(c.http_only);
        assert!(c.same_site_strict);
        assert!(c.secure);
        assert!(!c.expire_now);
        assert_eq!(c.value.len(), 22);
    }
    // An insecure request gets cookies without the Secure flag.
    let mut req = plain_request(Method::Get, b"/login");
    req.secure = false;
    match gate.handle(&req, false, &Session { auth: None }) {
        Handling::Login(r) => {
            assert!(r.cookies.iter().all(|c| !c.secure));
        }
        _ => panic!("a GET of the login path must be intercepted"),
    }
}

#[test]
fn login_state_and_nonce_are_fresh_each_time() {
    let gate = gate_for_localhost();
    let first = login_response(&gate);
    let second = login_response(&gate);
    assert_ne!(first.cookies[0].value, second.cookies[0].value);
    assert_ne!(first.cookies[1].value, second.cookies[1].value);
    assert_ne!(first.cookies[0].value, first.cookies[1].value);
    // The URL carries exactly the values the cookies carry.
    let pairs = query_pairs(&first.location.unwrap());
    assert_eq!(lookup(&pairs, b"state").unwrap(), first.cookies[0].value);
    assert_eq!(lookup(&pairs, b"nonce").unwrap(), first.cookies[1].value);
}

#[test]
fn classification_is_total_and_exclusive() {
    let gate = gate_for_localhost();
    let login = b"/login".to_vec();
    let callback = b"/callback".to_vec();
    let other = b"/data".to_vec();
    assert_eq!(gate.classify(Method::Get, &login), RequestClass::Login);
    assert_eq!(gate.classify(Method::Get, &callback), RequestClass::Callback);
    assert_eq!(gate.classify(Method::Get, &other), RequestClass::Other);
    // Only GET is intercepted.
    assert_eq!(gate.classify(Method::Post, &login), RequestClass::Other);
    assert_eq!(gate.classify(Method::Post, &callback), RequestClass::Other);
}

#[test]
fn callback_without_cookies_is_missing_state() {
    let gate = gate_for_localhost();
    let mut req = plain_request(Method::Get, b"/callback");
    req.query = b"code=CODE&state=anything".to_vec();
    match gate.handle(&req, false, &Session { auth: None }) {
        Handling::CallbackRejected(resp) => assert_eq!(resp.status, 400),
        _ => panic!("a callback without ephemeral cookies must be rejected"),
    }
    assert_eq!(gate.begin_callback(&req).unwrap_err(), CallbackError::MissingState);
    // One cookie alone is just as missing.
    req.cookies.push(Cookie { name: b"openid_csrf".to_vec(), value: b"x".to_vec() });
    assert_eq!(gate.begin_callback(&req).unwrap_err(), CallbackError::MissingState);
}

#[test]
fn callback_with_bad_query_is_malformed() {
    let gate = gate_for_localhost();
    let login = login_response(&gate);
    // No code.
    let mut req = callback_request(&gate, &login, b"CODE");
    req.query = b"state=whatever".to_vec();
    assert_eq!(gate.begin_callback(&req).unwrap_err(), CallbackError::MalformedCallback);
    // Empty code.
    let empty = callback_request(&gate, &login, b"");
    assert_eq!(gate.begin_callback(&empty).unwrap_err(), CallbackError::MalformedCallback);
    // No state.
    let mut nostate = callback_request(&gate, &login, b"CODE");
    nostate.query = b"code=CODE".to_vec();
    assert_eq!(gate.begin_callback(&nostate).unwrap_err(), CallbackError::MalformedCallback);
}

#[test]
fn callback_with_wrong_state_is_csrf_mismatch() {
    let gate = gate_for_localhost();
    let login = login_response(&gate);
    let mut req = callback_request(&gate, &login, b"CODE");
    let mut query = b"code=CODE&state=".to_vec();
    query.extend_from_slice(b"forged-or-stale-token-00");
    req.query = query;
    assert_eq!(gate.begin_callback(&req).unwrap_err(), CallbackError::CsrfMismatch);
    match gate.handle(&req, false, &Session { auth: None }) {
        Handling::CallbackRejected(resp) => {
            assert_eq!(resp.status, 400);
            // A rejection mutates nothing: no cookie directives at all.
            assert!(resp.cookies.is_empty());
        }
        _ => panic!("a CSRF mismatch must be rejected"),
    }
}

#[test]
fn rejected_exchange_leaves_session_untouched() {
    let gate = gate_for_localhost();
    let mut session = Session { auth: None };
    let resp = gate.finish_callback(true, Err(ExchangeError::InvalidCode), &mut session);
    assert_eq!(resp.status, 401);
    assert!(resp.location.is_none());
    assert!(resp.cookies.is_empty());
    assert!(session.auth.is_none());
    // A transport failure is the provider's unavailability, not ours.
    let resp = gate.finish_callback(true, Err(ExchangeError::TransportFailure), &mut session);
    assert_eq!(resp.status, 502);
    assert!(session.auth.is_none());
    // A prior login survives a later failed exchange unchanged.
    let mut authed = Session { auth: None };
    gate.finish_callback(true, Ok(claims_for(b"user-1")), &mut authed);
    gate.finish_callback(true, Err(ExchangeError::NonceMismatch), &mut authed);
    let record = authed.auth.expect("the earlier login must survive");
    assert!(record.is_authenticated);
    assert_eq!(record.user_id, b"user-1".to_vec());
}

#[test]
fn successful_callback_authenticates_and_clears_cookies() {
    let gate = gate_for_localhost();
    let login = login_response(&gate);
    let req = callback_request(&gate, &login, b"CODE");
    let pending = match gate.handle(&req, false, &Session { auth: None }) {
        Handling::CallbackPending(p) => p,
        _ => panic!("a valid callback must reach the exchange"),
    };
    // The nonce handed to the exchange is the cookie's nonce.
    assert_eq!(pending.nonce, login.cookies[1].value);
    let mut session = Session { auth: None };
    let resp = gate.finish_callback(true, Ok(claims_for(b"user-7")), &mut session);
    assert_eq!(resp.status, 302);
    assert_eq!(resp.location.unwrap(), b"/".to_vec());
    assert_eq!(resp.cookies.len(), 2);
    for c in &resp.cookies {
        assert!(c.expire_now);
        assert!(c.value.is_empty());
        assert!(c.http_only);
        assert!(c.same_site_strict);
    }
    let record = session.auth.expect("the session must now be authenticated");
    assert!(record.is_authenticated);
    assert_eq!(record.user_id, b"user-7".to_vec());
}

#[test]
fn replayed_callback_fails_with_missing_state() {
    let gate = gate_for_localhost();
    let login = login_response(&gate);
    let first = callback_request(&gate, &login, b"CODE");
    assert!(gate.begin_callback(&first).is_ok());
    let mut session = Session { auth: None };
    let resp = gate.finish_callback(true, Ok(claims_for(b"user-7")), &mut session);
    // The browser honours the clearing directives...
    let mut jar: Vec<Cookie> = first
        .cookies
        .iter()
        .map(|c| Cookie { name: c.name.clone(), value: c.value.clone() })
        .collect();
    for op in &resp.cookies {
        jar.retain(|c| c.name != op.name);
        if !op.expire_now {
            jar.push(Cookie { name: op.name.clone(), value: op.value.clone() });
        }
    }
    // ...so the very same callback, code and all, dies at the first gate,
    // even though the provider would have accepted the code again.
    let replay = Request {
        method: Method::Get,
        path: first.path.clone(),
        query: first.query.clone(),
        cookies: jar,
        secure: true,
    };
    assert_eq!(gate.begin_callback(&replay).unwrap_err(), CallbackError::MissingState);
}

#[test]
fn protected_route_opens_after_login() {
    let gate = gate_for_localhost();
    let req = plain_request(Method::Get, b"/reports");
    // Before login: turned away.
    assert!(matches!(
        gate.handle(&req, true, &Session { auth: None }),
        Handling::Gated(GateOutcome::RedirectToLogin(_))
    ));
    // An unprotected route dispatches with the unauthenticated context.
    match gate.handle(&req, false, &Session { auth: None }) {
        Handling::Gated(GateOutcome::Dispatch(ctx)) => {
            assert!(!ctx.is_authenticated());
            assert!(ctx.user_id().is_empty());
        }
        _ => panic!("an unprotected route must dispatch"),
    }
    // After a successful callback: dispatched, with the subject attached.
    let mut session = Session { auth: None };
    gate.finish_callback(true, Ok(claims_for(b"user-42")), &mut session);
    match gate.handle(&req, true, &session) {
        Handling::Gated(GateOutcome::Dispatch(ctx)) => {
            assert!(ctx.is_authenticated());
            assert_eq!(ctx.user_id(), b"user-42".to_vec());
        }
        _ => panic!("a logged-in request to a protected route must dispatch"),
    }
}
