//! The security laws of the middleware, each proved once and for all inputs:
//! what a login response discloses, when a callback is rejected, what a
//! failed exchange may touch, what a successful one establishes, whom
//! the middleware lets through, and why a replayed callback dies.

use vstd::prelude::*;
use vstd::string::StringSliceAdditionalSpecFns;
use crate::callback::{begin_callback_spec, session_after_exchange, CallbackError};
use crate::ephemeral::{clears_ephemeral, csrf_cookie_name, nonce_cookie_name};
use crate::http::{
    cookie_in, jar_after, Cookie, Response, SetCookie, lemma_remove_cookie_gone, remove_cookie,
};
use crate::initiator::{auth_url_spec, is_login_response};
use crate::middleware::OpenIdConnectMiddleware;
use crate::provider::{ExchangeError, IdentityClaims};
use crate::query::query_get_spec;
use crate::session::{session_authenticated, session_user, Session};

verus! {

/// Every response to a login request is a redirect to the authorization
/// URL built from exactly the two fresh secrets its own cookies carry,
/// and those secrets are never empty.
pub proof fn law_login_redirects_to_provider(
    m: OpenIdConnectMiddleware,
    secure: bool,
    r: Response,
)
    requires
        is_login_response(m, secure, r),
    ensures
        r.status == 302,
        r.location is Some,
        r.location->0@ == auth_url_spec(m, r.cookies@[0].value@, r.cookies@[1].value@),
        r.cookies@[0].value@.len() > 0,
        r.cookies@[1].value@.len() > 0,
{
}

/// Every response to a login request sets exactly two cookies — the
/// anti-forgery token and the nonce — both `HttpOnly`, both
/// `SameSite=Strict`, and `Secure` exactly on TLS requests.
pub proof fn law_login_sets_two_guarded_cookies(
    m: OpenIdConnectMiddleware,
    secure: bool,
    r: Response,
)
    requires
        is_login_response(m, secure, r),
    ensures
        r.cookies@.len() == 2,
        r.cookies@[0].name@ == csrf_cookie_name(),
        r.cookies@[1].name@ == nonce_cookie_name(),
        forall|i: int| 0 <= i < r.cookies@.len()
            ==> (#[trigger] r.cookies@[i]).http_only && r.cookies@[i].same_site_strict
                && r.cookies@[i].secure == secure,
{
}

/// A callback whose `state` differs from the anti-forgery cookie is
/// rejected outright, whatever its code; no exchange can follow, so
/// the session cannot change.
pub proof fn law_csrf_mismatch_rejects(cookies: Seq<Cookie>, query: Seq<u8>)
    requires
        cookie_in(cookies, csrf_cookie_name()) is Some,
        cookie_in(cookies, nonce_cookie_name()) is Some,
        query_get_spec(query, "code".spec_bytes()) is Some,
        query_get_spec(query, "code".spec_bytes())->0.len() > 0,
        query_get_spec(query, "state".spec_bytes()) is Some,
        query_get_spec(query, "state".spec_bytes())->0
            != cookie_in(cookies, csrf_cookie_name())->0,
    ensures
        begin_callback_spec(cookies, query) == Err::<(Seq<u8>, Seq<u8>), CallbackError>(
            CallbackError::CsrfMismatch,
        ),
{
}

/// A failed exchange leaves the session exactly as it was: there is no
/// partially authenticated state.
pub proof fn law_failed_exchange_preserves_session(
    outcome: Result<IdentityClaims, ExchangeError>,
    s: Session,
)
    requires
        outcome is Err,
    ensures
        session_after_exchange(outcome, s) == s,
{
}

/// A successful exchange — and nothing else — authenticates the
/// session, with the provider's reported subject as the user.
pub proof fn law_success_establishes_session(
    outcome: Result<IdentityClaims, ExchangeError>,
    s: Session,
)
    requires
        outcome is Ok,
    ensures
        session_authenticated(session_after_exchange(outcome, s)),
        session_user(session_after_exchange(outcome, s)) == outcome->Ok_0.subject@,
{
}

/// A session with no record — a browser that never logged in — is not
/// authenticated and has no user; after a successful callback the same
/// session is authenticated. With `handle_gated`'s contract this is the
/// protected-route law: redirect before login, dispatch with
/// `is_authenticated` after.
pub proof fn law_protection_turns_on_login(claims: IdentityClaims, s: Session)
    ensures
        !session_authenticated(Session { auth: None }),
        session_user(Session { auth: None }) == Seq::<u8>::empty(),
        session_authenticated(
            session_after_exchange(Ok::<_, ExchangeError>(claims), s),
        ),
{
}

/// No percent-encoded value can break the query-string structure of the
/// authorization URL: the encoding of any byte string — a client id, a
/// redirect URL, a secret — is free of `&`, `=`, `?` and `#`, so each
/// value stays confined to its own field.
pub proof fn law_encoded_values_cannot_inject(s: Seq<u8>)
    ensures
        forall|i: int| 0 <= i < crate::urlenc::enc(s).len()
            ==> #[trigger] crate::urlenc::enc(s)[i] != 38 && crate::urlenc::enc(s)[i] != 61
                && crate::urlenc::enc(s)[i] != 63 && crate::urlenc::enc(s)[i] != 35,
    decreases s.len(),
{
    if s.len() != 0 {
        law_encoded_values_cannot_inject(s.skip(1));
        assert(crate::urlenc::enc(s)
            == crate::urlenc::enc_byte(s[0]) + crate::urlenc::enc(s.skip(1)));
    }
}

/// Exactly one of login handling, callback handling and gated dispatch
/// runs per request: the classification is total and mutually exclusive
/// over `(method, path)`, with login winning where the two configured
/// paths coincide.
pub proof fn law_classification_exclusive(
    m: OpenIdConnectMiddleware,
    method: crate::http::Method,
    path: Seq<u8>,
)
    ensures
        m.classify_spec(method, path) is Login <==> (method == crate::http::Method::Get
            && path == m.login_path@),
        m.classify_spec(method, path) is Callback <==> (method == crate::http::Method::Get
            && path == m.callback_path@ && path != m.login_path@),
        m.classify_spec(method, path) is Other <==> !(method == crate::http::Method::Get
            && (path == m.login_path@ || path == m.callback_path@)),
{
}

/// A lookup that misses stays a miss when further cookies are removed.
proof fn lemma_remove_cookie_keeps_none(jar: Seq<Cookie>, removed: Seq<u8>, name: Seq<u8>)
    requires
        cookie_in(jar, name) is None,
    ensures
        cookie_in(remove_cookie(jar, removed), name) is None,
    decreases jar.len(),
{
    if jar.len() != 0 {
        assert(jar.skip(1).skip(0) =~= jar.skip(1));
        lemma_remove_cookie_keeps_none(jar.skip(1), removed, name);
        if jar[0].name@ != removed {
            assert((seq![jar[0]] + remove_cookie(jar.skip(1), removed)).skip(1)
                =~= remove_cookie(jar.skip(1), removed));
        }
    }
}

/// Replay protection: once a response has cleared the two single-use
/// cookies, a browser that honours it cannot make any callback pass the
/// first gate again — the very same request, code and all, now fails
/// with `MissingState`, whatever the provider would have said.
pub proof fn law_replayed_callback_fails(
    jar: Seq<Cookie>,
    ops: Seq<SetCookie>,
    query: Seq<u8>,
    secure: bool,
)
    requires
        clears_ephemeral(ops, secure),
    ensures
        begin_callback_spec(jar_after(jar, ops), query) == Err::<(Seq<u8>, Seq<u8>), _>(
            CallbackError::MissingState,
        ),
{
    let jar1 = remove_cookie(jar, csrf_cookie_name());
    let jar2 = remove_cookie(jar1, nonce_cookie_name());
    assert(ops.skip(1)[0] == ops[1]);
    assert(ops.skip(1).skip(1).len() == 0);
    reveal_with_fuel(jar_after, 4);
    assert(crate::http::jar_after_one(jar, ops[0]) == jar1);
    assert(crate::http::jar_after_one(jar1, ops.skip(1)[0]) == jar2);
    assert(jar_after(jar, ops) == jar_after(jar1, ops.skip(1)));
    assert(jar_after(jar1, ops.skip(1)) == jar_after(jar2, ops.skip(1).skip(1)));
    assert(jar_after(jar, ops) == jar2);
    lemma_remove_cookie_gone(jar, csrf_cookie_name());
    lemma_remove_cookie_keeps_none(jar1, nonce_cookie_name(), csrf_cookie_name());
}

} // verus!
