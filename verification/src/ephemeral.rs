//! The ephemeral login state: a CSRF token and a nonce, generated per
//! login attempt and carried to the browser as two cookies scoped to
//! the login transaction. The state lives entirely in the round-tripped
//! cookies; no server-side pending-login table exists.

use vstd::prelude::*;
use vstd::string::{StrSliceExecFns, StringSliceAdditionalSpecFns};
use crate::bytes::clone_bytes;
use crate::http::{cookie_in, Request, Response, SetCookie};
use crate::provider::{fresh_csrf_token, fresh_nonce};

verus! {

/// Name of the cookie carrying the anti-forgery token.
pub open spec fn csrf_cookie_name() -> Seq<u8> {
    "openid_csrf".spec_bytes()
}

/// Name of the cookie carrying the replay-protection nonce.
pub open spec fn nonce_cookie_name() -> Seq<u8> {
    "openid_nonce".spec_bytes()
}

/// The cookie carrying the anti-forgery token, as a value.
pub fn csrf_cookie_name_bytes() -> (r: Vec<u8>)
    ensures
        r@ == csrf_cookie_name(),
{
    "openid_csrf".as_bytes_vec()
}

/// The cookie carrying the replay-protection nonce, as a value.
pub fn nonce_cookie_name_bytes() -> (r: Vec<u8>)
    ensures
        r@ == nonce_cookie_name(),
{
    "openid_nonce".as_bytes_vec()
}

/// The two per-login secrets: independent random values, one proving
/// the callback belongs to a login this server started, one bound into
/// the identity token against replay.
#[derive(Debug)]
pub struct EphemeralState {
    pub csrf_token: Vec<u8>,
    pub nonce: Vec<u8>,
}

impl EphemeralState {
    /// Generates a fresh pair of secrets, each its own random draw.
    pub fn generate() -> (r: EphemeralState)
        ensures
            r.csrf_token@.len() == 22,
            r.nonce@.len() == 22,
    {
        EphemeralState { csrf_token: fresh_csrf_token(), nonce: fresh_nonce() }
    }
}

/// `op` stores `value` under `name` with the flags every ephemeral
/// cookie carries: `HttpOnly`, `SameSite=Strict`, `Secure` iff the
/// request came over TLS.
pub open spec fn is_ephemeral_set(
    op: SetCookie,
    name: Seq<u8>,
    value: Seq<u8>,
    secure: bool,
) -> bool {
    op.name@ == name && op.value@ == value && op.http_only && op.same_site_strict
        && op.secure == secure && !op.expire_now
}

/// `op` clears the cookie `name`: empty value, immediate expiry.
pub open spec fn is_ephemeral_clear(op: SetCookie, name: Seq<u8>, secure: bool) -> bool {
    op.name@ == name && op.value@ == Seq::<u8>::empty() && op.http_only && op.same_site_strict
        && op.secure == secure && op.expire_now
}

/// `ops` are exactly the two directives a response carries when it
/// attaches the state `(csrf, nonce)` to the browser.
pub open spec fn attaches_ephemeral(
    ops: Seq<SetCookie>,
    csrf: Seq<u8>,
    nonce: Seq<u8>,
    secure: bool,
) -> bool {
    ops.len() == 2 && is_ephemeral_set(ops[0], csrf_cookie_name(), csrf, secure)
        && is_ephemeral_set(ops[1], nonce_cookie_name(), nonce, secure)
}

/// `ops` are exactly the two directives that clear the state.
pub open spec fn clears_ephemeral(ops: Seq<SetCookie>, secure: bool) -> bool {
    ops.len() == 2 && is_ephemeral_clear(ops[0], csrf_cookie_name(), secure)
        && is_ephemeral_clear(ops[1], nonce_cookie_name(), secure)
}

/// Attaches the state to `response` as the two ephemeral cookies.
pub fn attach_to_response(state: &EphemeralState, response: &mut Response, secure: bool)
    ensures
        final(response).status == old(response).status,
        final(response).location == old(response).location,
        final(response).cookies@ == old(response).cookies@
            + Seq::new(2, |i: int| final(response).cookies@[old(response).cookies@.len() + i]),
        attaches_ephemeral(
            final(response).cookies@.skip(old(response).cookies@.len() as int),
            state.csrf_token@,
            state.nonce@,
            secure,
        ),
{
    response.cookies.push(SetCookie {
        name: csrf_cookie_name_bytes(),
        value: clone_bytes(&state.csrf_token),
        http_only: true,
        same_site_strict: true,
        secure,
        expire_now: false,
    });
    response.cookies.push(SetCookie {
        name: nonce_cookie_name_bytes(),
        value: clone_bytes(&state.nonce),
        http_only: true,
        same_site_strict: true,
        secure,
        expire_now: false,
    });
    proof {
        let pre = old(response).cookies@;
        let post = response.cookies@;
        assert(post.skip(pre.len() as int) =~= Seq::new(
            2,
            |i: int| post[pre.len() + i],
        ));
        assert(post =~= pre + post.skip(pre.len() as int));
    }
}

/// Overwrites both ephemeral cookies with empty values and immediate
/// expiry: the single-use state is consumed.
pub fn clear(response: &mut Response, secure: bool)
    ensures
        final(response).status == old(response).status,
        final(response).location == old(response).location,
        final(response).cookies@ == old(response).cookies@
            + Seq::new(2, |i: int| final(response).cookies@[old(response).cookies@.len() + i]),
        clears_ephemeral(
            final(response).cookies@.skip(old(response).cookies@.len() as int),
            secure,
        ),
{
    response.cookies.push(SetCookie {
        name: csrf_cookie_name_bytes(),
        value: Vec::new(),
        http_only: true,
        same_site_strict: true,
        secure,
        expire_now: true,
    });
    response.cookies.push(SetCookie {
        name: nonce_cookie_name_bytes(),
        value: Vec::new(),
        http_only: true,
        same_site_strict: true,
        secure,
        expire_now: true,
    });
    proof {
        let pre = old(response).cookies@;
        let post = response.cookies@;
        assert(post.skip(pre.len() as int) =~= Seq::new(
            2,
            |i: int| post[pre.len() + i],
        ));
        assert(post =~= pre + post.skip(pre.len() as int));
    }
}

/// Reads both ephemeral cookies off the request. Either one missing is
/// `None`: on a callback that is a hard failure, never a soft
/// "treat as unauthenticated" path.
pub fn extract_from_request(req: &Request) -> (r: Option<EphemeralState>)
    ensures
        match r {
            Some(st) => cookie_in(req.cookies@, csrf_cookie_name()) == Some(st.csrf_token@)
                && cookie_in(req.cookies@, nonce_cookie_name()) == Some(st.nonce@),
            None => cookie_in(req.cookies@, csrf_cookie_name()) is None
                || cookie_in(req.cookies@, nonce_cookie_name()) is None,
        },
{
    let csrf = req.cookie(&csrf_cookie_name_bytes());
    let nonce = req.cookie(&nonce_cookie_name_bytes());
    match (csrf, nonce) {
        (Some(c), Some(n)) => Some(EphemeralState { csrf_token: c, nonce: n }),
        _ => None,
    }
}

} // verus!
