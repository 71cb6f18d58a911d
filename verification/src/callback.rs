//! Processing the provider's callback. Every step is a hard gate:
//! missing ephemeral cookies, a malformed query, or an anti-forgery
//! mismatch abort the request before any code exchange; a failed
//! exchange aborts it before any session write. Only the full success
//! path establishes the authenticated session, consumes the single-use
//! cookies, and redirects to the landing page.

use vstd::prelude::*;
use vstd::string::{StrSliceExecFns, StringSliceAdditionalSpecFns};
use crate::bytes::{clone_bytes, constant_time_eq};
use crate::ephemeral::{
    clear, clears_ephemeral, csrf_cookie_name, extract_from_request, nonce_cookie_name,
};
use crate::http::{cookie_in, Cookie, Request, Response};
use crate::middleware::OpenIdConnectMiddleware;
use crate::provider::{ExchangeError, IdentityClaims};
use crate::query::{query_get, query_get_spec};
use crate::session::{AuthenticationResult, Session};

verus! {

/// Why a callback was rejected before any code exchange.
#[derive(Clone, Copy, Debug, PartialEq, Eq, Structural)]
pub enum CallbackError {
    /// At least one ephemeral cookie is absent: the callback does not
    /// belong to a pending login of this browser session.
    MissingState,
    /// The query string carries no `state`, no `code`, or an empty code.
    MalformedCallback,
    /// The `state` of the query differs from the anti-forgery cookie:
    /// a forged, stale or replayed callback.
    CsrfMismatch,
}

/// A validated callback, ready for the code-for-token exchange: the
/// authorization code from the query and the expected nonce from the
/// cookie.
#[derive(Debug)]
pub struct PendingExchange {
    pub code: Vec<u8>,
    pub nonce: Vec<u8>,
}

/// The decision the pre-exchange gates reach over a callback request's
/// cookies and query string: either `(code, nonce)` for the exchange,
/// or the first failing gate.
pub open spec fn begin_callback_spec(
    cookies: Seq<Cookie>,
    query: Seq<u8>,
) -> Result<(Seq<u8>, Seq<u8>), CallbackError> {
    let csrf = cookie_in(cookies, csrf_cookie_name());
    let nonce = cookie_in(cookies, nonce_cookie_name());
    if csrf is None || nonce is None {
        Err(CallbackError::MissingState)
    } else {
        let code = query_get_spec(query, "code".spec_bytes());
        let st = query_get_spec(query, "state".spec_bytes());
        if code is None || code->0.len() == 0 || st is None {
            Err(CallbackError::MalformedCallback)
        } else if st->0 != csrf->0 {
            Err(CallbackError::CsrfMismatch)
        } else {
            Ok((code->0, nonce->0))
        }
    }
}

/// The session after the exchange outcome is applied: success writes
/// the authenticated record, any failure leaves the session exactly as
/// it was.
pub open spec fn session_after_exchange(
    outcome: Result<IdentityClaims, ExchangeError>,
    s: Session,
) -> Session {
    match outcome {
        Ok(claims) => Session {
            auth: Some(
                AuthenticationResult { is_authenticated: true, user_id: claims.subject },
            ),
        },
        Err(_) => s,
    }
}

/// The status of the error response for a rejected callback.
pub open spec fn callback_error_status(e: CallbackError) -> u16 {
    400
}

/// The status of the error response for a failed exchange: a bad
/// gateway for a transport failure, otherwise unauthorized.
pub open spec fn exchange_error_status(e: ExchangeError) -> u16 {
    if e == ExchangeError::TransportFailure {
        502
    } else {
        401
    }
}

impl OpenIdConnectMiddleware {
    /// Runs the pre-exchange gates over a callback request: both
    /// ephemeral cookies must be present, the query must carry a
    /// `state` and a non-empty `code`, and the `state` must equal the
    /// anti-forgery cookie, compared in constant time. No session is
    /// read or written here.
    pub fn begin_callback(&self, req: &Request) -> (r: Result<PendingExchange, CallbackError>)
        ensures
            match r {
                Ok(p) => begin_callback_spec(req.cookies@, req.query@) == Ok::<_, CallbackError>(
                    (p.code@, p.nonce@),
                ),
                Err(e) => begin_callback_spec(req.cookies@, req.query@)
                    == Err::<(Seq<u8>, Seq<u8>), _>(e),
            },
    {
        let st = match extract_from_request(req) {
            Some(st) => st,
            None => {
                return Err(CallbackError::MissingState);
            },
        };
        let code = match query_get(&req.query, &"code".as_bytes_vec()) {
            Some(c) => c,
            None => {
                return Err(CallbackError::MalformedCallback);
            },
        };
        let query_state = match query_get(&req.query, &"state".as_bytes_vec()) {
            Some(s) => s,
            None => {
                return Err(CallbackError::MalformedCallback);
            },
        };
        if code.len() == 0 {
            return Err(CallbackError::MalformedCallback);
        }
        if !constant_time_eq(&query_state, &st.csrf_token) {
            return Err(CallbackError::CsrfMismatch);
        }
        Ok(PendingExchange { code, nonce: st.nonce })
    }

    /// The error response for a callback rejected before the exchange.
    /// It takes no session and clears no cookie: a rejected callback
    /// changes nothing.
    pub fn callback_error_response(&self, e: CallbackError) -> (r: Response)
        ensures
            r.status == callback_error_status(e),
            r.location is None,
            r.cookies@ == Seq::<crate::http::SetCookie>::empty(),
    {
        let r = Response { status: 400, location: None, cookies: Vec::new() };
        assert(r.cookies@ =~= Seq::<crate::http::SetCookie>::empty());
        r
    }

    /// Applies the outcome of the code exchange. On success the session
    /// now holds the authenticated subject, both single-use cookies are
    /// cleared, and the browser is sent to the landing path. On failure
    /// the session is left untouched and an error response is returned;
    /// the cookies stay, since no login completed.
    pub fn finish_callback(
        &self,
        secure: bool,
        outcome: Result<IdentityClaims, ExchangeError>,
        session: &mut Session,
    ) -> (r: Response)
        ensures
            *final(session) == session_after_exchange(outcome, *old(session)),
            match outcome {
                Ok(_) => r.status == 302 && r.location is Some
                    && r.location->0@ == self.landing_path@
                    && clears_ephemeral(r.cookies@, secure),
                Err(e) => r.status == exchange_error_status(e) && r.location is None
                    && r.cookies@ == Seq::<crate::http::SetCookie>::empty(),
            },
    {
        match outcome {
            Ok(claims) => {
                *session = Session {
                    auth: Some(
                        AuthenticationResult {
                            is_authenticated: true,
                            user_id: claims.subject,
                        },
                    ),
                };
                let mut response = Response {
                    status: 302,
                    location: Some(clone_bytes(&self.landing_path)),
                    cookies: Vec::new(),
                };
                clear(&mut response, secure);
                proof {
                    assert(response.cookies@.skip(0) =~= response.cookies@);
                }
                response
            },
            Err(e) => {
                let status: u16 = match e {
                    ExchangeError::TransportFailure => 502,
                    _ => 401,
                };
                let r = Response { status, location: None, cookies: Vec::new() };
                assert(r.cookies@ =~= Seq::<crate::http::SetCookie>::empty());
                r
            },
        }
    }
}

} // verus!
