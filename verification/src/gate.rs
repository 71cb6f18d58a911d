//! The request gate: every inbound request is classified, and exactly
//! one of login handling, callback handling, or gated dispatch runs.
//! Gated dispatch reads the session, attaches the per-request context,
//! and turns away unauthenticated requests to protected routes.

use vstd::prelude::*;
use crate::bytes::clone_bytes;
use crate::callback::{begin_callback_spec, CallbackError, PendingExchange};
use crate::http::{Request, Response};
use crate::initiator::is_login_response;
use crate::middleware::{OpenIdConnectMiddleware, RequestClass};
use crate::session::{session_authenticated, session_user, RequestContextExtension, Session};

verus! {

/// What the middleware decides for a request outside the two intercepted
/// paths.
#[derive(Debug)]
pub enum GateOutcome {
    /// The route requires authentication and the session has none:
    /// send the browser to the login path instead of dispatching.
    RedirectToLogin(Response),
    /// Dispatch downstream, with the attached authentication context.
    Dispatch(RequestContextExtension),
}

/// What the middleware decides for one inbound request. A callback that
/// passes the pre-exchange gates hands back the pending exchange: the
/// embedding application performs the provider round trip and then
/// applies its outcome with `finish_callback`.
#[derive(Debug)]
pub enum Handling {
    /// A login request: answer with this redirect, run no handler.
    Login(Response),
    /// A callback rejected before the exchange: answer with this error.
    CallbackRejected(Response),
    /// A callback that passed every pre-exchange step: exchange the code.
    CallbackPending(PendingExchange),
    /// A gated request turned away or dispatched downstream.
    Gated(GateOutcome),
}

impl OpenIdConnectMiddleware {
    /// Reads the authentication state out of the session and decides
    /// between redirect and dispatch. The context attached on dispatch
    /// is exactly the session's state; an absent record reads as not
    /// authenticated with an empty user.
    pub fn handle_gated(&self, protected: bool, session: &Session) -> (r: GateOutcome)
        ensures
            match r {
                GateOutcome::RedirectToLogin(resp) => protected
                    && !session_authenticated(*session) && resp.status == 302
                    && resp.location is Some && resp.location->0@ == self.login_path@
                    && resp.cookies@ == Seq::<crate::http::SetCookie>::empty(),
                GateOutcome::Dispatch(ctx) => (session_authenticated(*session) || !protected)
                    && ctx.is_authenticated == session_authenticated(*session)
                    && ctx.user_id@ == session_user(*session),
            },
    {
        let authed = match &session.auth {
            Some(a) => a.is_authenticated,
            None => false,
        };
        if protected && !authed {
            let r = Response {
                status: 302,
                location: Some(clone_bytes(&self.login_path)),
                cookies: Vec::new(),
            };
            assert(r.cookies@ =~= Seq::<crate::http::SetCookie>::empty());
            GateOutcome::RedirectToLogin(r)
        } else {
            let user_id = match &session.auth {
                Some(a) => if a.is_authenticated {
                    clone_bytes(&a.user_id)
                } else {
                    Vec::new()
                },
                None => Vec::new(),
            };
            assert(!authed ==> user_id@ =~= session_user(*session));
            GateOutcome::Dispatch(RequestContextExtension { is_authenticated: authed, user_id })
        }
    }

    /// One step of the authentication state machine over an inbound
    /// request: classification is total and mutually exclusive, and the
    /// returned handling is the classified component's decision. The
    /// session is only read here; the only write happens in
    /// `finish_callback`, after a successful exchange.
    pub fn handle(&self, req: &Request, protected: bool, session: &Session) -> (r: Handling)
        ensures
            match r {
                Handling::Login(resp) => self.classify_spec(req.method, req.path@)
                    == RequestClass::Login && is_login_response(*self, req.secure, resp),
                Handling::CallbackRejected(resp) => self.classify_spec(req.method, req.path@)
                    == RequestClass::Callback
                    && begin_callback_spec(req.cookies@, req.query@) is Err
                    && resp.status == crate::callback::callback_error_status(
                        begin_callback_spec(req.cookies@, req.query@)->Err_0,
                    ) && resp.location is None
                    && resp.cookies@ == Seq::<crate::http::SetCookie>::empty(),
                Handling::CallbackPending(p) => self.classify_spec(req.method, req.path@)
                    == RequestClass::Callback
                    && begin_callback_spec(req.cookies@, req.query@)
                        == Ok::<_, CallbackError>((p.code@, p.nonce@)),
                Handling::Gated(g) => self.classify_spec(req.method, req.path@)
                    == RequestClass::Other && (match g {
                    GateOutcome::RedirectToLogin(resp) => protected
                        && !session_authenticated(*session) && resp.status == 302
                        && resp.location is Some && resp.location->0@ == self.login_path@,
                    GateOutcome::Dispatch(ctx) => (session_authenticated(*session) || !protected)
                        && ctx.is_authenticated == session_authenticated(*session)
                        && ctx.user_id@ == session_user(*session),
                }),
            },
    {
        match self.classify(req.method, &req.path) {
            RequestClass::Login => Handling::Login(self.generate_redirect(req)),
            RequestClass::Callback => match self.begin_callback(req) {
                Ok(p) => Handling::CallbackPending(p),
                Err(e) => Handling::CallbackRejected(self.callback_error_response(e)),
            },
            RequestClass::Other => Handling::Gated(self.handle_gated(protected, session)),
        }
    }
}

} // verus!
