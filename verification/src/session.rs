//! The session-resident authentication record and the per-request
//! context snapshot that downstream handlers read.

use vstd::prelude::*;
use crate::bytes::clone_bytes;

verus! {

/// What a successful login stores in the browser session, under one
/// fixed key of the external session store.
#[derive(Clone, Debug)]
pub struct AuthenticationResult {
    pub is_authenticated: bool,
    pub user_id: Vec<u8>,
}

/// The middleware's view of one browser session: the authentication record,
/// or `None` where the session is absent or holds no such record.
#[derive(Debug)]
pub struct Session {
    pub auth: Option<AuthenticationResult>,
}

/// Whether `s` counts as authenticated: an absent session or an absent
/// record counts as not logged in.
pub open spec fn session_authenticated(s: Session) -> bool {
    match s.auth {
        Some(a) => a.is_authenticated,
        None => false,
    }
}

/// The user identity of `s`, empty when not authenticated.
pub open spec fn session_user(s: Session) -> Seq<u8> {
    match s.auth {
        Some(a) => if a.is_authenticated {
            a.user_id@
        } else {
            Seq::empty()
        },
        None => Seq::empty(),
    }
}

/// The read-only snapshot the middleware attaches to every request it lets
/// through to downstream handlers. It exists only for such requests:
/// intercepted login and callback requests never carry one.
#[derive(Debug)]
pub struct RequestContextExtension {
    pub is_authenticated: bool,
    pub user_id: Vec<u8>,
}

/// Read-only accessors over the attached authentication context.
pub trait OpenIdConnectRequestExt {
    /// The authentication status the implementor holds.
    spec fn spec_is_authenticated(&self) -> bool;

    /// The user identity the implementor holds.
    spec fn spec_user_id(&self) -> Seq<u8>;

    /// Whether the request was made by a logged-in user.
    fn is_authenticated(&self) -> (r: bool)
        ensures
            r == self.spec_is_authenticated(),
    ;

    /// The provider-assigned subject identity, empty when not logged in.
    fn user_id(&self) -> (r: Vec<u8>)
        ensures
            r@ == self.spec_user_id(),
    ;
}

impl OpenIdConnectRequestExt for RequestContextExtension {
    open spec fn spec_is_authenticated(&self) -> bool {
        self.is_authenticated
    }

    open spec fn spec_user_id(&self) -> Seq<u8> {
        self.user_id@
    }

    fn is_authenticated(&self) -> (r: bool) {
        self.is_authenticated
    }

    fn user_id(&self) -> (r: Vec<u8>) {
        clone_bytes(&self.user_id)
    }
}

} // verus!
