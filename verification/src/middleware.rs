//! The middleware configuration and the three-way classification of
//! inbound requests against it.

use vstd::prelude::*;
use vstd::string::{StrSliceExecFns, StringSliceAdditionalSpecFns};
use crate::bytes::bytes_eq;
use crate::http::Method;
use crate::urlpath::{url_path_of, url_path_spec};

verus! {

/// Configuration of the authentication gate, immutable once built: the
/// provider's authorization endpoint and client identity as discovered
/// and configured by the embedding application, plus the three paths
/// the middleware acts on.
#[derive(Debug)]
pub struct OpenIdConnectMiddleware {
    /// Path that triggers a redirect to the provider.
    pub login_path: Vec<u8>,
    /// Path the browser lands on after a successful login.
    pub landing_path: Vec<u8>,
    /// The provider's authorization endpoint URL.
    pub auth_endpoint: Vec<u8>,
    /// The client identifier registered with the provider.
    pub client_id: Vec<u8>,
    /// The full redirect URL registered with the provider.
    pub redirect_url: Vec<u8>,
    /// The path component of `redirect_url`, the callback interception key.
    pub callback_path: Vec<u8>,
}

/// How the middleware treats one request: fully handled login or callback
/// interception, or gated dispatch to downstream handlers. The three
/// cases are total and mutually exclusive over `(method, path)`.
#[derive(Clone, Copy, Debug, PartialEq, Eq, Structural)]
pub enum RequestClass {
    Login,
    Callback,
    Other,
}

impl OpenIdConnectMiddleware {
    /// The configuration is internally consistent: the callback path is
    /// the path component of the configured redirect URL.
    pub open spec fn wf(self) -> bool {
        self.callback_path@ == url_path_spec(self.redirect_url@)
    }

    /// Builds the middleware for one provider, with the default login path
    /// `/login` and landing path `/`. The provider's metadata discovery
    /// runs in the embedding application, before this constructor.
    pub fn new(auth_endpoint: Vec<u8>, client_id: Vec<u8>, redirect_url: Vec<u8>) -> (r: Self)
        ensures
            r.wf(),
            r.auth_endpoint@ == auth_endpoint@,
            r.client_id@ == client_id@,
            r.redirect_url@ == redirect_url@,
            r.login_path@ == "/login".spec_bytes(),
            r.landing_path@ == "/".spec_bytes(),
    {
        let callback_path = url_path_of(&redirect_url);
        OpenIdConnectMiddleware {
            login_path: "/login".as_bytes_vec(),
            landing_path: "/".as_bytes_vec(),
            auth_endpoint,
            client_id,
            redirect_url,
            callback_path,
        }
    }

    /// Sets the path that the middleware intercepts in order to redirect the
    /// browser to the provider's authentication page.
    pub fn with_login_path(self, login_path: Vec<u8>) -> (r: Self)
        ensures
            r.login_path@ == login_path@,
            r.landing_path == self.landing_path,
            r.auth_endpoint == self.auth_endpoint,
            r.client_id == self.client_id,
            r.redirect_url == self.redirect_url,
            r.callback_path == self.callback_path,
            self.wf() ==> r.wf(),
    {
        OpenIdConnectMiddleware { login_path, ..self }
    }

    /// Sets the path the browser is sent to after a successful login.
    pub fn with_landing_path(self, landing_path: Vec<u8>) -> (r: Self)
        ensures
            r.landing_path@ == landing_path@,
            r.login_path == self.login_path,
            r.auth_endpoint == self.auth_endpoint,
            r.client_id == self.client_id,
            r.redirect_url == self.redirect_url,
            r.callback_path == self.callback_path,
            self.wf() ==> r.wf(),
    {
        OpenIdConnectMiddleware { landing_path, ..self }
    }

    /// The classification of `(method, path)`: a `GET` of the login path
    /// starts a login, a `GET` of the callback path is the provider's
    /// callback, and everything else is gated dispatch.
    pub open spec fn classify_spec(self, method: Method, path: Seq<u8>) -> RequestClass {
        if method == Method::Get && path == self.login_path@ {
            RequestClass::Login
        } else if method == Method::Get && path == self.callback_path@ {
            RequestClass::Callback
        } else {
            RequestClass::Other
        }
    }

    /// Classifies one request.
    pub fn classify(&self, method: Method, path: &Vec<u8>) -> (r: RequestClass)
        ensures
            r == self.classify_spec(method, path@),
    {
        if method == Method::Get && bytes_eq(path, &self.login_path) {
            RequestClass::Login
        } else if method == Method::Get && bytes_eq(path, &self.callback_path) {
            RequestClass::Callback
        } else {
            RequestClass::Other
        }
    }
}

} // verus!
