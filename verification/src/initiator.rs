//! Initiating a login: build the provider's authorization URL around a
//! fresh pair of ephemeral secrets, and answer the browser with a
//! redirect that also plants the two state-carrying cookies.

use vstd::prelude::*;
use vstd::string::{StrSliceExecFns, StringSliceAdditionalSpecFns};
use crate::bytes::{append_bytes, clone_bytes};
use crate::ephemeral::{attach_to_response, attaches_ephemeral, EphemeralState};
use crate::http::{Request, Response};
use crate::middleware::OpenIdConnectMiddleware;
use crate::urlenc::{enc, url_encode};

verus! {

/// The authorization URL for one login attempt: the provider's endpoint
/// with `response_type=code`, the configured client and redirect URL,
/// scope `openid`, and the two ephemeral values, every value
/// percent-encoded.
pub open spec fn auth_url_spec(
    m: OpenIdConnectMiddleware,
    csrf: Seq<u8>,
    nonce: Seq<u8>,
) -> Seq<u8> {
    m.auth_endpoint@ + "?response_type=code&client_id=".spec_bytes() + enc(m.client_id@)
        + "&scope=openid&state=".spec_bytes() + enc(csrf)
        + "&nonce=".spec_bytes() + enc(nonce)
        + "&redirect_uri=".spec_bytes() + enc(m.redirect_url@)
}

/// `r` answers a login request made over TLS iff `secure`: a `302`
/// whose target is the authorization URL built from exactly the two
/// non-empty secrets that `r`'s own cookies carry to the browser.
pub open spec fn is_login_response(
    m: OpenIdConnectMiddleware,
    secure: bool,
    r: Response,
) -> bool {
    &&& r.status == 302
    &&& r.cookies@.len() == 2
    &&& attaches_ephemeral(r.cookies@, r.cookies@[0].value@, r.cookies@[1].value@, secure)
    &&& r.cookies@[0].value@.len() > 0
    &&& r.cookies@[1].value@.len() > 0
    &&& r.location is Some
    &&& r.location->0@ == auth_url_spec(m, r.cookies@[0].value@, r.cookies@[1].value@)
}

impl OpenIdConnectMiddleware {
    /// Builds the authorization URL around the given secrets.
    pub fn authorization_url(&self, csrf: &Vec<u8>, nonce: &Vec<u8>) -> (r: Vec<u8>)
        ensures
            r@ == auth_url_spec(*self, csrf@, nonce@),
    {
        let mut url = clone_bytes(&self.auth_endpoint);
        append_bytes(&mut url, &"?response_type=code&client_id=".as_bytes_vec());
        append_bytes(&mut url, &url_encode(&self.client_id));
        append_bytes(&mut url, &"&scope=openid&state=".as_bytes_vec());
        append_bytes(&mut url, &url_encode(csrf));
        append_bytes(&mut url, &"&nonce=".as_bytes_vec());
        append_bytes(&mut url, &url_encode(nonce));
        append_bytes(&mut url, &"&redirect_uri=".as_bytes_vec());
        append_bytes(&mut url, &url_encode(&self.redirect_url));
        assert(url@ =~= auth_url_spec(*self, csrf@, nonce@));
        url
    }

    /// The redirect that starts a login: generates the ephemeral state,
    /// sends the browser to the provider, and plants the two cookies.
    pub fn generate_redirect(&self, req: &Request) -> (r: Response)
        ensures
            is_login_response(*self, req.secure, r),
    {
        let state = EphemeralState::generate();
        let location = self.authorization_url(&state.csrf_token, &state.nonce);
        let mut response = Response { status: 302, location: Some(location), cookies: Vec::new() };
        attach_to_response(&state, &mut response, req.secure);
        proof {
            assert(response.cookies@.skip(0) =~= response.cookies@);
        }
        response
    }
}

} // verus!
