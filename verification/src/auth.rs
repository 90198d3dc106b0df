//! Authentication methods and the header each one attaches. Exactly one
//! treatment is chosen at client construction and applied identically to
//! every request.

use vstd::prelude::*;

use base64::Engine;

verus! {

/// Which header carries the token for [`ChromaAuthMethod::TokenAuth`].
#[derive(Clone, Debug)]
pub enum ChromaTokenHeader {
    /// `Authorization: Bearer <token>`, RFC 6750.
    Authorization,
    /// `X-Chroma-Token: <token>`, the provider-specific header.
    XChromaToken,
}

/// Authentication options, applied per request by the transport.
#[derive(Clone, Debug)]
pub enum ChromaAuthMethod {
    /// No authentication.
    NoAuth,
    /// Basic authentication, RFC 7617.
    BasicAuth { username: String, password: String },
    /// Static token authentication, RFC 6750.
    TokenAuth { token: String, header: ChromaTokenHeader },
}

impl Default for ChromaAuthMethod {
    /// Defaults to no authentication.
    fn default() -> (r: Self)
        ensures
            r is NoAuth,
    {
        Self::NoAuth
    }
}

/// The standard base64 encoding (RFC 4648, padded) of the UTF-8 bytes of a
/// string; the result depends on the string alone.
pub uninterp spec fn base64_of(s: Seq<char>) -> Seq<char>;

/// Relies on base64's `BASE64_STANDARD` engine: encodes the bytes of `s`
/// with the standard alphabet and padding; a pure function of `s`, and
/// empty input encodes to the empty string.
#[verifier::external_body]
fn base64_encode(s: &str) -> (r: String)
    ensures
        r@ == base64_of(s@),
        s@.len() == 0 ==> r@.len() == 0,
{
    base64::prelude::BASE64_STANDARD.encode(s.as_bytes())
}

/// The credential string of basic authentication: `username:password`.
pub open spec fn spec_basic_credentials(username: Seq<char>, password: Seq<char>) -> Seq<char> {
    username + ":"@ + password
}

/// The one authentication header this method attaches, if any: nothing;
/// `Authorization: Basic <base64(username:password)>`; `Authorization:
/// Bearer <token>`; or `X-Chroma-Token: <token>`.
pub fn auth_header(auth: &ChromaAuthMethod) -> (r: Option<(String, String)>)
    ensures
        ({
            match *auth {
                ChromaAuthMethod::NoAuth => r is None,
                ChromaAuthMethod::BasicAuth { username, password } => {
                    &&& r matches Some((name, value))
                    &&& name@ == "Authorization"@
                    &&& value@ == "Basic "@ + base64_of(
                        spec_basic_credentials(username@, password@),
                    )
                },
                ChromaAuthMethod::TokenAuth { token, header } => {
                    match header {
                        ChromaTokenHeader::Authorization => {
                            &&& r matches Some((name, value))
                            &&& name@ == "Authorization"@
                            &&& value@ == "Bearer "@ + token@
                        },
                        ChromaTokenHeader::XChromaToken => {
                            &&& r matches Some((name, value))
                            &&& name@ == "X-Chroma-Token"@
                            &&& value@ == token@
                        },
                    }
                },
            }
        }),
{
    match auth {
        ChromaAuthMethod::NoAuth => Option::None,
        ChromaAuthMethod::BasicAuth { username, password } => {
            let mut credentials = username.clone();
            credentials.append(":");
            credentials.append(password.as_str());
            let encoded = base64_encode(credentials.as_str());
            let mut value = "Basic ".to_owned();
            value.append(encoded.as_str());
            Option::Some(("Authorization".to_owned(), value))
        },
        ChromaAuthMethod::TokenAuth { token, header } => {
            match header {
                ChromaTokenHeader::Authorization => {
                    let mut value = "Bearer ".to_owned();
                    value.append(token.as_str());
                    Option::Some(("Authorization".to_owned(), value))
                },
                ChromaTokenHeader::XChromaToken => {
                    Option::Some(("X-Chroma-Token".to_owned(), token.clone()))
                },
            }
        },
    }
}

} // verus!
