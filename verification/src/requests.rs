//! The two shapes of incoming request headers: the authenticated vault
//! request with its bearer token and signature, and the handshake request
//! that names a user. A transport hands header values in; everything that
//! decides — the `Bearer` prefix, the presence checks — is here.

use vstd::prelude::*;

verus! {

use vstd::string::StringExecFns;
use vstd::string::StrSliceExecFns;

/// The headers an authenticated vault request carries.
pub struct VaultRequest {
    pub bearer_token: String,
    pub host: String,
    pub timestamp: String,
    pub signature: String,
}

/// Why a request could not be read.
#[derive(Debug)]
pub enum RequestError {
    Missing,
}

/// The header a handshake request carries.
pub struct OpaqueRequest {
    pub username: String,
}

/// Whether an `Authorization` header value begins with the `Bearer` scheme.
pub open spec fn has_bearer_prefix(value: Seq<char>) -> bool {
    value.len() >= 7 && value.subrange(0, 7) == "Bearer "@
}

/// The token an `Authorization` header value presents under the `Bearer`
/// scheme, or nothing for any other shape of value.
pub fn bearer_token_from_authorization(value: &str) -> (r: Option<String>)
    ensures
        has_bearer_prefix(value@) ==> (r matches Some(t) && t@ == value@.skip(7)),
        !has_bearer_prefix(value@) ==> r is None,
{
    proof {
        reveal_strlit("Bearer ");
    }
    let n = value.unicode_len();
    if n < 7 {
        return None;
    }
    let prefixed = value.get_char(0) == 'B' && value.get_char(1) == 'e' && value.get_char(2) == 'a'
        && value.get_char(3) == 'r' && value.get_char(4) == 'e' && value.get_char(5) == 'r'
        && value.get_char(6) == ' ';
    if !prefixed {
        proof {
            if has_bearer_prefix(value@) {
                assert(value@.subrange(0, 7)[0] == value@[0]);
                assert(value@.subrange(0, 7)[1] == value@[1]);
                assert(value@.subrange(0, 7)[2] == value@[2]);
                assert(value@.subrange(0, 7)[3] == value@[3]);
                assert(value@.subrange(0, 7)[4] == value@[4]);
                assert(value@.subrange(0, 7)[5] == value@[5]);
                assert(value@.subrange(0, 7)[6] == value@[6]);
            }
        }
        return None;
    }
    let token = value.substring_char(7, n);
    proof {
        assert(value@.subrange(0, 7) =~= "Bearer "@);
        assert(token@ =~= value@.skip(7));
    }
    Some(String::from_str(token))
}

impl VaultRequest {
    /// Reads a vault request from its four header values; a missing header
    /// or an `Authorization` value without the `Bearer` scheme refuses the
    /// request.
    pub fn from_headers(
        authorization: Option<&str>,
        host: Option<&str>,
        timestamp: Option<&str>,
        signature: Option<&str>,
    ) -> (r: Result<VaultRequest, RequestError>)
        ensures
            r matches Ok(request) ==> {
                &&& authorization matches Some(a) && has_bearer_prefix(a@)
                    && request.bearer_token@ == a@.skip(7)
                &&& host matches Some(h) && request.host@ == h@
                &&& timestamp matches Some(t) && request.timestamp@ == t@
                &&& signature matches Some(s) && request.signature@ == s@
            },
            (authorization is None || (authorization matches Some(a) && !has_bearer_prefix(a@))
                || host is None || timestamp is None || signature is None) ==> (r matches Err(e)
                && e is Missing),
    {
        let bearer_token = match authorization {
            Some(value) => match bearer_token_from_authorization(value) {
                Some(token) => token,
                None => {
                    return Err(RequestError::Missing);
                },
            },
            None => {
                return Err(RequestError::Missing);
            },
        };
        let Some(host) = host else {
            return Err(RequestError::Missing);
        };
        let Some(signature) = signature else {
            return Err(RequestError::Missing);
        };
        let Some(timestamp) = timestamp else {
            return Err(RequestError::Missing);
        };
        Ok(
            VaultRequest {
                bearer_token,
                host: String::from_str(host),
                timestamp: String::from_str(timestamp),
                signature: String::from_str(signature),
            },
        )
    }
}

impl OpaqueRequest {
    /// Reads a handshake request from its username header; a missing
    /// header refuses the request.
    pub fn from_headers(username: Option<&str>) -> (r: Result<OpaqueRequest, RequestError>)
        ensures
            r matches Ok(request) ==> (username matches Some(u) && request.username@ == u@),
            username is None ==> (r matches Err(e) && e is Missing),
    {
        let Some(username) = username else {
            return Err(RequestError::Missing);
        };
        Ok(OpaqueRequest { username: String::from_str(username) })
    }
}

} // verus!
