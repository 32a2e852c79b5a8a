//! Authorization: a request is authorized by the shared secret.

use vstd::prelude::*;

use crate::config::Config;
use crate::error::ApiError;

verus! {

/// Whether a request carries the secret: it has the header, and the
/// header's bytes are the password's.
pub open spec fn carries_secret(password: Seq<char>, header: Option<Seq<u8>>) -> bool {
    header is Some && header->0 == vstd::utf8::encode_utf8(password)
}

/// The bytes of a header's value, where the header is there.
pub open spec fn header_bytes(header: Option<&[u8]>) -> Option<Seq<u8>> {
    match header {
        Some(value) => Some(value@),
        None => None,
    }
}

/// Whether two byte strings are the same.
fn same_bytes(a: &[u8], b: &[u8]) -> (same: bool)
    ensures
        same == (a@ == b@),
{
    if a.len() != b.len() {
        return false;
    }
    let mut i: usize = 0;
    while i < a.len()
        invariant
            0 <= i <= a.len(),
            a.len() == b.len(),
            forall|k: int| 0 <= k < i ==> a[k] == b[k],
        decreases a.len() - i,
    {
        if a[i] != b[i] {
            return false;
        }
        i = i + 1;
    }
    proof {
        assert(a@ =~= b@);
    }
    true
}

/// Authorizes a request by the value of its `x-auth` header: granted
/// exactly when the header is there and equals the configured password,
/// byte for byte.
pub fn is_authorized(config: &Config, x_auth: Option<&[u8]>) -> (r: Result<(), ApiError>)
    ensures
        r is Ok <==> carries_secret(config.password@, header_bytes(x_auth)),
        r is Err ==> r->Err_0 is Unauthorized,
{
    match x_auth {
        Some(value) => {
            if same_bytes(value, config.password.as_str().as_bytes()) {
                Ok(())
            } else {
                Err(ApiError::Unauthorized)
            }
        },
        None => Err(ApiError::Unauthorized),
    }
}

/// Answers a login: the request is authorized or it is not.
pub fn login(config: &Config, x_auth: Option<&[u8]>) -> (r: Result<(), ApiError>)
    ensures
        r is Ok <==> carries_secret(config.password@, header_bytes(x_auth)),
        r is Err ==> r->Err_0 is Unauthorized,
{
    is_authorized(config, x_auth)
}

} // verus!
