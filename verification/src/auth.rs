use vstd::prelude::*;
use crate::options::RequestUser;

verus! {

/// Credentials for authenticated requests against the API.
#[derive(Clone)]
pub struct BasicAuth {
    pub username: String,
    pub password: Option<String>,
}

/// What `base64::encode` returns on the UTF-8 bytes of a string: a function
/// of the characters alone.
pub uninterp spec fn base64_of(s: Seq<char>) -> Seq<char>;

/// Relies on `base64::encode`: the standard alphabet with padding, applied
/// to the bytes of `s`; an empty input encodes to an empty string.
#[verifier::external_body]
fn base64_encode(s: &str) -> (r: String)
    ensures
        r@ == base64_of(s@),
        s@.len() == 0 ==> r@.len() == 0,
{
    base64::encode(s)
}

/// The credential string that is encoded: `username:password`, or the bare
/// username when no password is set.
pub open spec fn spec_credentials(auth: BasicAuth) -> Seq<char> {
    match auth.password {
        Some(password) => auth.username@ + ":"@ + password@,
        None => auth.username@,
    }
}

impl BasicAuth {
    /// The value of the `Authorization` header for these credentials.
    pub fn to_string(&self) -> (r: String)
        ensures
            r@ == "Basic "@ + base64_of(spec_credentials(*self)),
    {
        let credentials = match &self.password {
            Some(password) => {
                let joined = self.username.clone().concat(":").concat(password.as_str());
                joined
            },
            None => self.username.clone(),
        };
        let encoded = base64_encode(credentials.as_str());
        String::from_str("Basic ").concat(encoded.as_str())
    }
}

/// Decides which credentials to use: an explicit request username wins, a
/// bare password borrows the queried user's name, and with neither the
/// requests go unauthenticated.
pub fn get_auth(auth: RequestUser, username: String) -> (r: Option<BasicAuth>)
    ensures
        match (auth.request_username, auth.request_password) {
            (Some(u), p) => {
                &&& r matches Some(b)
                &&& b.username == u
                &&& b.password == p
            },
            (None, Some(p)) => {
                &&& r matches Some(b)
                &&& b.username == username
                &&& b.password == Some(p)
            },
            (None, None) => r is None,
        },
{
    match (auth.request_username, auth.request_password) {
        (Some(request_username), password) => Some(BasicAuth { username: request_username, password }),
        (None, Some(password)) => Some(BasicAuth { username, password: Some(password) }),
        _ => None,
    }
}

} // verus!
