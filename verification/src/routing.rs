//! Which requests are handed to the single durable instance that runs the
//! expensive account operations.

use vstd::prelude::*;
use crate::text::text_eq;

verus! {

/// The paths whose `POST` requests are handed over: the prelogin, the
/// registration finish and the token endpoints.
pub open spec fn offloaded_path(path: Seq<char>) -> bool {
    ||| path == "/identity/accounts/prelogin"@
    ||| path == "/api/accounts/prelogin"@
    ||| path == "/identity/accounts/register/finish"@
    ||| path == "/identity/connect/token"@
}

/// Whether a request with the method name `method` (such as `POST`) and the
/// path `path` is handed to the durable instance.
pub fn should_offload(method: &str, path: &str) -> (r: bool)
    ensures
        r == (method@ == "POST"@ && offloaded_path(path@)),
{
    if !text_eq(method, "POST") {
        return false;
    }
    text_eq(path, "/identity/accounts/prelogin") || text_eq(path, "/api/accounts/prelogin")
        || text_eq(path, "/identity/accounts/register/finish") || text_eq(path, "/identity/connect/token")
}

} // verus!
