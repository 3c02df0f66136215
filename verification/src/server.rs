//! What the server adds to every response.

use vstd::prelude::*;

verus! {

/// The cross-origin policy: every origin may call, with the usual methods
/// and with the headers that carry content type and authorization.
#[derive(Clone, Copy, Debug, PartialEq, Eq)]
pub struct CORS;

/// The three headers of the policy, as name and value.
pub open spec fn cors_headers() -> Seq<(Seq<char>, Seq<char>)> {
    seq![
        ("Access-Control-Allow-Origin"@, "*"@),
        ("Access-Control-Allow-Methods"@, "GET, POST, PUT, DELETE, OPTIONS"@),
        ("Access-Control-Allow-Headers"@, "Content-Type, Authorization"@),
    ]
}

impl CORS {
    /// The name under which the policy is attached.
    pub fn name() -> (name: &'static str)
        ensures
            name@ == "CORS Middleware"@,
    {
        "CORS Middleware"
    }

    /// The headers to set on every response, as name and value.
    pub fn response_headers() -> (headers: Vec<(&'static str, &'static str)>)
        ensures
            headers@.len() == 3,
            forall|i: int|
                0 <= i < 3 ==> (#[trigger] headers@[i]).0@ == cors_headers()[i].0 && headers@[i].1@
                    == cors_headers()[i].1,
    {
        let mut headers: Vec<(&'static str, &'static str)> = Vec::new();
        headers.push(("Access-Control-Allow-Origin", "*"));
        headers.push(("Access-Control-Allow-Methods", "GET, POST, PUT, DELETE, OPTIONS"));
        headers.push(("Access-Control-Allow-Headers", "Content-Type, Authorization"));
        headers
    }
}

} // verus!
