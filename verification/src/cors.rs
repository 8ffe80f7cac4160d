//! Cross-origin access. The proxied data is public, so every origin may read
//! every response.

use vstd::prelude::*;

verus! {

/// Adds the cross-origin headers to every response.
#[derive(Clone, Copy, Debug, PartialEq, Eq)]
pub struct Cors;

/// A response header.
#[derive(Clone, Copy, Debug, PartialEq, Eq)]
pub struct Header {
    pub name: &'static str,
    pub value: &'static str,
}

/// How the server is to know a component that takes part in every response.
#[derive(Clone, Copy, Debug, PartialEq, Eq)]
pub struct Info {
    pub name: &'static str,
    /// The component acts on responses, not on requests.
    pub on_response: bool,
}

impl Cors {
    /// The headers that every response carries.
    pub open spec fn headers() -> Seq<Header> {
        seq![
            Header { name: "Access-Control-Allow-Origin", value: "*" },
            Header { name: "Access-Control-Allow-Methods", value: "GET" },
        ]
    }

    pub fn info(&self) -> (info: Info)
        ensures
            info == (Info { name: "Add CORS headers to responses", on_response: true }),
    {
        Info { name: "Add CORS headers to responses", on_response: true }
    }

    /// The headers to set on a response, whatever the request was and
    /// whether or not it succeeded.
    pub fn on_response(&self) -> (headers: Vec<Header>)
        ensures
            headers@ == Self::headers(),
    {
        let headers = vec![
            Header { name: "Access-Control-Allow-Origin", value: "*" },
            Header { name: "Access-Control-Allow-Methods", value: "GET" },
        ];
        assert(headers@ =~= Self::headers());
        headers
    }
}

} // verus!
