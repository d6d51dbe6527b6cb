//! The HTTP methods a request can use.

use vstd::prelude::*;

verus! {

#[allow(clippy::upper_case_acronyms)]
#[derive(Clone, Copy, Debug, PartialEq, Eq, Hash, Structural)]
pub enum HttpMethod {
    GET,
    POST,
    PUT,
    DELETE,
    PATCH,
    OPTIONS,
    HEAD,
}

impl HttpMethod {
    /// The method's name as it is written in a request line.
    pub open spec fn name(self) -> Seq<char> {
        match self {
            HttpMethod::GET => "GET"@,
            HttpMethod::POST => "POST"@,
            HttpMethod::PUT => "PUT"@,
            HttpMethod::DELETE => "DELETE"@,
            HttpMethod::PATCH => "PATCH"@,
            HttpMethod::OPTIONS => "OPTIONS"@,
            HttpMethod::HEAD => "HEAD"@,
        }
    }

    /// The methods in the order in which a selector offers them.
    pub open spec fn spec_all() -> Seq<HttpMethod> {
        seq![
            HttpMethod::GET,
            HttpMethod::POST,
            HttpMethod::PUT,
            HttpMethod::DELETE,
            HttpMethod::PATCH,
            HttpMethod::OPTIONS,
            HttpMethod::HEAD,
        ]
    }

    pub fn as_str(self) -> (name: &'static str)
        ensures
            name@ == self.name(),
    {
        match self {
            HttpMethod::GET => "GET",
            HttpMethod::POST => "POST",
            HttpMethod::PUT => "PUT",
            HttpMethod::DELETE => "DELETE",
            HttpMethod::PATCH => "PATCH",
            HttpMethod::OPTIONS => "OPTIONS",
            HttpMethod::HEAD => "HEAD",
        }
    }

    /// The method's name as an owned string.
    #[allow(clippy::inherent_to_string)]
    pub fn to_string(&self) -> (name: String)
        ensures
            name@ == self.name(),
    {
        self.as_str().to_owned()
    }

    /// Every method, in the order of `spec_all`.
    pub fn all() -> (methods: Vec<HttpMethod>)
        ensures
            methods@ == HttpMethod::spec_all(),
    {
        let mut methods: Vec<HttpMethod> = Vec::new();
        methods.push(HttpMethod::GET);
        methods.push(HttpMethod::POST);
        methods.push(HttpMethod::PUT);
        methods.push(HttpMethod::DELETE);
        methods.push(HttpMethod::PATCH);
        methods.push(HttpMethod::OPTIONS);
        methods.push(HttpMethod::HEAD);
        methods
    }
}

} // verus!
