//! The boundary to the HTTP transport: what a call needs, what it hands back,
//! and the action that reports its outcome on the bus.

use crate::action::Action;
use crate::types::HttpMethod;
use vstd::prelude::*;

verus! {

/// What the transport hands back when a call went through.
#[derive(Debug, PartialEq, Eq)]
pub struct HttpResponse {
    pub status: u16,
    pub body: String,
}

/// A request as it is captured when the URL is submitted.
#[derive(Debug, PartialEq, Eq)]
pub struct RequestSpec {
    pub method: HttpMethod,
    pub url: String,
    pub body: String,
}

/// A response as contracts see it: the body by its characters.
pub struct HttpResponseView {
    pub status: u16,
    pub body: Seq<char>,
}

/// A request as contracts see it: URL and body by their characters.
pub struct RequestSpecView {
    pub method: HttpMethod,
    pub url: Seq<char>,
    pub body: Seq<char>,
}

impl View for HttpResponse {
    type V = HttpResponseView;

    open spec fn view(&self) -> HttpResponseView {
        HttpResponseView { status: self.status, body: self.body@ }
    }
}

impl View for RequestSpec {
    type V = RequestSpecView;

    open spec fn view(&self) -> RequestSpecView {
        RequestSpecView { method: self.method, url: self.url@, body: self.body@ }
    }
}

impl Clone for HttpResponse {
    fn clone(&self) -> (copy: Self)
        ensures
            copy@ == self@,
    {
        HttpResponse { status: self.status, body: self.body.clone() }
    }
}

impl Clone for RequestSpec {
    fn clone(&self) -> (copy: Self)
        ensures
            copy@ == self@,
    {
        RequestSpec { method: self.method, url: self.url.clone(), body: self.body.clone() }
    }
}

/// The call that the transport is asked to make for a request.
#[derive(Debug, PartialEq, Eq)]
pub enum TransportCall {
    Get { url: String },
    Post { url: String, payload: String },
    /// The transport offers no operation for the request's method.
    Unsupported { method: HttpMethod },
}

/// A transport call as contracts see it.
pub enum TransportCallView {
    Get { url: Seq<char> },
    Post { url: Seq<char>, payload: Seq<char> },
    Unsupported { method: HttpMethod },
}

impl View for TransportCall {
    type V = TransportCallView;

    open spec fn view(&self) -> TransportCallView {
        match self {
            TransportCall::Get { url } => TransportCallView::Get { url: url@ },
            TransportCall::Post { url, payload } => TransportCallView::Post {
                url: url@,
                payload: payload@,
            },
            TransportCall::Unsupported { method } => TransportCallView::Unsupported {
                method: *method,
            },
        }
    }
}

impl HttpResponse {
    pub fn new(status: u16, body: String) -> (response: HttpResponse)
        ensures
            response@ == (HttpResponseView { status, body: body@ }),
    {
        HttpResponse { status, body }
    }
}

impl RequestSpec {
    pub fn new(method: HttpMethod, url: String, body: String) -> (request: RequestSpec)
        ensures
            request@ == (RequestSpecView { method, url: url@, body: body@ }),
    {
        RequestSpec { method, url, body }
    }

    /// The transport operation that carries this request: `get` for GET,
    /// `post` with the body as payload for POST, none for the other methods.
    pub open spec fn spec_call(request: RequestSpecView) -> TransportCallView {
        match request.method {
            HttpMethod::GET => TransportCallView::Get { url: request.url },
            HttpMethod::POST => TransportCallView::Post {
                url: request.url,
                payload: request.body,
            },
            _ => TransportCallView::Unsupported { method: request.method },
        }
    }

    pub fn call(&self) -> (call: TransportCall)
        ensures
            call@ == RequestSpec::spec_call(self@),
    {
        match self.method {
            HttpMethod::GET => TransportCall::Get { url: self.url.clone() },
            HttpMethod::POST => TransportCall::Post {
                url: self.url.clone(),
                payload: self.body.clone(),
            },
            _ => TransportCall::Unsupported { method: self.method },
        }
    }
}

/// The action that reports how a transport call ended: the response with the
/// time it took, or the transport's error message.
pub open spec fn completion_action(
    outcome: Result<HttpResponseView, Seq<char>>,
    elapsed_ms: u64,
) -> crate::action::ActionView {
    match outcome {
        Ok(response) => crate::action::ActionView::ResponseReceived {
            status: response.status,
            body: response.body,
            elapsed_ms,
        },
        Err(message) => crate::action::ActionView::RequestFailed { message },
    }
}

/// Turns the outcome of one transport call into the one action that is put on
/// the bus for it. A transport error is reported, never raised.
pub fn completion(outcome: Result<HttpResponse, String>, elapsed_ms: u64) -> (action: Action)
    ensures
        action@ == completion_action(
            match outcome {
                Ok(response) => Ok(response@),
                Err(message) => Err(message@),
            },
            elapsed_ms,
        ),
{
    match outcome {
        Ok(response) => Action::ResponseReceived {
            status: response.status,
            body: response.body,
            elapsed_ms,
        },
        Err(message) => Action::RequestFailed { message },
    }
}

} // verus!
