use vstd::prelude::*;

verus! {

/// Response headers, keyed by header name.
pub type Headers = std::collections::HashMap<String, String>;

/// The transport pipeline a finalized client sends its requests through.
///
/// Executing requests is outside this library's scope.  Constructing a
/// pipeline is an inert, side-effect-free step: it records the resolved
/// endpoint and nothing else, and no I/O ever happens while a client is
/// being configured or finalized.
pub struct Pipeline {
    endpoint: String,
}

impl View for Pipeline {
    type V = Seq<char>;

    closed spec fn view(&self) -> Seq<char> {
        self.endpoint@
    }
}

impl Pipeline {
    /// Constructs the pipeline for a resolved endpoint.
    pub fn new(endpoint: String) -> (r: Pipeline)
        ensures
            r@ == endpoint@,
    {
        Pipeline { endpoint }
    }

    /// The endpoint this pipeline was constructed for.
    pub fn endpoint(&self) -> (r: &String)
        ensures
            r@ == self@,
    {
        &self.endpoint
    }
}

/// An HTTP status code.
#[derive(Clone, Copy, Debug, PartialEq, Eq, Structural)]
pub struct StatusCode(pub u16);

impl From<u16> for StatusCode {
    fn from(value: u16) -> (r: StatusCode) {
        StatusCode(value)
    }
}

impl vstd::std_specs::convert::FromSpecImpl<u16> for StatusCode {
    open spec fn obeys_from_spec() -> bool {
        true
    }

    open spec fn from_spec(v: u16) -> StatusCode {
        StatusCode(v)
    }
}

/// A request body for the (out-of-scope) transport, typed by the model it
/// carries.  Encoding a model into a body belongs to the serialization
/// layer, which this library leaves to its surroundings.
pub struct RequestContent<T> {
    _phantom: core::marker::PhantomData<T>,
}

/// The mathematical content of a [`Response`].
pub struct ResponseView {
    pub status: u16,
    pub headers: Map<Seq<char>, Seq<char>>,
}

/// A response from the (out-of-scope) transport, typed by the model it
/// carries.  Only the transport produces responses; this library only
/// exposes what one holds.
pub struct Response<T> {
    status: StatusCode,
    headers: Headers,
    _phantom: core::marker::PhantomData<T>,
}

impl<T> View for Response<T> {
    type V = ResponseView;

    closed spec fn view(&self) -> ResponseView {
        ResponseView { status: self.status.0, headers: self.headers.deep_view() }
    }
}

impl<T> Response<T> {
    /// The status code of this response.
    pub fn status(&self) -> (r: &StatusCode)
        ensures
            r.0 == self@.status,
    {
        &self.status
    }

    /// The headers of this response.
    pub fn headers(&self) -> (r: &Headers)
        ensures
            r.deep_view() == self@.headers,
    {
        &self.headers
    }
}

} // verus!
