//! Response bodies and response metadata, as the encoding layer sees them.

use vstd::prelude::*;

verus! {

/// What a body reports of its total length.
#[derive(Clone, Copy, Debug, PartialEq, Eq, Structural)]
pub enum BodySize {
    /// No body at all.
    Nothing,
    /// A body of zero bytes.
    Empty,
    /// A body of a known length.
    Sized(u64),
    /// A body of a length known only at its end.
    Stream,
}

/// A body that is not a typed stream: nothing, empty, one buffer, or a
/// type-erased stream `M`.
pub enum Body<M> {
    /// No body at all.
    Nothing,
    Empty,
    Bytes(Vec<u8>),
    Message(M),
}

/// A response body: a typed stream `B`, or one of the other shapes.
pub enum ResponseBody<B, M> {
    Body(B),
    Other(Body<M>),
}

/// The status code of a response.
#[derive(Clone, Copy, Debug, PartialEq, Eq, Structural)]
pub struct StatusCode(pub u16);

pub const SWITCHING_PROTOCOLS: u16 = 101;
pub const NO_CONTENT: u16 = 204;

/// The parts of a response head that encoding reads and writes.
pub struct ResponseHead {
    pub status: StatusCode,
    /// The value of the `Content-Encoding` header, if the header is present.
    pub content_encoding: Option<String>,
    /// Whether chunked transfer is switched off for this response.
    pub no_chunking: bool,
}

impl ResponseHead {
    pub fn new(status: StatusCode) -> (r: ResponseHead)
        ensures
            r.status == status,
            r.content_encoding is None,
            !r.no_chunking,
    {
        ResponseHead { status, content_encoding: None, no_chunking: false }
    }

    /// Whether the `Content-Encoding` header is present.
    pub fn has_content_encoding(&self) -> (r: bool)
        ensures
            r == self.content_encoding is Some,
    {
        self.content_encoding.is_some()
    }

    /// Sets or clears the flag that switches chunked transfer off.
    pub fn no_chunking(&mut self, val: bool)
        ensures
            final(self).no_chunking == val,
            final(self).status == old(self).status,
            final(self).content_encoding == old(self).content_encoding,
    {
        self.no_chunking = val;
    }
}

} // verus!
