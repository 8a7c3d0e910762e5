//! The streaming encoder: pulls chunks from a body source, compresses them inline
//! or hands them to a background job, and emits the compressed chunks.
//!
//! Polling the source's streams and running background jobs is the caller's work;
//! the encoder decides, step by step, what is to be done next.

use vstd::prelude::*;

use crate::body::{
    Body, BodySize, ResponseBody, ResponseHead, NO_CONTENT, SWITCHING_PROTOCOLS,
};
use crate::codec::{
    encoding_name, is_compressing, level_of, zstd_level_ok, ContentEncoder, ContentEncoding, ZSTD_LEVEL,
};

verus! {

/// Chunks shorter than this are compressed on the calling context; longer ones
/// are handed to a background job.
pub const MAX_CHUNK_SIZE_ENCODE_IN_PLACE: usize = 1024;

/// A background job could not be run or awaited.
#[derive(Clone, Copy, Debug, PartialEq, Eq, Structural)]
pub struct BlockingError;

/// Why an encoded stream failed.
pub enum EncoderError<E> {
    /// The typed source stream (or the buffer) failed.
    Body(E),
    /// The type-erased source stream failed.
    Boxed(E),
    /// The background job could not be run or awaited.
    Blocking(BlockingError),
    /// The compression algorithm failed.
    Io(std::io::Error),
}

/// The outcome of polling something that may not be ready yet.
pub enum Pulled<T> {
    Pending,
    Ready(T),
}

/// What the caller is to do after one step of the encoder.
pub enum Step<E> {
    /// Nothing can be done until the caller is woken again.
    Pending,
    /// The next item of the encoded stream: a chunk, a failure, or its end.
    Ready(Option<Result<Vec<u8>, EncoderError<E>>>),
    /// Poll the source stream and hand its answer to `on_source`.
    PollSource,
    /// Poll the background job and hand its answer to `on_job`.
    PollJob,
    /// Run `write` of the codec on the chunk in a background job that returns
    /// the codec, then call `resume`.
    Offload(ContentEncoder, Vec<u8>),
    /// Nothing to emit yet: call `resume`.
    Again,
}

/// The uncompressed body source: one buffer, a typed stream or a type-erased stream.
pub enum EncoderBody<B, M> {
    Bytes(Vec<u8>),
    Stream(B),
    BoxedStream(M),
}

impl<B, M> EncoderBody<B, M> {
    pub open spec fn size_of(&self, inner: BodySize) -> BodySize {
        match self {
            EncoderBody::Bytes(b) => BodySize::Sized(b@.len() as u64),
            _ => inner,
        }
    }

    /// The size of the source; `inner` is what a wrapped stream reports of itself.
    pub fn size(&self, inner: BodySize) -> (r: BodySize)
        ensures
            r == self.size_of(inner),
    {
        match self {
            EncoderBody::Bytes(b) => BodySize::Sized(b.len() as u64),
            _ => inner,
        }
    }

    /// Polls the buffer variant: the whole buffer once if it is non-empty, then the end.
    pub fn poll_bytes(&mut self) -> (r: Option<Vec<u8>>)
        requires
            *old(self) is Bytes,
        ensures
            *final(self) is Bytes,
            (*final(self))->Bytes_0@ == Seq::<u8>::empty(),
            (*old(self))->Bytes_0@.len() == 0 ==> r is None,
            (*old(self))->Bytes_0@.len() > 0 ==> r is Some && r->Some_0@ == (*old(self))->Bytes_0@,
    {
        match self {
            EncoderBody::Bytes(b) => {
                if b.is_empty() {
                    None
                } else {
                    let mut out: Vec<u8> = Vec::new();
                    core::mem::swap(b, &mut out);
                    Some(out)
                }
            },
            _ => None,
        }
    }
}

/// Whether a response may be encoded with the requested coding.
pub open spec fn encodable(encoding: ContentEncoding, head: ResponseHead) -> bool {
    !(head.content_encoding is Some || head.status.0 == SWITCHING_PROTOCOLS
        || head.status.0 == NO_CONTENT || encoding == ContentEncoding::Identity
        || encoding == ContentEncoding::Auto)
}

pub fn can_encode(encoding: ContentEncoding, head: &ResponseHead) -> (r: bool)
    ensures
        r == encodable(encoding, *head),
{
    !(head.has_content_encoding() || head.status.0 == SWITCHING_PROTOCOLS || head.status.0
        == NO_CONTENT || encoding == ContentEncoding::Identity || encoding
        == ContentEncoding::Auto)
}

/// Sets the `Content-Encoding` header to the coding's name.
pub fn update_head(encoding: ContentEncoding, head: &mut ResponseHead)
    ensures
        final(head).content_encoding is Some,
        final(head).content_encoding->Some_0@ == encoding_name(encoding),
        final(head).status == old(head).status,
        final(head).no_chunking == old(head).no_chunking,
{
    head.content_encoding = Some(encoding.as_str().to_owned());
}

/// An encoded body: the source, the codec when one applies, and whether a
/// background job currently holds the codec.
pub struct Encoder<B, M> {
    pub eof: bool,
    pub body: EncoderBody<B, M>,
    pub encoder: Option<ContentEncoder>,
    pub in_flight: bool,
    pub finalized: Ghost<bool>,
}

impl<B, M> Encoder<B, M> {
    /// The encoded stream has ended (or failed): it yields nothing more.
    pub open spec fn is_finished(&self) -> bool {
        self.eof
    }

    /// The codec, where it is held by the encoder itself.
    pub open spec fn codec(&self) -> Option<ContentEncoder> {
        self.encoder
    }

    /// A background job holds the codec.
    pub open spec fn job_outstanding(&self) -> bool {
        self.in_flight
    }

    /// The codec's `finish` has been called.
    pub open spec fn finalized(&self) -> bool {
        self.finalized@
    }

    /// A codec exists, here or in a background job.
    pub open spec fn codec_live(&self) -> bool {
        self.codec() is Some || self.job_outstanding()
    }

    pub open spec fn wf(&self) -> bool {
        &&& self.in_flight ==> self.encoder is None && !self.eof
        &&& self.eof ==> self.encoder is None && !self.in_flight
        &&& self.finalized@ ==> self.eof
        &&& self.encoder is Some ==> self.encoder->Some_0.sink() == Seq::<u8>::empty()
    }

    /// Wraps a source, with a codec or without one (pass-through).
    pub fn new(body: EncoderBody<B, M>, encoder: Option<ContentEncoder>) -> (r: Self)
        requires
            encoder is Some ==> encoder->Some_0.sink() == Seq::<u8>::empty(),
        ensures
            r.wf(),
            r.body == body,
            r.codec() == encoder,
            !r.is_finished(),
            !r.job_outstanding(),
            !r.finalized(),
    {
        Encoder { eof: false, body, encoder, in_flight: false, finalized: Ghost(false) }
    }
    /// The error for a failure of the source, tagged with the shape that failed.
    pub open spec fn body_error<E>(&self, e: E) -> EncoderError<E> {
        match self.body {
            EncoderBody::BoxedStream(_) => EncoderError::Boxed(e),
            _ => EncoderError::Body(e),
        }
    }

    /// What one item from the source does, `Some` being a chunk and `None` its end,
    /// from state `pre` to state `post` with answer `r` (the source itself aside).
    pub open spec fn chunk_step<E>(pre: Self, chunk: Option<Seq<u8>>, post: Self, r: Step<E>) -> bool {
        match chunk {
            Some(c) => if pre.encoder is None {
                &&& r matches Step::Ready(Some(Ok(v))) && v@ == c
                &&& post.eof == pre.eof && post.encoder is None && !post.in_flight
                &&& post.finalized == pre.finalized
            } else if c.len() < MAX_CHUNK_SIZE_ENCODE_IN_PLACE {
                let enc = pre.encoder->Some_0;
                &&& post.finalized == pre.finalized && !post.in_flight
                &&& match enc.written(c) {
                    None => {
                        &&& r matches Step::Ready(Some(Err(EncoderError::Io(_))))
                        &&& post.eof && post.encoder is None
                    },
                    Some(w) => {
                        let out = enc.sink() + w;
                        &&& !post.eof && post.encoder is Some
                        &&& post.encoder->Some_0.coding() == enc.coding()
                        &&& post.encoder->Some_0.level() == enc.level()
                        &&& post.encoder->Some_0.fed() == enc.fed().push(c)
                        &&& post.encoder->Some_0.sink() == Seq::<u8>::empty()
                        &&& out.len() == 0 ==> r is Again
                        &&& out.len() > 0 ==> (r matches Step::Ready(Some(Ok(v))) && v@ == out)
                    },
                }
            } else {
                &&& r matches Step::Offload(e, v) && e == pre.encoder->Some_0 && v@ == c
                &&& post.in_flight && post.encoder is None && !post.eof
                &&& post.finalized == pre.finalized
            },
            None => {
                &&& post.eof && post.encoder is None && !post.in_flight
                &&& post.finalized@ == (pre.finalized@ || pre.encoder is Some)
                &&& pre.encoder is None ==> r == Step::<E>::Ready(None)
                &&& pre.encoder is Some ==> match pre.encoder->Some_0.rest() {
                    None => r matches Step::Ready(Some(Err(EncoderError::Io(_)))),
                    Some(t) => {
                        let last = pre.encoder->Some_0.sink() + t;
                        &&& last.len() == 0 ==> r == Step::<E>::Ready(None)
                        &&& last.len() > 0 ==> (r matches Step::Ready(Some(Ok(v))) && v@ == last)
                    },
                }
            },
        }
    }

    fn on_chunk<E>(&mut self, c: Vec<u8>) -> (r: Step<E>)
        requires
            old(self).wf(),
            !old(self).eof,
            !old(self).in_flight,
        ensures
            final(self).wf(),
            final(self).body == old(self).body,
            Self::chunk_step(*old(self), Some(c@), *final(self), r),
    {
        match self.encoder.take() {
            None => Step::Ready(Some(Ok(c))),
            Some(mut enc) => {
                if c.len() < MAX_CHUNK_SIZE_ENCODE_IN_PLACE {
                    match enc.write(c.as_slice()) {
                        Err(e) => {
                            self.eof = true;
                            Step::Ready(Some(Err(EncoderError::Io(e))))
                        },
                        Ok(()) => {
                            let out = enc.take();
                            self.encoder = Some(enc);
                            if out.is_empty() {
                                Step::Again
                            } else {
                                Step::Ready(Some(Ok(out)))
                            }
                        },
                    }
                } else {
                    self.in_flight = true;
                    Step::Offload(enc, c)
                }
            },
        }
    }

    fn on_end<E>(&mut self) -> (r: Step<E>)
        requires
            old(self).wf(),
            !old(self).eof,
            !old(self).in_flight,
        ensures
            final(self).wf(),
            final(self).body == old(self).body,
            Self::chunk_step(*old(self), None, *final(self), r),
    {
        self.eof = true;
        match self.encoder.take() {
            None => Step::Ready(None),
            Some(enc) => {
                self.finalized = Ghost(true);
                match enc.finish() {
                    Err(e) => Step::Ready(Some(Err(EncoderError::Io(e)))),
                    Ok(out) => if out.is_empty() {
                        Step::Ready(None)
                    } else {
                        Step::Ready(Some(Ok(out)))
                    },
                }
            },
        }
    }

    /// Takes what the source stream gave when polled (after `Step::PollSource`).
    pub fn on_source<E>(&mut self, item: Pulled<Option<Result<Vec<u8>, E>>>) -> (r: Step<E>)
        requires
            old(self).wf(),
            !old(self).is_finished(),
            !old(self).job_outstanding(),
        ensures
            final(self).wf(),
            final(self).body == old(self).body,
            item is Pending ==> r is Pending && *final(self) == *old(self),
            item matches Pulled::Ready(Some(Err(e))) ==> {
                &&& r == Step::Ready(Some(Err(old(self).body_error(e))))
                &&& final(self).eof && final(self).encoder is None && !final(self).in_flight
                &&& final(self).finalized == old(self).finalized
            },
            item matches Pulled::Ready(Some(Ok(c))) ==> Self::chunk_step(
                *old(self),
                Some(c@),
                *final(self),
                r,
            ),
            item matches Pulled::Ready(None) ==> Self::chunk_step(*old(self), None, *final(self), r),
    {
        match item {
            Pulled::Pending => Step::Pending,
            Pulled::Ready(Some(Err(e))) => {
                let err = match &self.body {
                    EncoderBody::BoxedStream(_) => EncoderError::Boxed(e),
                    _ => EncoderError::Body(e),
                };
                self.encoder = None;
                self.eof = true;
                Step::Ready(Some(Err(err)))
            },
            Pulled::Ready(Some(Ok(c))) => self.on_chunk(c),
            Pulled::Ready(None) => self.on_end(),
        }
    }

    /// Takes the outcome of the background job when polled (after `Step::PollJob`).
    pub fn on_job<E>(
        &mut self,
        outcome: Pulled<Result<Result<ContentEncoder, std::io::Error>, BlockingError>>,
    ) -> (r: Step<E>)
        requires
            old(self).wf(),
            old(self).job_outstanding(),
        ensures
            final(self).wf(),
            final(self).body == old(self).body,
            final(self).finalized == old(self).finalized,
            outcome is Pending ==> r is Pending && *final(self) == *old(self),
            outcome matches Pulled::Ready(Err(_)) ==> {
                &&& r == Step::<E>::Ready(Some(Err(EncoderError::Blocking(BlockingError))))
                &&& final(self).eof && final(self).encoder is None && !final(self).in_flight
            },
            outcome matches Pulled::Ready(Ok(Err(e))) ==> {
                &&& r == Step::<E>::Ready(Some(Err(EncoderError::Io(e))))
                &&& final(self).eof && final(self).encoder is None && !final(self).in_flight
            },
            outcome matches Pulled::Ready(Ok(Ok(enc))) ==> {
                &&& !final(self).eof && !final(self).in_flight && final(self).encoder is Some
                &&& final(self).encoder->Some_0.same_compressor(enc)
                &&& final(self).encoder->Some_0.sink() == Seq::<u8>::empty()
                &&& enc.sink().len() == 0 ==> r is Again
                &&& enc.sink().len() > 0 ==> (r matches Step::Ready(Some(Ok(v))) && v@ == enc.sink())
            },
    {
        match outcome {
            Pulled::Pending => Step::Pending,
            Pulled::Ready(Err(_)) => {
                self.in_flight = false;
                self.eof = true;
                Step::Ready(Some(Err(EncoderError::Blocking(BlockingError))))
            },
            Pulled::Ready(Ok(Err(e))) => {
                self.in_flight = false;
                self.eof = true;
                Step::Ready(Some(Err(EncoderError::Io(e))))
            },
            Pulled::Ready(Ok(Ok(mut enc))) => {
                let out = enc.take();
                self.encoder = Some(enc);
                self.in_flight = false;
                if out.is_empty() {
                    Step::Again
                } else {
                    Step::Ready(Some(Ok(out)))
                }
            },
        }
    }

    /// One turn of the encoder's loop: ends a finished stream, waits on an
    /// outstanding job, or pulls the next item from the source (itself for a
    /// buffer, through the caller for a stream).
    pub fn resume<E>(&mut self) -> (r: Step<E>)
        requires
            old(self).wf(),
        ensures
            final(self).wf(),
            old(self).is_finished() ==> r == Step::<E>::Ready(None) && *final(self) == *old(self),
            !old(self).is_finished() && old(self).job_outstanding() ==> r is PollJob
                && *final(self) == *old(self),
            !old(self).is_finished() && !old(self).job_outstanding() && !(old(self).body is Bytes)
                ==> r is PollSource && *final(self) == *old(self),
            !old(self).is_finished() && !old(self).job_outstanding() && old(self).body is Bytes
                ==> {
                &&& final(self).body is Bytes
                &&& final(self).body->Bytes_0@ == Seq::<u8>::empty()
                &&& Self::chunk_step(
                    *old(self),
                    if old(self).body->Bytes_0@.len() == 0 {
                        None
                    } else {
                        Some(old(self).body->Bytes_0@)
                    },
                    *final(self),
                    r,
                )
            },
    {
        if self.eof {
            return Step::Ready(None);
        }
        if self.in_flight {
            return Step::PollJob;
        }
        let is_bytes = match &self.body {
            EncoderBody::Bytes(_) => true,
            _ => false,
        };
        if !is_bytes {
            return Step::PollSource;
        }
        match self.body.poll_bytes() {
            None => self.on_end(),
            Some(c) => self.on_chunk(c),
        }
    }

    /// The size of the encoded body: that of the source when nothing is compressed,
    /// unknown otherwise. `inner` is what a wrapped stream reports of itself.
    pub fn size(&self, inner: BodySize) -> (r: BodySize)
        ensures
            !self.codec_live() ==> r == self.body.size_of(inner),
            self.codec_live() ==> r == BodySize::Stream,
    {
        if self.encoder.is_none() && !self.in_flight {
            self.body.size(inner)
        } else {
            BodySize::Stream
        }
    }
}

/// Whether `response` hands a body back as it came, without an encoder.
pub open spec fn kept_as_is<B, M>(body: ResponseBody<B, M>, can: bool) -> bool {
    match body {
        ResponseBody::Other(Body::Nothing) | ResponseBody::Other(Body::Empty) => true,
        ResponseBody::Other(Body::Bytes(_)) => !can,
        _ => false,
    }
}

/// The source that `response` wraps for a body that it does not hand back as it came.
pub open spec fn source_of<B, M>(body: ResponseBody<B, M>) -> EncoderBody<B, M> {
    match body {
        ResponseBody::Body(s) => EncoderBody::Stream(s),
        ResponseBody::Other(Body::Message(m)) => EncoderBody::BoxedStream(m),
        ResponseBody::Other(Body::Bytes(b)) => EncoderBody::Bytes(b),
        _ => arbitrary(),
    }
}

impl<B, M> Encoder<B, M> {
    /// Decides whether the response is encoded with `encoding` and wraps its body.
    ///
    /// No body, an empty body, and a buffer that may not be encoded come back as
    /// they are. Any other body is wrapped in an encoder, which compresses only if
    /// the response may be encoded and a codec for `encoding` can be built; in that
    /// case the head gets the `Content-Encoding` header and chunked transfer is
    /// allowed. Otherwise the head is left as it is.
    pub fn response(
        encoding: ContentEncoding,
        head: &mut ResponseHead,
        body: ResponseBody<B, M>,
    ) -> (r: ResponseBody<Encoder<B, M>, M>)
        ensures
            kept_as_is(body, encodable(encoding, *old(head))) ==> {
                &&& r == ResponseBody::<Encoder<B, M>, M>::Other(body->Other_0)
                &&& *final(head) == *old(head)
            },
            !kept_as_is(body, encodable(encoding, *old(head))) ==> {
                &&& r is Body
                &&& r->Body_0.wf()
                &&& r->Body_0.body == source_of(body)
                &&& !r->Body_0.is_finished() && !r->Body_0.job_outstanding()
                &&& !r->Body_0.finalized()
                &&& !encodable(encoding, *old(head)) ==> r->Body_0.codec() is None
                &&& encodable(encoding, *old(head)) && encoding != ContentEncoding::Zstd
                    ==> r->Body_0.codec() is Some
                &&& encodable(encoding, *old(head)) && encoding == ContentEncoding::Zstd
                    ==> (r->Body_0.codec() is Some) == zstd_level_ok(ZSTD_LEVEL)
                &&& r->Body_0.codec() is None ==> *final(head) == *old(head)
                &&& r->Body_0.codec() is Some ==> {
                    &&& r->Body_0.codec()->Some_0.coding() == encoding
                    &&& r->Body_0.codec()->Some_0.level() == level_of(encoding)
                    &&& r->Body_0.codec()->Some_0.fed() == Seq::<Seq<u8>>::empty()
                    &&& r->Body_0.codec()->Some_0.sink() == Seq::<u8>::empty()
                    &&& final(head).content_encoding is Some
                    &&& final(head).content_encoding->Some_0@ == encoding_name(encoding)
                    &&& !final(head).no_chunking
                    &&& final(head).status == old(head).status
                }
            },
    {
        let can = can_encode(encoding, head);
        let source = match body {
            ResponseBody::Other(b) => match b {
                Body::Nothing => return ResponseBody::Other(Body::Nothing),
                Body::Empty => return ResponseBody::Other(Body::Empty),
                Body::Bytes(buf) => {
                    if can {
                        EncoderBody::Bytes(buf)
                    } else {
                        return ResponseBody::Other(Body::Bytes(buf));
                    }
                },
                Body::Message(stream) => EncoderBody::BoxedStream(stream),
            },
            ResponseBody::Body(stream) => EncoderBody::Stream(stream),
        };
        if can {
            if let Some(enc) = ContentEncoder::encoder(encoding) {
                update_head(encoding, head);
                head.no_chunking(false);
                return ResponseBody::Body(Encoder::new(source, Some(enc)));
            }
        }
        ResponseBody::Body(Encoder::new(source, None))
    }
}

/// "No compression" and "let the server choose" never encode, so `response`
/// leaves the head as it is and wraps the body without a codec.
pub proof fn identity_never_encodes(encoding: ContentEncoding, head: ResponseHead)
    requires
        encoding == ContentEncoding::Identity || encoding == ContentEncoding::Auto,
    ensures
        !encodable(encoding, head),
{
}

/// A status that forbids a body, or a switch of protocols, is never encoded.
pub proof fn bodiless_status_never_encodes(encoding: ContentEncoding, head: ResponseHead)
    requires
        head.status.0 == NO_CONTENT || head.status.0 == SWITCHING_PROTOCOLS,
    ensures
        !encodable(encoding, head),
{
}

/// Without a codec, a chunk comes out byte for byte as it went in, and the end of
/// the source is the end of the stream.
pub proof fn pass_through_identity<B, M, E>(
    pre: Encoder<B, M>,
    chunk: Option<Seq<u8>>,
    post: Encoder<B, M>,
    r: Step<E>,
)
    requires
        pre.codec() is None,
        Encoder::chunk_step(pre, chunk, post, r),
    ensures
        chunk matches Some(c) ==> (r matches Step::Ready(Some(Ok(v))) && v@ == c),
        chunk is None ==> r == Step::<E>::Ready(None),
        post.codec() is None && post.finalized() == pre.finalized(),
{
}

/// With a codec, no chunk that the encoder emits is empty.
pub proof fn no_empty_chunks<B, M, E>(
    pre: Encoder<B, M>,
    chunk: Option<Seq<u8>>,
    post: Encoder<B, M>,
    r: Step<E>,
)
    requires
        pre.codec() is Some,
        Encoder::chunk_step(pre, chunk, post, r),
    ensures
        r matches Step::Ready(Some(Ok(v))) ==> v@.len() > 0,
{
}

/// The codec is finished only when the source ends, and then the stream is over:
/// once finished, it can never be finished again nor emit anything more.
pub proof fn finish_exactly_at_end<B, M, E>(
    pre: Encoder<B, M>,
    chunk: Option<Seq<u8>>,
    post: Encoder<B, M>,
    r: Step<E>,
)
    requires
        pre.wf(),
        !pre.is_finished(),
        Encoder::chunk_step(pre, chunk, post, r),
    ensures
        post.finalized() ==> chunk is None,
        chunk is None && pre.codec() is Some ==> post.finalized(),
        post.finalized() ==> post.is_finished() && !post.codec_live(),
{
}

/// Handing a chunk to a background job moves the codec into it: from then on the
/// encoder holds no codec, so it cannot start a second job, and the job's codec
/// is the one the encoder held.
pub proof fn single_flight<B, M, E>(
    pre: Encoder<B, M>,
    chunk: Option<Seq<u8>>,
    post: Encoder<B, M>,
    r: Step<E>,
)
    requires
        Encoder::chunk_step(pre, chunk, post, r),
        r is Offload,
    ensures
        pre.codec() is Some,
        r->Offload_0 == pre.codec()->Some_0,
        post.job_outstanding() && post.codec() is None && !post.is_finished(),
{
}

/// A finished stream (ended, or failed) holds no codec and no job, so it can
/// neither emit nor finish anything more.
pub proof fn finished_is_inert<B, M>(s: Encoder<B, M>)
    requires
        s.wf(),
        s.is_finished(),
    ensures
        !s.codec_live(),
{
}

/// The bytes a step hands out: the chunk it emits, or nothing.
pub open spec fn emitted<E>(r: Step<E>) -> Seq<u8> {
    match r {
        Step::Ready(Some(Ok(v))) => v@,
        _ => Seq::<u8>::empty(),
    }
}

/// With a codec, no compressed byte is lost, held back or handed out twice: a chunk
/// written in place hands out exactly what the codec appended for it, and the end
/// hands out exactly what finishing appended (the trailer), after which the stream
/// is over.
pub proof fn emits_codec_output<B, M, E>(
    pre: Encoder<B, M>,
    chunk: Option<Seq<u8>>,
    post: Encoder<B, M>,
    r: Step<E>,
)
    requires
        pre.wf(),
        pre.codec() is Some,
        Encoder::chunk_step(pre, chunk, post, r),
    ensures
        chunk is Some && chunk->Some_0.len() < MAX_CHUNK_SIZE_ENCODE_IN_PLACE
            && pre.codec()->Some_0.written(chunk->Some_0) is Some ==> emitted(r)
            == pre.codec()->Some_0.written(chunk->Some_0)->Some_0 && post.codec()->Some_0.sink()
            == Seq::<u8>::empty(),
        chunk is None && pre.codec()->Some_0.rest() is Some ==> emitted(r)
            == pre.codec()->Some_0.rest()->Some_0 && post.is_finished() && post.finalized(),
{
    let enc = pre.codec()->Some_0;
    assert(enc.sink() == Seq::<u8>::empty());
    match chunk {
        Some(c) => {
            if c.len() < MAX_CHUNK_SIZE_ENCODE_IN_PLACE && enc.written(c) is Some {
                assert(enc.sink() + enc.written(c)->Some_0 =~= enc.written(c)->Some_0);
            }
        },
        None => {
            if enc.rest() is Some {
                assert(enc.sink() + enc.rest()->Some_0 =~= enc.rest()->Some_0);
            }
        },
    }
}

} // verus!
