//! The compression backends behind one uniform write / take / finish interface.
//!
//! Each backend compresses into an in-memory output buffer (the sink). Bytes that
//! the backend produces accumulate in the sink until `take` moves them out.

use vstd::prelude::*;

use brotli2::write::BrotliEncoder;
use flate2::write::{GzEncoder, ZlibEncoder};
use std::io::Write;
use zstd::stream::write::Encoder as ZstdEncoder;

verus! {

#[verifier::external_type_specification]
#[verifier::external_body]
pub struct ExIoError(std::io::Error);

/// An identifier of a content coding, as carried by the `Content-Encoding` header.
#[derive(Clone, Copy, Debug, PartialEq, Eq, Structural)]
pub enum ContentEncoding {
    /// Let the server choose.
    Auto,
    Br,
    Deflate,
    Gzip,
    Zstd,
    /// No compression.
    Identity,
}

/// The header value of a coding; `Auto` is written as `identity`.
pub open spec fn encoding_name(e: ContentEncoding) -> Seq<char> {
    match e {
        ContentEncoding::Br => "br"@,
        ContentEncoding::Deflate => "deflate"@,
        ContentEncoding::Gzip => "gzip"@,
        ContentEncoding::Zstd => "zstd"@,
        ContentEncoding::Identity | ContentEncoding::Auto => "identity"@,
    }
}

/// Whether a coding names an actual compression algorithm.
pub open spec fn is_compressing(e: ContentEncoding) -> bool {
    match e {
        ContentEncoding::Br | ContentEncoding::Deflate | ContentEncoding::Gzip
        | ContentEncoding::Zstd => true,
        _ => false,
    }
}

impl ContentEncoding {
    pub fn as_str(&self) -> (r: &'static str)
        ensures
            r@ == encoding_name(*self),
    {
        match self {
            ContentEncoding::Br => "br",
            ContentEncoding::Deflate => "deflate",
            ContentEncoding::Gzip => "gzip",
            ContentEncoding::Zstd => "zstd",
            ContentEncoding::Identity | ContentEncoding::Auto => "identity",
        }
    }
}

/// A zlib (`deflate`) stream writing into a byte buffer.
#[verifier::external_body]
pub struct DeflateStream {
    inner: ZlibEncoder<Vec<u8>>,
}

/// The bytes that sit in a zlib stream's output buffer.
pub uninterp spec fn deflate_sink(s: DeflateStream) -> Seq<u8>;

/// The level a zlib stream was built with.
pub uninterp spec fn deflate_level(s: DeflateStream) -> u32;

/// The blocks of input written to a zlib stream so far, one per successful write.
pub uninterp spec fn deflate_fed(s: DeflateStream) -> Seq<Seq<u8>>;

/// What writing `data` appends to the output of a zlib stream built at `level` and fed
/// `fed` before; `None` where the write fails.
pub uninterp spec fn deflate_out(level: u32, fed: Seq<Seq<u8>>, data: Seq<u8>) -> Option<Seq<u8>>;

/// What finishing a zlib stream built at `level` and fed `fed` appends to its output;
/// `None` where finishing fails.
pub uninterp spec fn deflate_end(level: u32, fed: Seq<Seq<u8>>) -> Option<Seq<u8>>;

/// A gzip stream writing into a byte buffer.
#[verifier::external_body]
pub struct GzipStream {
    inner: GzEncoder<Vec<u8>>,
}

/// The bytes that sit in a gzip stream's output buffer.
pub uninterp spec fn gzip_sink(s: GzipStream) -> Seq<u8>;

/// The level a gzip stream was built with.
pub uninterp spec fn gzip_level(s: GzipStream) -> u32;

/// The blocks of input written to a gzip stream so far, one per successful write.
pub uninterp spec fn gzip_fed(s: GzipStream) -> Seq<Seq<u8>>;

/// What writing `data` appends to the output of a gzip stream built at `level` and fed
/// `fed` before; `None` where the write fails.
pub uninterp spec fn gzip_out(level: u32, fed: Seq<Seq<u8>>, data: Seq<u8>) -> Option<Seq<u8>>;

/// What finishing a gzip stream built at `level` and fed `fed` appends to its output;
/// `None` where finishing fails.
pub uninterp spec fn gzip_end(level: u32, fed: Seq<Seq<u8>>) -> Option<Seq<u8>>;

/// A brotli stream writing into a byte buffer.
#[verifier::external_body]
pub struct BrotliStream {
    inner: BrotliEncoder<Vec<u8>>,
}

/// The bytes that sit in a brotli stream's output buffer.
pub uninterp spec fn brotli_sink(s: BrotliStream) -> Seq<u8>;

/// The level a brotli stream was built with.
pub uninterp spec fn brotli_level(s: BrotliStream) -> u32;

/// The blocks of input written to a brotli stream so far, one per successful write.
pub uninterp spec fn brotli_fed(s: BrotliStream) -> Seq<Seq<u8>>;

/// What writing `data` appends to the output of a brotli stream built at `level` and fed
/// `fed` before; `None` where the write fails.
pub uninterp spec fn brotli_out(level: u32, fed: Seq<Seq<u8>>, data: Seq<u8>) -> Option<Seq<u8>>;

/// What finishing a brotli stream built at `level` and fed `fed` appends to its output;
/// `None` where finishing fails.
pub uninterp spec fn brotli_end(level: u32, fed: Seq<Seq<u8>>) -> Option<Seq<u8>>;

/// A zstd stream writing into a byte buffer.
#[verifier::external_body]
pub struct ZstdStream {
    inner: ZstdEncoder<'static, Vec<u8>>,
}

/// The bytes that sit in a zstd stream's output buffer.
pub uninterp spec fn zstd_sink(s: ZstdStream) -> Seq<u8>;

/// The level a zstd stream was built with.
pub uninterp spec fn zstd_level(s: ZstdStream) -> i32;

/// The blocks of input written to a zstd stream so far, one per successful write.
pub uninterp spec fn zstd_fed(s: ZstdStream) -> Seq<Seq<u8>>;

/// What writing `data` appends to the output of a zstd stream built at `level` and fed
/// `fed` before; `None` where the write fails.
pub uninterp spec fn zstd_out(level: i32, fed: Seq<Seq<u8>>, data: Seq<u8>) -> Option<Seq<u8>>;

/// What finishing a zstd stream built at `level` and fed `fed` appends to its output;
/// `None` where finishing fails.
pub uninterp spec fn zstd_end(level: i32, fed: Seq<Seq<u8>>) -> Option<Seq<u8>>;

/// Whether zstd accepts a compression level (with no dictionary).
pub uninterp spec fn zstd_level_ok(level: i32) -> bool;

impl DeflateStream {
    /// Relies on `flate2::write::ZlibEncoder::new` at a level of flate2's 0-9 scale, over an empty buffer.
    #[verifier::external_body]
    fn new(level: u32) -> (r: DeflateStream)
        requires
            level <= 9,
        ensures
            deflate_sink(r) == Seq::<u8>::empty(),
            deflate_level(r) == level,
            deflate_fed(r) == Seq::<Seq<u8>>::empty(),
    {
        DeflateStream { inner: ZlibEncoder::new(Vec::new(), flate2::Compression::new(level)) }
    }

    /// Relies on `Write::write_all` of `ZlibEncoder`, which only appends to the buffer; what
    /// it appends depends on the level and the input alone, never on the buffer.
    #[verifier::external_body]
    fn write(&mut self, data: &[u8]) -> (r: Result<(), std::io::Error>)
        ensures
            deflate_sink(*old(self)).is_prefix_of(deflate_sink(*final(self))),
            deflate_level(*final(self)) == deflate_level(*old(self)),
            (r is Ok) == (deflate_out(deflate_level(*old(self)), deflate_fed(*old(self)), data@) is Some),
            r is Ok ==> deflate_sink(*final(self)) == deflate_sink(*old(self)) + deflate_out(
                deflate_level(*old(self)),
                deflate_fed(*old(self)),
                data@,
            )->Some_0,
            r is Ok ==> deflate_fed(*final(self)) == deflate_fed(*old(self)).push(data@),
    {
        self.inner.write_all(data)
    }

    /// Relies on `ZlibEncoder::get_mut`: `std::mem::take` on the buffer moves out its bytes
    /// and leaves the compressor as it was.
    #[verifier::external_body]
    fn take(&mut self) -> (r: Vec<u8>)
        ensures
            r@ == deflate_sink(*old(self)),
            deflate_sink(*final(self)) == Seq::<u8>::empty(),
            deflate_level(*final(self)) == deflate_level(*old(self)),
            deflate_fed(*final(self)) == deflate_fed(*old(self)),
    {
        std::mem::take(self.inner.get_mut())
    }

    /// Relies on `ZlibEncoder::finish`, which writes the zlib trailer and returns the buffer.
    #[verifier::external_body]
    fn finish(self) -> (r: Result<Vec<u8>, std::io::Error>)
        ensures
            (r is Ok) == (deflate_end(deflate_level(self), deflate_fed(self)) is Some),
            r is Ok ==> r->Ok_0@ == deflate_sink(self) + deflate_end(deflate_level(self), deflate_fed(self))->Some_0,
    {
        self.inner.finish()
    }
}

impl GzipStream {
    /// Relies on `flate2::write::GzEncoder::new` at a level of flate2's 0-9 scale, over an empty buffer.
    #[verifier::external_body]
    fn new(level: u32) -> (r: GzipStream)
        requires
            level <= 9,
        ensures
            gzip_sink(r) == Seq::<u8>::empty(),
            gzip_level(r) == level,
            gzip_fed(r) == Seq::<Seq<u8>>::empty(),
    {
        GzipStream { inner: GzEncoder::new(Vec::new(), flate2::Compression::new(level)) }
    }

    /// Relies on `Write::write_all` of `GzEncoder`, which only appends to the buffer; what
    /// it appends depends on the level and the input alone, never on the buffer.
    #[verifier::external_body]
    fn write(&mut self, data: &[u8]) -> (r: Result<(), std::io::Error>)
        ensures
            gzip_sink(*old(self)).is_prefix_of(gzip_sink(*final(self))),
            gzip_level(*final(self)) == gzip_level(*old(self)),
            (r is Ok) == (gzip_out(gzip_level(*old(self)), gzip_fed(*old(self)), data@) is Some),
            r is Ok ==> gzip_sink(*final(self)) == gzip_sink(*old(self)) + gzip_out(
                gzip_level(*old(self)),
                gzip_fed(*old(self)),
                data@,
            )->Some_0,
            r is Ok ==> gzip_fed(*final(self)) == gzip_fed(*old(self)).push(data@),
    {
        self.inner.write_all(data)
    }

    /// Relies on `GzEncoder::get_mut`: `std::mem::take` on the buffer moves out its bytes
    /// and leaves the compressor as it was.
    #[verifier::external_body]
    fn take(&mut self) -> (r: Vec<u8>)
        ensures
            r@ == gzip_sink(*old(self)),
            gzip_sink(*final(self)) == Seq::<u8>::empty(),
            gzip_level(*final(self)) == gzip_level(*old(self)),
            gzip_fed(*final(self)) == gzip_fed(*old(self)),
    {
        std::mem::take(self.inner.get_mut())
    }

    /// Relies on `GzEncoder::finish`, which writes the gzip trailer and returns the buffer.
    #[verifier::external_body]
    fn finish(self) -> (r: Result<Vec<u8>, std::io::Error>)
        ensures
            (r is Ok) == (gzip_end(gzip_level(self), gzip_fed(self)) is Some),
            r is Ok ==> r->Ok_0@ == gzip_sink(self) + gzip_end(gzip_level(self), gzip_fed(self))->Some_0,
            r is Ok ==> gzip_end(gzip_level(self), gzip_fed(self))->Some_0.len() >= 8,
    {
        self.inner.finish()
    }
}

impl BrotliStream {
    /// Relies on `brotli2::write::BrotliEncoder::new` at a quality of brotli's 0-11 scale, over an empty buffer.
    #[verifier::external_body]
    fn new(level: u32) -> (r: BrotliStream)
        requires
            level <= 11,
        ensures
            brotli_sink(r) == Seq::<u8>::empty(),
            brotli_level(r) == level,
            brotli_fed(r) == Seq::<Seq<u8>>::empty(),
    {
        BrotliStream { inner: BrotliEncoder::new(Vec::new(), level) }
    }

    /// Relies on `Write::write_all` of `BrotliEncoder`, which only appends to the buffer; what
    /// it appends depends on the level and the input alone, never on the buffer.
    #[verifier::external_body]
    fn write(&mut self, data: &[u8]) -> (r: Result<(), std::io::Error>)
        ensures
            brotli_sink(*old(self)).is_prefix_of(brotli_sink(*final(self))),
            brotli_level(*final(self)) == brotli_level(*old(self)),
            (r is Ok) == (brotli_out(brotli_level(*old(self)), brotli_fed(*old(self)), data@) is Some),
            r is Ok ==> brotli_sink(*final(self)) == brotli_sink(*old(self)) + brotli_out(
                brotli_level(*old(self)),
                brotli_fed(*old(self)),
                data@,
            )->Some_0,
            r is Ok ==> brotli_fed(*final(self)) == brotli_fed(*old(self)).push(data@),
    {
        self.inner.write_all(data)
    }

    /// Relies on `BrotliEncoder::get_mut`: `std::mem::take` on the buffer moves out its bytes
    /// and leaves the compressor as it was.
    #[verifier::external_body]
    fn take(&mut self) -> (r: Vec<u8>)
        ensures
            r@ == brotli_sink(*old(self)),
            brotli_sink(*final(self)) == Seq::<u8>::empty(),
            brotli_level(*final(self)) == brotli_level(*old(self)),
            brotli_fed(*final(self)) == brotli_fed(*old(self)),
    {
        std::mem::take(self.inner.get_mut())
    }

    /// Relies on `BrotliEncoder::finish`, which writes the end of the brotli stream and returns the buffer.
    #[verifier::external_body]
    fn finish(self) -> (r: Result<Vec<u8>, std::io::Error>)
        ensures
            (r is Ok) == (brotli_end(brotli_level(self), brotli_fed(self)) is Some),
            r is Ok ==> r->Ok_0@ == brotli_sink(self) + brotli_end(brotli_level(self), brotli_fed(self))->Some_0,
    {
        self.inner.finish()
    }
}

impl ZstdStream {
    /// Relies on `zstd::stream::write::Encoder::new`, over an empty buffer; it fails
    /// where zstd refuses the level.
    #[verifier::external_body]
    fn new(level: i32) -> (r: Option<ZstdStream>)
        ensures
            (r is Some) == zstd_level_ok(level),
            r is Some ==> zstd_sink(r->Some_0) == Seq::<u8>::empty(),
            r is Some ==> zstd_level(r->Some_0) == level,
            r is Some ==> zstd_fed(r->Some_0) == Seq::<Seq<u8>>::empty(),
    {
        ZstdEncoder::new(Vec::new(), level).ok().map(|inner| ZstdStream { inner })
    }

    /// Relies on `Write::write_all` of `zstd `Encoder``, which only appends to the buffer; what
    /// it appends depends on the level and the input alone, never on the buffer.
    #[verifier::external_body]
    fn write(&mut self, data: &[u8]) -> (r: Result<(), std::io::Error>)
        ensures
            zstd_sink(*old(self)).is_prefix_of(zstd_sink(*final(self))),
            zstd_level(*final(self)) == zstd_level(*old(self)),
            (r is Ok) == (zstd_out(zstd_level(*old(self)), zstd_fed(*old(self)), data@) is Some),
            r is Ok ==> zstd_sink(*final(self)) == zstd_sink(*old(self)) + zstd_out(
                zstd_level(*old(self)),
                zstd_fed(*old(self)),
                data@,
            )->Some_0,
            r is Ok ==> zstd_fed(*final(self)) == zstd_fed(*old(self)).push(data@),
    {
        self.inner.write_all(data)
    }

    /// Relies on `zstd `Encoder`::get_mut`: `std::mem::take` on the buffer moves out its bytes
    /// and leaves the compressor as it was.
    #[verifier::external_body]
    fn take(&mut self) -> (r: Vec<u8>)
        ensures
            r@ == zstd_sink(*old(self)),
            zstd_sink(*final(self)) == Seq::<u8>::empty(),
            zstd_level(*final(self)) == zstd_level(*old(self)),
            zstd_fed(*final(self)) == zstd_fed(*old(self)),
    {
        std::mem::take(self.inner.get_mut())
    }

    /// Relies on `zstd `Encoder`::finish`, which writes the end of the zstd frame and returns the buffer.
    #[verifier::external_body]
    fn finish(self) -> (r: Result<Vec<u8>, std::io::Error>)
        ensures
            (r is Ok) == (zstd_end(zstd_level(self), zstd_fed(self)) is Some),
            r is Ok ==> r->Ok_0@ == zstd_sink(self) + zstd_end(zstd_level(self), zstd_fed(self))->Some_0,
    {
        self.inner.finish()
    }
}

/// The flate2 level (of 0-9) used for gzip and deflate: the fastest that compresses.
pub const FLATE_LEVEL: u32 = 1;

/// The brotli quality used (of 0-11).
pub const BROTLI_LEVEL: u32 = 3;

/// The zstd level used.
pub const ZSTD_LEVEL: i32 = 3;

/// The level each coding is compressed at.
pub open spec fn level_of(e: ContentEncoding) -> int {
    match e {
        ContentEncoding::Br => BROTLI_LEVEL as int,
        ContentEncoding::Zstd => ZSTD_LEVEL as int,
        _ => FLATE_LEVEL as int,
    }
}

/// A compression algorithm instance together with its sink.
pub enum ContentEncoder {
    Deflate(DeflateStream),
    Gzip(GzipStream),
    Br(BrotliStream),
    Zstd(ZstdStream),
}

impl ContentEncoder {
    /// The coding this instance produces.
    pub open spec fn coding(&self) -> ContentEncoding {
        match self {
            ContentEncoder::Deflate(_) => ContentEncoding::Deflate,
            ContentEncoder::Gzip(_) => ContentEncoding::Gzip,
            ContentEncoder::Br(_) => ContentEncoding::Br,
            ContentEncoder::Zstd(_) => ContentEncoding::Zstd,
        }
    }

    /// The compressed bytes produced so far and not yet taken.
    pub open spec fn sink(&self) -> Seq<u8> {
        match self {
            ContentEncoder::Deflate(s) => deflate_sink(*s),
            ContentEncoder::Gzip(s) => gzip_sink(*s),
            ContentEncoder::Br(s) => brotli_sink(*s),
            ContentEncoder::Zstd(s) => zstd_sink(*s),
        }
    }

    /// The level the algorithm was built with.
    pub open spec fn level(&self) -> int {
        match self {
            ContentEncoder::Deflate(s) => deflate_level(*s) as int,
            ContentEncoder::Gzip(s) => gzip_level(*s) as int,
            ContentEncoder::Br(s) => brotli_level(*s) as int,
            ContentEncoder::Zstd(s) => zstd_level(*s) as int,
        }
    }

    /// The blocks of input written so far, one per successful write.
    pub open spec fn fed(&self) -> Seq<Seq<u8>> {
        match self {
            ContentEncoder::Deflate(s) => deflate_fed(*s),
            ContentEncoder::Gzip(s) => gzip_fed(*s),
            ContentEncoder::Br(s) => brotli_fed(*s),
            ContentEncoder::Zstd(s) => zstd_fed(*s),
        }
    }

    /// Two instances that compress alike from here on: same algorithm, same
    /// level, same input so far (their buffers aside).
    pub open spec fn same_compressor(&self, other: ContentEncoder) -> bool {
        &&& self.coding() == other.coding()
        &&& self.level() == other.level()
        &&& self.fed() == other.fed()
    }

    /// What writing `data` appends to the sink; `None` where the write fails.
    pub open spec fn written(&self, data: Seq<u8>) -> Option<Seq<u8>> {
        match self {
            ContentEncoder::Deflate(s) => deflate_out(deflate_level(*s), deflate_fed(*s), data),
            ContentEncoder::Gzip(s) => gzip_out(gzip_level(*s), gzip_fed(*s), data),
            ContentEncoder::Br(s) => brotli_out(brotli_level(*s), brotli_fed(*s), data),
            ContentEncoder::Zstd(s) => zstd_out(zstd_level(*s), zstd_fed(*s), data),
        }
    }

    /// What finishing appends to the sink (the algorithm's trailer and whatever
    /// it still held back); `None` where finishing fails.
    pub open spec fn rest(&self) -> Option<Seq<u8>> {
        match self {
            ContentEncoder::Deflate(s) => deflate_end(deflate_level(*s), deflate_fed(*s)),
            ContentEncoder::Gzip(s) => gzip_end(gzip_level(*s), gzip_fed(*s)),
            ContentEncoder::Br(s) => brotli_end(brotli_level(*s), brotli_fed(*s)),
            ContentEncoder::Zstd(s) => zstd_end(zstd_level(*s), zstd_fed(*s)),
        }
    }

    /// Builds the backend for a coding; `None` for a coding that compresses nothing,
    /// and for zstd where its level is refused.
    pub fn encoder(encoding: ContentEncoding) -> (r: Option<ContentEncoder>)
        ensures
            !is_compressing(encoding) ==> r is None,
            r is Some ==> r->Some_0.coding() == encoding && r->Some_0.sink() == Seq::<u8>::empty(),
            r is Some ==> r->Some_0.fed() == Seq::<Seq<u8>>::empty(),
            r is Some ==> r->Some_0.level() == level_of(encoding),
            is_compressing(encoding) && encoding != ContentEncoding::Zstd ==> r is Some,
            encoding == ContentEncoding::Zstd ==> (r is Some) == zstd_level_ok(ZSTD_LEVEL),
    {
        match encoding {
            ContentEncoding::Deflate => Some(ContentEncoder::Deflate(DeflateStream::new(FLATE_LEVEL))),
            ContentEncoding::Gzip => Some(ContentEncoder::Gzip(GzipStream::new(FLATE_LEVEL))),
            ContentEncoding::Br => Some(ContentEncoder::Br(BrotliStream::new(BROTLI_LEVEL))),
            ContentEncoding::Zstd => match ZstdStream::new(ZSTD_LEVEL) {
                Some(s) => Some(ContentEncoder::Zstd(s)),
                None => None,
            },
            _ => None,
        }
    }

    /// Moves out every byte the sink holds, leaving it empty.
    pub fn take(&mut self) -> (r: Vec<u8>)
        ensures
            r@ == old(self).sink(),
            final(self).sink() == Seq::<u8>::empty(),
            final(self).same_compressor(*old(self)),
            forall|d: Seq<u8>| #[trigger] final(self).written(d) == old(self).written(d),
            final(self).rest() == old(self).rest(),
    {
        match self {
            ContentEncoder::Deflate(s) => s.take(),
            ContentEncoder::Gzip(s) => s.take(),
            ContentEncoder::Br(s) => s.take(),
            ContentEncoder::Zstd(s) => s.take(),
        }
    }

    /// Feeds bytes to the algorithm; the output it produces is appended to the sink.
    pub fn write(&mut self, data: &[u8]) -> (r: Result<(), std::io::Error>)
        ensures
            final(self).coding() == old(self).coding(),
            old(self).sink().is_prefix_of(final(self).sink()),
            (r is Ok) == (old(self).written(data@) is Some),
            r is Ok ==> final(self).sink() == old(self).sink() + old(self).written(data@)->Some_0,
            final(self).level() == old(self).level(),
            r is Ok ==> final(self).fed() == old(self).fed().push(data@),
    {
        match self {
            ContentEncoder::Deflate(s) => s.write(data),
            ContentEncoder::Gzip(s) => s.write(data),
            ContentEncoder::Br(s) => s.write(data),
            ContentEncoder::Zstd(s) => s.write(data),
        }
    }

    /// Finalizes the algorithm (writing its trailer) and returns what the sink then
    /// holds: the untaken output followed by what finishing appends.
    pub fn finish(self) -> (r: Result<Vec<u8>, std::io::Error>)
        ensures
            (r is Ok) == (self.rest() is Some),
            r is Ok ==> r->Ok_0@ == self.sink() + self.rest()->Some_0,
            r is Ok && self.coding() == ContentEncoding::Gzip ==> self.rest()->Some_0.len() >= 8,
    {
        match self {
            ContentEncoder::Deflate(s) => s.finish(),
            ContentEncoder::Gzip(s) => s.finish(),
            ContentEncoder::Br(s) => s.finish(),
            ContentEncoder::Zstd(s) => s.finish(),
        }
    }
}

/// What a compressor appends for each write, and at its end, depends on its
/// algorithm, its level and the input written so far alone: not on what sits in
/// its buffer, nor on when that was taken. So two runs that write the same blocks
/// give the same output in total, wherever `take` was called.
pub proof fn output_ignores_buffer(a: ContentEncoder, b: ContentEncoder)
    requires
        a.same_compressor(b),
    ensures
        forall|d: Seq<u8>| #[trigger] a.written(d) == b.written(d),
        a.rest() == b.rest(),
{
}

} // verus!
