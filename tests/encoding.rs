use std::collections::VecDeque;
use std::io::Read;

use actix_encoding::body::{Body, BodySize, ResponseBody, ResponseHead, StatusCode};
use actix_encoding::codec::{ContentEncoder, ContentEncoding};
use actix_encoding::encoder::{
    can_encode, BlockingError, Encoder, EncoderBody, EncoderError, Pulled, Step,
    MAX_CHUNK_SIZE_ENCODE_IN_PLACE,
};

type Enc = Encoder<(), ()>;

struct Run {
    items: Vec<Result<Vec<u8>, EncoderError<String>>>,
    max_outstanding: usize,
    finished_by_end: bool,
}

/// Drives the encoder to its end, feeding it `source` when it asks and running
/// each offloaded job in place, as a worker pool would.
fn drive(enc: &mut Enc, source: Vec<Result<Vec<u8>, String>>) -> Run {
    let mut source: VecDeque<Result<Vec<u8>, String>> = source.into_iter().collect();
    let mut items = Vec::new();
    let mut outstanding = 0usize;
    let mut max_outstanding = 0usize;
    let mut job: Option<Result<ContentEncoder, std::io::Error>> = None;
    let mut step: Step<String> = enc.resume();
    loop {
        step = match step {
            Step::Again => enc.resume(),
            Step::PollSource => {
                let item = match source.pop_front() {
                    Some(c) => Pulled::Ready(Some(c)),
                    None => Pulled::Ready(None),
                };
                enc.on_source(item)
            }
            Step::Offload(mut codec, chunk) => {
                outstanding += 1;
                max_outstanding = max_outstanding.max(outstanding);
                assert!(job.is_none());
                job = Some(codec.write(&chunk).map(|_| codec));
                enc.resume()
            }
            Step::PollJob => {
                let outcome = job.take().expect("a job is outstanding");
                outstanding -= 1;
                enc.on_job(Pulled::Ready(Ok(outcome)))
            }
            Step::Pending => panic!("nothing here suspends"),
            Step::Ready(None) => {
                return Run { items, max_outstanding, finished_by_end: true };
            }
            Step::Ready(Some(item)) => {
                items.push(item);
                enc.resume()
            }
        };
    }
}

fn chunks_of(run: &Run) -> Vec<Vec<u8>> {
    run.items
        .iter()
        .map(|i| match i {
            Ok(c) => c.clone(),
            Err(_) => panic!("unexpected failure"),
        })
        .collect()
}

fn decode(encoding: ContentEncoding, data: &[u8]) -> Vec<u8> {
    let mut out = Vec::new();
    match encoding {
        ContentEncoding::Gzip => {
            flate2::read::GzDecoder::new(data).read_to_end(&mut out).unwrap();
        }
        ContentEncoding::Deflate => {
            flate2::read::ZlibDecoder::new(data).read_to_end(&mut out).unwrap();
        }
        ContentEncoding::Br => {
            brotli2::read::BrotliDecoder::new(data).read_to_end(&mut out).unwrap();
        }
        ContentEncoding::Zstd => {
            out = zstd::stream::decode_all(data).unwrap();
        }
        _ => out.extend_from_slice(data),
    }
    out
}

fn encoder_for(encoding: ContentEncoding, body: EncoderBody<(), ()>) -> Enc {
    let mut head = ResponseHead::new(StatusCode(200));
    let rb = match body {
        EncoderBody::Bytes(b) => ResponseBody::Other(Body::Bytes(b)),
        EncoderBody::Stream(s) => ResponseBody::Body(s),
        EncoderBody::BoxedStream(m) => ResponseBody::Other(Body::Message(m)),
    };
    match Encoder::response(encoding, &mut head, rb) {
        ResponseBody::Body(enc) => enc,
        ResponseBody::Other(_) => panic!("expected an encoder"),
    }
}

fn sample(len: usize) -> Vec<u8> {
    (0..len).map(|i| ((i * 7 + i / 13) % 251) as u8).collect()
}

fn round_trip(encoding: ContentEncoding, len: usize) {
    let data = sample(len);
    // the whole body as one buffer
    let mut enc = encoder_for(encoding, EncoderBody::Bytes(data.clone()));
    let run = drive(&mut enc, vec![]);
    let chunks = chunks_of(&run);
    assert!(chunks.iter().all(|c| !c.is_empty()));
    assert!(run.max_outstanding <= 1);
    assert_eq!(decode(encoding, &chunks.concat()), data);
    // the same body as a stream of uneven chunks, crossing the in-place limit
    let mut enc = encoder_for(encoding, EncoderBody::Stream(()));
    let mut parts = Vec::new();
    let mut at = 0usize;
    let mut size = 1usize;
    while at < data.len() {
        let end = (at + size).min(data.len());
        parts.push(Ok(data[at..end].to_vec()));
        at = end;
        size = size * 3 + 5;
    }
    let run = drive(&mut enc, parts);
    let chunks = chunks_of(&run);
    assert!(chunks.iter().all(|c| !c.is_empty()));
    assert!(run.max_outstanding <= 1);
    assert_eq!(decode(encoding, &chunks.concat()), data);
}

#[test]
fn round_trip_gzip() {
    for len in [0usize, 1, 1024, 1_000_001] {
        round_trip(ContentEncoding::Gzip, len);
    }
}

#[test]
fn round_trip_deflate() {
    for len in [0usize, 1, 1024, 1_000_001] {
        round_trip(ContentEncoding::Deflate, len);
    }
}

#[test]
fn round_trip_brotli() {
    for len in [0usize, 1, 1024, 1_000_001] {
        round_trip(ContentEncoding::Br, len);
    }
}

#[test]
fn round_trip_zstd() {
    for len in [0usize, 1, 1024, 1_000_001] {
        round_trip(ContentEncoding::Zstd, len);
    }
}

#[test]
fn gzip_two_small_chunks() {
    let mut head = ResponseHead::new(StatusCode(200));
    let mut enc = match Encoder::<(), ()>::response(
        ContentEncoding::Gzip,
        &mut head,
        ResponseBody::Body(()),
    ) {
        ResponseBody::Body(enc) => enc,
        ResponseBody::Other(_) => panic!("expected an encoder"),
    };
    assert_eq!(head.content_encoding.as_deref(), Some("gzip"));
    assert!(!head.no_chunking);
    let run = drive(&mut enc, vec![Ok(b"abc".to_vec()), Ok(b"def".to_vec())]);
    let chunks = chunks_of(&run);
    assert!(chunks.len() >= 2);
    assert!(chunks.iter().all(|c| !c.is_empty()));
    // the gzip trailer (CRC-32 and length) closes the last chunk
    let last = chunks.last().unwrap();
    assert!(last.len() >= 8);
    assert_eq!(&last[last.len() - 4..], &[6u8, 0, 0, 0]);
    assert_eq!(decode(ContentEncoding::Gzip, &chunks.concat()), b"abcdef".to_vec());
    // the stream is over: nothing more comes out
    assert!(matches!(enc.resume::<String>(), Step::Ready(None)));
}

#[test]
fn no_content_is_left_alone() {
    for encoding in [
        ContentEncoding::Gzip,
        ContentEncoding::Deflate,
        ContentEncoding::Br,
        ContentEncoding::Zstd,
        ContentEncoding::Identity,
        ContentEncoding::Auto,
    ] {
        let mut head = ResponseHead::new(StatusCode(204));
        let r = Encoder::<(), ()>::response(
            encoding,
            &mut head,
            ResponseBody::Other(Body::Bytes(b"hello".to_vec())),
        );
        match r {
            ResponseBody::Other(Body::Bytes(b)) => assert_eq!(b, b"hello".to_vec()),
            _ => panic!("the body must come back as it was"),
        }
        assert!(head.content_encoding.is_none());
        assert!(!head.no_chunking);
    }
}

#[test]
fn switching_protocols_streams_pass_through() {
    let mut head = ResponseHead::new(StatusCode(101));
    head.no_chunking = true;
    let mut enc = match Encoder::<(), ()>::response(
        ContentEncoding::Br,
        &mut head,
        ResponseBody::Body(()),
    ) {
        ResponseBody::Body(enc) => enc,
        ResponseBody::Other(_) => panic!("expected an encoder"),
    };
    assert!(enc.encoder.is_none());
    assert!(head.content_encoding.is_none());
    assert!(head.no_chunking);
    let run = drive(&mut enc, vec![Ok(b"x".to_vec())]);
    assert_eq!(chunks_of(&run), vec![b"x".to_vec()]);
}

#[test]
fn existing_content_encoding_is_kept() {
    let mut head = ResponseHead::new(StatusCode(200));
    head.content_encoding = Some("br".to_string());
    let r = Encoder::<(), ()>::response(
        ContentEncoding::Gzip,
        &mut head,
        ResponseBody::Other(Body::Bytes(b"already".to_vec())),
    );
    assert!(matches!(r, ResponseBody::Other(Body::Bytes(_))));
    assert_eq!(head.content_encoding.as_deref(), Some("br"));
}

#[test]
fn no_body_and_empty_body_come_back() {
    let mut head = ResponseHead::new(StatusCode(200));
    let r = Encoder::<(), ()>::response(
        ContentEncoding::Gzip,
        &mut head,
        ResponseBody::Other(Body::Nothing),
    );
    assert!(matches!(r, ResponseBody::Other(Body::Nothing)));
    let r = Encoder::<(), ()>::response(
        ContentEncoding::Gzip,
        &mut head,
        ResponseBody::Other(Body::Empty),
    );
    assert!(matches!(r, ResponseBody::Other(Body::Empty)));
    assert!(head.content_encoding.is_none());
}

#[test]
fn identity_passes_chunks_through() {
    for encoding in [ContentEncoding::Identity, ContentEncoding::Auto] {
        let mut head = ResponseHead::new(StatusCode(200));
        let mut enc = match Encoder::<(), ()>::response(
            encoding,
            &mut head,
            ResponseBody::Body(()),
        ) {
            ResponseBody::Body(enc) => enc,
            ResponseBody::Other(_) => panic!("expected an encoder"),
        };
        assert!(head.content_encoding.is_none());
        let input = vec![b"ab".to_vec(), sample(5000), b"c".to_vec()];
        let run = drive(&mut enc, input.iter().cloned().map(Ok).collect());
        assert_eq!(chunks_of(&run), input);
        assert_eq!(run.max_outstanding, 0);
        // a buffer with identity comes back untouched
        let r = Encoder::<(), ()>::response(
            encoding,
            &mut head,
            ResponseBody::Other(Body::Bytes(b"plain".to_vec())),
        );
        assert!(matches!(r, ResponseBody::Other(Body::Bytes(ref b)) if b == b"plain"));
    }
}

#[test]
fn large_chunks_are_offloaded_one_at_a_time() {
    let mut enc = encoder_for(ContentEncoding::Gzip, EncoderBody::Stream(()));
    let parts: Vec<Result<Vec<u8>, String>> =
        (0..5).map(|_| Ok(sample(MAX_CHUNK_SIZE_ENCODE_IN_PLACE))).collect();
    // the first large chunk goes to a job
    assert!(matches!(enc.resume::<String>(), Step::PollSource));
    let s: Step<String> = enc.on_source(Pulled::Ready(Some(Ok(sample(1024)))));
    assert!(matches!(s, Step::Offload(_, ref c) if c.len() == 1024));
    assert!(enc.in_flight);
    assert!(enc.encoder.is_none());
    // while the job runs, the encoder waits on it and pulls nothing
    assert!(matches!(enc.resume::<String>(), Step::PollJob));
    assert!(matches!(enc.on_job::<String>(Pulled::Pending), Step::Pending));
    assert!(matches!(enc.resume::<String>(), Step::PollJob));
    let run = drive(&mut encoder_for(ContentEncoding::Gzip, EncoderBody::Stream(())), parts);
    assert_eq!(run.max_outstanding, 1);
    assert!(run.finished_by_end);
}

#[test]
fn small_chunk_is_compressed_in_place() {
    let mut enc = encoder_for(ContentEncoding::Deflate, EncoderBody::Stream(()));
    assert!(matches!(enc.resume::<String>(), Step::PollSource));
    let s: Step<String> = enc.on_source(Pulled::Ready(Some(Ok(sample(1023)))));
    assert!(!matches!(s, Step::Offload(_, _)));
    assert!(!enc.in_flight);
    assert!(enc.encoder.is_some());
}

#[test]
fn source_failure_ends_the_stream() {
    let mut enc = encoder_for(ContentEncoding::Gzip, EncoderBody::Stream(()));
    let run = drive(
        &mut enc,
        vec![Ok(b"abc".to_vec()), Ok(sample(3000)), Err("broken".to_string()), Ok(b"late".to_vec())],
    );
    let failures: Vec<_> = run.items.iter().filter(|i| i.is_err()).collect();
    assert_eq!(failures.len(), 1);
    assert!(matches!(run.items.last(), Some(Err(EncoderError::Body(e))) if e == "broken"));
    assert!(enc.eof);
    assert!(enc.encoder.is_none());
    assert!(matches!(enc.resume::<String>(), Step::Ready(None)));
}

#[test]
fn boxed_source_failure_is_tagged_boxed() {
    let mut enc = encoder_for(ContentEncoding::Br, EncoderBody::BoxedStream(()));
    assert!(matches!(enc.resume::<String>(), Step::PollSource));
    let s = enc.on_source(Pulled::Ready(Some(Err("erased".to_string()))));
    assert!(matches!(s, Step::Ready(Some(Err(EncoderError::Boxed(ref e)))) if e == "erased"));
}

#[test]
fn failed_job_is_a_blocking_error() {
    let mut enc = encoder_for(ContentEncoding::Zstd, EncoderBody::Stream(()));
    let s: Step<String> = enc.on_source(Pulled::Ready(Some(Ok(sample(4096)))));
    assert!(matches!(s, Step::Offload(_, _)));
    let s: Step<String> = enc.on_job(Pulled::Ready(Err(BlockingError)));
    assert!(matches!(s, Step::Ready(Some(Err(EncoderError::Blocking(BlockingError))))));
    assert!(matches!(enc.resume::<String>(), Step::Ready(None)));
}

#[test]
fn failed_write_is_an_io_error() {
    let mut enc = encoder_for(ContentEncoding::Gzip, EncoderBody::Stream(()));
    let _: Step<String> = enc.on_source(Pulled::Ready(Some(Ok(sample(2048)))));
    let err = std::io::Error::new(std::io::ErrorKind::Other, "disk");
    let s: Step<String> = enc.on_job(Pulled::Ready(Ok(Err(err))));
    assert!(matches!(s, Step::Ready(Some(Err(EncoderError::Io(ref e)))) if e.to_string() == "disk"));
    assert!(enc.eof);
}

#[test]
fn empty_buffer_still_gets_a_trailer() {
    let mut enc = encoder_for(ContentEncoding::Gzip, EncoderBody::Bytes(Vec::new()));
    let run = drive(&mut enc, vec![]);
    let chunks = chunks_of(&run);
    assert_eq!(chunks.len(), 1);
    assert!(!chunks[0].is_empty());
    assert_eq!(decode(ContentEncoding::Gzip, &chunks[0]), Vec::<u8>::new());
}

#[test]
fn empty_buffer_without_codec_ends_at_once() {
    let mut enc: Enc = Encoder::new(EncoderBody::Bytes(Vec::new()), None);
    assert!(matches!(enc.resume::<String>(), Step::Ready(None)));
    assert!(matches!(enc.resume::<String>(), Step::Ready(None)));
}

#[test]
fn buffer_is_yielded_once() {
    let mut enc: Enc = Encoder::new(EncoderBody::Bytes(b"once".to_vec()), None);
    assert!(matches!(enc.resume::<String>(), Step::Ready(Some(Ok(ref c))) if c == b"once"));
    assert!(matches!(enc.resume::<String>(), Step::Ready(None)));
}

#[test]
fn codec_take_drains_the_sink() {
    let mut codec = ContentEncoder::encoder(ContentEncoding::Gzip).unwrap();
    codec.write(b"hello").unwrap();
    let first = codec.take();
    // the gzip header has been written
    assert!(first.len() >= 10);
    assert_eq!(&first[..2], &[0x1f, 0x8b]);
    assert!(codec.take().is_empty());
    let rest = codec.finish().unwrap();
    assert!(!rest.is_empty());
    let all = [first, rest].concat();
    assert_eq!(decode(ContentEncoding::Gzip, &all), b"hello".to_vec());
}

#[test]
fn codec_for_each_coding() {
    assert!(ContentEncoder::encoder(ContentEncoding::Identity).is_none());
    assert!(ContentEncoder::encoder(ContentEncoding::Auto).is_none());
    for e in [
        ContentEncoding::Br,
        ContentEncoding::Deflate,
        ContentEncoding::Gzip,
        ContentEncoding::Zstd,
    ] {
        let mut c = ContentEncoder::encoder(e).unwrap();
        c.write(b"payload").unwrap();
        let mut all = c.take();
        all.extend(c.finish().unwrap());
        assert_eq!(decode(e, &all), b"payload".to_vec());
    }
}

#[test]
fn coding_names() {
    assert_eq!(ContentEncoding::Br.as_str(), "br");
    assert_eq!(ContentEncoding::Deflate.as_str(), "deflate");
    assert_eq!(ContentEncoding::Gzip.as_str(), "gzip");
    assert_eq!(ContentEncoding::Zstd.as_str(), "zstd");
    assert_eq!(ContentEncoding::Identity.as_str(), "identity");
    assert_eq!(ContentEncoding::Auto.as_str(), "identity");
}

#[test]
fn sizes() {
    let enc: Enc = Encoder::new(EncoderBody::Bytes(b"12345".to_vec()), None);
    assert_eq!(enc.size(BodySize::Stream), BodySize::Sized(5));
    let enc: Enc = Encoder::new(EncoderBody::Stream(()), None);
    assert_eq!(enc.size(BodySize::Sized(9)), BodySize::Sized(9));
    let enc = encoder_for(ContentEncoding::Gzip, EncoderBody::Bytes(b"12345".to_vec()));
    assert_eq!(enc.size(BodySize::Stream), BodySize::Stream);
    assert_eq!(EncoderBody::<(), ()>::BoxedStream(()).size(BodySize::Empty), BodySize::Empty);
}

#[test]
fn update_head_sets_the_header() {
    let mut head = ResponseHead::new(StatusCode(200));
    actix_encoding::encoder::update_head(ContentEncoding::Zstd, &mut head);
    assert_eq!(head.content_encoding.as_deref(), Some("zstd"));
    assert_eq!(head.status, StatusCode(200));
}

#[test]
fn can_encode_rules() {
    let head = ResponseHead::new(StatusCode(200));
    assert!(can_encode(ContentEncoding::Gzip, &head));
    assert!(!can_encode(ContentEncoding::Identity, &head));
    assert!(!can_encode(ContentEncoding::Auto, &head));
    assert!(!can_encode(ContentEncoding::Gzip, &ResponseHead::new(StatusCode(204))));
    assert!(!can_encode(ContentEncoding::Gzip, &ResponseHead::new(StatusCode(101))));
    let mut head = ResponseHead::new(StatusCode(200));
    head.content_encoding = Some("gzip".to_string());
    assert!(!can_encode(ContentEncoding::Br, &head));
}

#[test]
fn take_timing_does_not_change_the_output() {
    for e in [
        ContentEncoding::Br,
        ContentEncoding::Deflate,
        ContentEncoding::Gzip,
        ContentEncoding::Zstd,
    ] {
        let blocks = [sample(10), sample(3000), b"tail".to_vec()];
        // take after every write
        let mut a = ContentEncoder::encoder(e).unwrap();
        let mut out_a = Vec::new();
        for b in &blocks {
            a.write(b).unwrap();
            out_a.extend(a.take());
        }
        out_a.extend(a.finish().unwrap());
        // take only once, at the end
        let mut b = ContentEncoder::encoder(e).unwrap();
        for blk in &blocks {
            b.write(blk).unwrap();
        }
        let mut out_b = b.take();
        assert!(b.take().is_empty());
        out_b.extend(b.finish().unwrap());
        assert_eq!(out_a, out_b);
        assert_eq!(decode(e, &out_a), blocks.concat());
    }
}
