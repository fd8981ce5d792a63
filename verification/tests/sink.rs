use bytes::Bytes;
use bytes::BytesMut;
use flate2::read::GzDecoder;
use gzip_sink::encoder::EncoderError;
use gzip_sink::encoder::EncoderPhase;
use gzip_sink::encoder::GzipEncoder;
use gzip_sink::encoder::BEST_LEVEL;
use gzip_sink::model::Action;
use gzip_sink::model::SinkPhase;
use gzip_sink::sink::GzipSink;
use gzip_sink::sink::SinkError;
use std::io::Read;

/// A destination that takes at most `limit` bytes per call.
struct Destination {
    bytes: Vec<u8>,
    limit: usize,
    largest_offer: usize,
    calls: usize,
    shut: bool,
}

impl Destination {
    fn new(limit: usize) -> Destination {
        Destination { bytes: Vec::new(), limit, largest_offer: 0, calls: 0, shut: false }
    }

    fn write(&mut self, offered: &[u8]) -> usize {
        assert!(!self.shut);
        let n = offered.len().min(self.limit);
        self.bytes.extend_from_slice(&offered[..n]);
        self.largest_offer = self.largest_offer.max(offered.len());
        self.calls += 1;
        n
    }
}

fn drain(sink: &mut GzipSink, destination: &mut Destination) {
    while sink.poll_ready() == Action::Write {
        let before = sink.pending_bytes().len();
        let n = destination.write(sink.pending_bytes());
        sink.wrote(n).unwrap();
        assert_eq!(sink.pending_bytes().len(), before - n);
    }
    assert!(sink.is_ready());
}

fn close(sink: &mut GzipSink, destination: &mut Destination) {
    loop {
        match sink.poll_close().unwrap() {
            Action::Write => {
                let n = destination.write(sink.pending_bytes());
                sink.wrote(n).unwrap();
            }
            Action::Shutdown => {
                assert!(sink.is_ready());
                destination.shut = true;
                sink.shut_down().unwrap();
            }
            Action::Ready => break,
            Action::Flush => unreachable!(),
        }
    }
}

fn compress(chunks: &[&[u8]], limit: usize) -> Vec<u8> {
    let mut sink = GzipSink::new();
    let mut destination = Destination::new(limit);
    for chunk in chunks {
        drain(&mut sink, &mut destination);
        sink.start_send(Bytes::copy_from_slice(chunk)).unwrap();
    }
    close(&mut sink, &mut destination);
    assert!(destination.shut);
    assert_eq!(sink.phase(), SinkPhase::Closed);
    destination.bytes
}

fn gunzip(stream: &[u8]) -> Vec<u8> {
    let mut decoder = GzDecoder::new(stream);
    let mut plain = Vec::new();
    decoder.read_to_end(&mut plain).unwrap();
    plain
}

fn sample(len: usize) -> Vec<u8> {
    let mut state: u32 = 12345;
    let mut bytes = Vec::with_capacity(len);
    for i in 0..len {
        state = state.wrapping_mul(1664525).wrapping_add(1013904223);
        if i % 7 < 4 {
            bytes.push((state >> 24) as u8);
        } else {
            bytes.push(b'a' + (i % 5) as u8);
        }
    }
    bytes
}

#[test]
fn round_trip_of_a_short_text() {
    let text = b"Hello World";
    let stream = compress(&[text], usize::MAX);
    assert_ne!(stream.as_slice(), text.as_slice());
    assert_eq!(gunzip(&stream), text.to_vec());
}

#[test]
fn round_trip_of_mixed_bytes() {
    let input = sample(70_000);
    let stream = compress(&[&input], 4096);
    assert_eq!(gunzip(&stream), input);
}

#[test]
fn round_trip_of_every_single_byte_value() {
    for value in 0..=255u8 {
        let stream = compress(&[&[value]], usize::MAX);
        assert_eq!(gunzip(&stream), vec![value]);
    }
}

#[test]
fn hundred_thousand_repeated_bytes_shrink_and_come_back() {
    let input = vec![b'A'; 100_000];
    let chunks: Vec<&[u8]> = input.chunks(32768).collect();
    assert_eq!(chunks.len(), 4);
    let stream = compress(&chunks, usize::MAX);
    assert!(stream.len() < 1000);
    let plain = gunzip(&stream);
    assert_eq!(plain.len(), 100_000);
    assert!(plain.iter().all(|byte| *byte == b'A'));
}

#[test]
fn empty_input_gives_a_valid_stream() {
    let stream = compress(&[], usize::MAX);
    assert!(!stream.is_empty());
    assert!(stream.len() >= 18);
    assert_eq!(&stream[..3], &[0x1f, 0x8b, 8]);
    assert_eq!(&stream[stream.len() - 8..], &[0u8; 8]);
    assert_eq!(gunzip(&stream), Vec::<u8>::new());
}

#[test]
fn empty_chunks_add_nothing_to_the_content() {
    let stream = compress(&[b"", b"ab", b"", b"c", b""], 1);
    assert_eq!(gunzip(&stream), b"abc".to_vec());
}

#[test]
fn stream_ends_with_checksum_and_length() {
    let stream = compress(&[b"abc"], usize::MAX);
    let tail = &stream[stream.len() - 8..];
    assert_eq!(&tail[..4], &0x352441c2u32.to_le_bytes());
    assert_eq!(&tail[4..], &3u32.to_le_bytes());
}

#[test]
fn chunking_does_not_change_the_content() {
    let input = sample(50_000);
    let whole = compress(&[&input], usize::MAX);
    assert_eq!(gunzip(&whole), input);
    for size in [1usize, 2, 3, 7, 100, 4096, 32768, 49_999] {
        let chunks: Vec<&[u8]> = input.chunks(size).collect();
        let stream = compress(&chunks, usize::MAX);
        assert_eq!(gunzip(&stream), input);
    }
    let uneven: Vec<&[u8]> = vec![&input[..1], &input[1..1], &input[1..30_000], &input[30_000..]];
    assert_eq!(gunzip(&compress(&uneven, 5)), input);
}

#[test]
fn chunks_keep_their_order() {
    let stream = compress(&[b"first,", b"second,", b"third"], 3);
    assert_eq!(gunzip(&stream), b"first,second,third".to_vec());
    let other = compress(&[b"third", b"second,", b"first,"], 3);
    assert_eq!(gunzip(&other), b"thirdsecond,first,".to_vec());
}

#[test]
fn slow_destination_gets_the_same_stream() {
    let input = sample(20_000);
    let fast = compress(&[&input[..8000], &input[8000..]], usize::MAX);
    for limit in [1usize, 2, 13, 1000] {
        let slow = compress(&[&input[..8000], &input[8000..]], limit);
        assert_eq!(slow, fast);
    }
}

#[test]
fn close_twice_adds_no_bytes() {
    let mut sink = GzipSink::new();
    let mut destination = Destination::new(usize::MAX);
    sink.start_send(Bytes::from_static(b"some bytes")).unwrap();
    close(&mut sink, &mut destination);
    let delivered = destination.bytes.clone();
    destination.shut = false;
    assert_eq!(sink.poll_close(), Ok(Action::Ready));
    assert_eq!(sink.poll_close(), Ok(Action::Ready));
    assert!(sink.is_ready());
    assert!(sink.pending_bytes().is_empty());
    assert_eq!(sink.finish(), Ok(()));
    assert!(sink.pending_bytes().is_empty());
    assert_eq!(sink.shut_down(), Ok(()));
    assert_eq!(sink.phase(), SinkPhase::Closed);
    assert_eq!(destination.bytes, delivered);
    assert_eq!(gunzip(&delivered), b"some bytes".to_vec());
}

#[test]
fn close_polled_again_while_draining_adds_no_bytes() {
    let input = sample(5000);
    let mut sink = GzipSink::new();
    let mut destination = Destination::new(7);
    sink.start_send(Bytes::from(input.clone())).unwrap();
    assert_eq!(sink.poll_close(), Ok(Action::Write));
    assert_eq!(sink.phase(), SinkPhase::Closing);
    let pending = sink.pending_bytes().to_vec();
    assert_eq!(sink.poll_close(), Ok(Action::Write));
    assert_eq!(sink.finish(), Ok(()));
    assert_eq!(sink.pending_bytes(), pending.as_slice());
    close(&mut sink, &mut destination);
    assert_eq!(destination.bytes, pending);
    assert_eq!(gunzip(&destination.bytes), input);
}

#[test]
fn sink_offers_its_pending_bytes_and_keeps_the_rest() {
    let input = sample(40_000);
    let mut sink = GzipSink::new();
    sink.start_send(Bytes::from(input.clone())).unwrap();
    let header = sink.pending_bytes().len();
    assert_eq!(sink.wrote(header), Ok(()));
    sink.start_send(Bytes::from(input)).unwrap();
    let pending = sink.pending_bytes().to_vec();
    assert!(pending.len() > 100);
    assert_eq!(sink.poll_ready(), Action::Write);
    assert_eq!(sink.poll_flush(), Action::Write);
    assert!(!sink.is_ready());
    assert_eq!(sink.wrote(10), Ok(()));
    assert_eq!(sink.pending_bytes(), &pending[10..]);
    assert_eq!(sink.wrote(1), Ok(()));
    assert_eq!(sink.pending_bytes(), &pending[11..]);
    assert_eq!(sink.wrote(pending.len() - 11), Ok(()));
    assert!(sink.pending_bytes().is_empty());
    assert_eq!(sink.poll_ready(), Action::Ready);
    assert_eq!(sink.poll_flush(), Action::Flush);
    assert!(sink.is_ready());
}

#[test]
fn destination_is_never_offered_more_than_is_pending() {
    let input = sample(60_000);
    let mut sink = GzipSink::new();
    let mut destination = Destination::new(5);
    let mut produced = 0;
    for chunk in input.chunks(20_000) {
        drain(&mut sink, &mut destination);
        sink.start_send(Bytes::copy_from_slice(chunk)).unwrap();
        produced += sink.pending_bytes().len();
        assert!(destination.largest_offer <= produced);
    }
    close(&mut sink, &mut destination);
    assert!(destination.largest_offer <= destination.bytes.len());
    assert!(destination.calls >= destination.bytes.len() / 5);
    assert_eq!(gunzip(&destination.bytes), input);
}

#[test]
fn no_chunk_is_accepted_while_bytes_are_pending() {
    let mut sink = GzipSink::new();
    sink.start_send(Bytes::from(sample(40_000))).unwrap();
    let pending = sink.pending_bytes().to_vec();
    assert!(!pending.is_empty());
    assert_eq!(sink.start_send(Bytes::from_static(b"more")), Err(SinkError::NotReady));
    assert_eq!(sink.pending_bytes(), pending.as_slice());
    assert_eq!(sink.phase(), SinkPhase::Open);
    assert_eq!(sink.wrote(pending.len() - 1), Ok(()));
    assert_eq!(sink.start_send(Bytes::from_static(b"more")), Err(SinkError::NotReady));
    assert_eq!(sink.wrote(1), Ok(()));
    assert_eq!(sink.start_send(Bytes::from_static(b"more")), Ok(()));
}

#[test]
fn new_sink_is_open_and_ready() {
    let sink = GzipSink::new();
    assert_eq!(sink.phase(), SinkPhase::Open);
    assert!(sink.is_ready());
    assert!(sink.pending_bytes().is_empty());
    assert_eq!(sink.poll_ready(), Action::Ready);
    assert_eq!(sink.poll_flush(), Action::Flush);
}

#[test]
fn chunk_after_close_is_refused() {
    let mut sink = GzipSink::new();
    assert_eq!(sink.finish(), Ok(()));
    assert_eq!(sink.phase(), SinkPhase::Closing);
    let pending = sink.pending_bytes().to_vec();
    assert_eq!(sink.start_send(Bytes::from_static(b"late")), Err(SinkError::Closed));
    assert_eq!(sink.pending_bytes(), pending.as_slice());
    let mut destination = Destination::new(usize::MAX);
    close(&mut sink, &mut destination);
    assert_eq!(sink.start_send(Bytes::from_static(b"late")), Err(SinkError::Closed));
    assert_eq!(sink.phase(), SinkPhase::Closed);
    assert_eq!(gunzip(&destination.bytes), Vec::<u8>::new());
}

#[test]
fn report_of_no_bytes_is_an_error_while_bytes_are_pending() {
    let mut sink = GzipSink::new();
    assert_eq!(sink.wrote(0), Ok(()));
    sink.start_send(Bytes::from(sample(40_000))).unwrap();
    let pending = sink.pending_bytes().to_vec();
    assert_eq!(sink.wrote(0), Err(SinkError::WriteZero));
    assert_eq!(sink.pending_bytes(), pending.as_slice());
}

#[test]
fn report_of_too_many_bytes_is_an_error() {
    let mut sink = GzipSink::new();
    assert_eq!(sink.wrote(1), Err(SinkError::Overrun));
    sink.start_send(Bytes::from(sample(40_000))).unwrap();
    let pending = sink.pending_bytes().to_vec();
    assert_eq!(sink.wrote(pending.len() + 1), Err(SinkError::Overrun));
    assert_eq!(sink.pending_bytes(), pending.as_slice());
    assert_eq!(sink.wrote(pending.len()), Ok(()));
}

#[test]
fn shutdown_is_refused_before_the_stream_is_out() {
    let mut sink = GzipSink::new();
    assert_eq!(sink.shut_down(), Err(SinkError::NotReady));
    assert_eq!(sink.phase(), SinkPhase::Open);
    assert_eq!(sink.poll_close(), Ok(Action::Write));
    assert_eq!(sink.shut_down(), Err(SinkError::NotReady));
    assert_eq!(sink.phase(), SinkPhase::Closing);
    let n = sink.pending_bytes().len();
    assert_eq!(sink.wrote(n), Ok(()));
    assert_eq!(sink.poll_close(), Ok(Action::Shutdown));
    assert_eq!(sink.poll_close(), Ok(Action::Shutdown));
    assert_eq!(sink.shut_down(), Ok(()));
    assert_eq!(sink.phase(), SinkPhase::Closed);
    assert_eq!(sink.poll_close(), Ok(Action::Ready));
}

#[test]
fn fault_of_the_compressor_fails_the_sink() {
    let mut sink = GzipSink::new();
    sink.start_send(Bytes::from_static(b"abc")).unwrap();
    assert_eq!(sink.absorb(Ok::<u8, EncoderError>(7)), Ok(7));
    assert_eq!(sink.phase(), SinkPhase::Open);
    assert_eq!(sink.absorb(Err::<(), EncoderError>(EncoderError::Finished)), Err(SinkError::Closed));
    assert_eq!(sink.phase(), SinkPhase::Open);
    assert_eq!(sink.absorb(Err::<(), EncoderError>(EncoderError::Fault)), Err(SinkError::Encoder));
    assert_eq!(sink.phase(), SinkPhase::Failed);
    assert_eq!(sink.start_send(Bytes::from_static(b"abc")), Err(SinkError::Encoder));
    assert_eq!(sink.finish(), Err(SinkError::Encoder));
    assert_eq!(sink.poll_close(), Err(SinkError::Encoder));
    assert_eq!(sink.shut_down(), Err(SinkError::Encoder));
    assert_eq!(sink.phase(), SinkPhase::Failed);
}

#[test]
fn encoder_hands_over_all_it_produced() {
    let input = sample(30_000);
    let mut encoder = GzipEncoder::new();
    assert_eq!(encoder.phase(), EncoderPhase::Active);
    let mut stream = BytesMut::new();
    stream.extend_from_slice(b"kept");
    for chunk in input.chunks(10_000) {
        let before = stream.len();
        assert_eq!(encoder.encode(Bytes::copy_from_slice(chunk), &mut stream), Ok(()));
        assert!(stream.len() >= before);
        assert_eq!(&stream[..4], b"kept");
    }
    let tail = encoder.finish().unwrap();
    assert!(tail.len() >= 8);
    assert_eq!(encoder.phase(), EncoderPhase::Finished);
    stream.extend_from_slice(&tail);
    assert_eq!(gunzip(&stream[4..]), input);
}

#[test]
fn encoder_by_default_is_a_new_encoder() {
    let mut encoder = GzipEncoder::default();
    assert_eq!(encoder.phase(), EncoderPhase::Active);
    let mut stream = BytesMut::new();
    assert_eq!(encoder.encode(Bytes::from_static(b"xyz"), &mut stream), Ok(()));
    stream.extend_from_slice(&encoder.finish().unwrap());
    assert_eq!(gunzip(&stream), b"xyz".to_vec());
}

#[test]
fn encoder_compresses_at_the_best_level() {
    let input = sample(30_000);
    let mut encoder = GzipEncoder::new();
    let mut stream = BytesMut::new();
    encoder.encode(Bytes::from(input.clone()), &mut stream).unwrap();
    stream.extend_from_slice(&encoder.finish().unwrap());
    let mut reference = flate2::write::GzEncoder::new(Vec::new(), flate2::Compression::best());
    std::io::Write::write_all(&mut reference, &input).unwrap();
    assert_eq!(stream.to_vec(), reference.finish().unwrap());
    assert_eq!(stream[8], 2);
}

#[test]
fn finished_encoder_takes_no_chunk_and_finishes_empty() {
    let mut encoder = GzipEncoder::new();
    let tail = encoder.finish().unwrap();
    assert_eq!(gunzip(&tail), Vec::<u8>::new());
    assert_eq!(encoder.finish(), Ok(Vec::new()));
    assert_eq!(encoder.finish(), Ok(Vec::new()));
    let mut stream = BytesMut::new();
    assert_eq!(encoder.encode(Bytes::from_static(b"late"), &mut stream), Err(EncoderError::Finished));
    assert!(stream.is_empty());
    assert_eq!(encoder.phase(), EncoderPhase::Finished);
}

#[test]
fn faulted_encoder_stays_faulted() {
    let mut encoder = GzipEncoder::new();
    assert_eq!(encoder.settle(Ok(())), Ok(()));
    assert_eq!(encoder.phase(), EncoderPhase::Active);
    let failure = std::io::Error::new(std::io::ErrorKind::InvalidInput, "corrupt deflate stream");
    assert_eq!(encoder.settle(Err(failure)), Err(EncoderError::Fault));
    assert_eq!(encoder.phase(), EncoderPhase::Faulted);
    let mut stream = BytesMut::new();
    assert_eq!(encoder.encode(Bytes::from_static(b"abc"), &mut stream), Err(EncoderError::Fault));
    assert!(stream.is_empty());
    assert_eq!(encoder.finish(), Err(EncoderError::Fault));
    assert_eq!(encoder.phase(), EncoderPhase::Faulted);
}

#[test]
fn best_level_is_the_highest_of_the_compressor() {
    assert_eq!(BEST_LEVEL, 9);
    assert_eq!(BEST_LEVEL, flate2::Compression::best().level());
}

#[test]
fn encoder_does_not_compress_at_a_lower_level() {
    let input = sample(30_000);
    let mut encoder = GzipEncoder::new();
    let mut stream = BytesMut::new();
    encoder.encode(Bytes::from(input.clone()), &mut stream).unwrap();
    stream.extend_from_slice(&encoder.finish().unwrap());
    let mut fast = flate2::write::GzEncoder::new(Vec::new(), flate2::Compression::fast());
    std::io::Write::write_all(&mut fast, &input).unwrap();
    let fast = fast.finish().unwrap();
    assert_ne!(stream.to_vec(), fast);
    assert!(stream.len() <= fast.len());
    assert_eq!(fast[8], 4);
    assert_eq!(stream[8], 2);
}

#[test]
fn every_stream_holds_header_and_trailer() {
    for len in [0usize, 1, 2, 17, 18, 1000] {
        let input = sample(len);
        let stream = compress(&[&input], 3);
        assert!(stream.len() >= 18);
        assert_eq!(&stream[..4], &[0x1f, 0x8b, 8, 0]);
        assert_eq!(&stream[4..8], &[0, 0, 0, 0]);
        assert_eq!(stream[9], 255);
        assert_eq!(&stream[stream.len() - 4..], &(len as u32).to_le_bytes());
    }
}

#[test]
fn chunks_of_a_ready_sink_are_all_accepted() {
    let input = sample(100_000);
    let mut sink = GzipSink::new();
    let mut destination = Destination::new(64);
    for chunk in input.chunks(977) {
        drain(&mut sink, &mut destination);
        assert_eq!(sink.start_send(Bytes::copy_from_slice(chunk)), Ok(()));
        assert_eq!(sink.phase(), SinkPhase::Open);
    }
    assert_eq!(sink.start_send(Bytes::new()), if sink.is_ready() { Ok(()) } else { Err(SinkError::NotReady) });
    close(&mut sink, &mut destination);
    assert_eq!(gunzip(&destination.bytes), input);
}

#[test]
fn faulted_encoder_is_left_as_it_is() {
    let mut encoder = GzipEncoder::new();
    let mut stream = BytesMut::new();
    encoder.encode(Bytes::from_static(b"abc"), &mut stream).unwrap();
    let before = stream.to_vec();
    let failure = std::io::Error::new(std::io::ErrorKind::InvalidInput, "corrupt deflate stream");
    assert_eq!(encoder.settle(Err(failure)), Err(EncoderError::Fault));
    for _ in 0..3 {
        assert_eq!(encoder.encode(Bytes::from_static(b"def"), &mut stream), Err(EncoderError::Fault));
        assert_eq!(encoder.finish(), Err(EncoderError::Fault));
        assert_eq!(encoder.phase(), EncoderPhase::Faulted);
        assert_eq!(stream.to_vec(), before);
    }
}
