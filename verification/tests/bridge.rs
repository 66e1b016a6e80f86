use avbridge::context::input_io;
use avbridge::context::input;
use avbridge::context::input_into_context;
use avbridge::context::output_io;
use avbridge::io::decode_seek;
use avbridge::io::encode_read_result;
use avbridge::io::encode_seek_result;
use avbridge::io::encode_write_result;
use avbridge::io::i64_to_u64;
use avbridge::io::read_trampoline;
use avbridge::io::seek_trampoline;
use avbridge::io::u64_to_i64;
use avbridge::io::write_trampoline;
use avbridge::io::AVSEEK_SIZE;
use avbridge::AVInput;
use avbridge::AVSeek;
use avbridge::InputEvents;
use avbridge::IoBinding;
use avbridge::MemoryReader;
use avbridge::MemoryWriter;
use avbridge::OutputEvents;
use avbridge::OutputFormat;
use avbridge::SeekFrom;
use avbridge::SeekRequest;

#[test]
fn seek_decoding_uses_the_platform_whence_values() {
    // the decoder must agree with the platform's own whence values
    assert_eq!(decode_seek(10, libc::SEEK_SET), SeekRequest::Pos(SeekFrom::Start(10)));
    assert_eq!(decode_seek(10, libc::SEEK_CUR), SeekRequest::Pos(SeekFrom::Current(10)));
    assert_eq!(decode_seek(10, libc::SEEK_END), SeekRequest::Pos(SeekFrom::End(10)));
}

#[test]
fn seek_decoding_follows_the_protocol() {
    assert_eq!(decode_seek(10, 0), SeekRequest::Pos(SeekFrom::Start(10)));
    assert_eq!(decode_seek(-3, 0), SeekRequest::Unsupported);
    assert_eq!(decode_seek(7, 1), SeekRequest::Pos(SeekFrom::Current(7)));
    assert_eq!(decode_seek(-7, 2), SeekRequest::Pos(SeekFrom::End(-7)));
    assert_eq!(decode_seek(0, AVSEEK_SIZE), SeekRequest::Size);
    // the size-query flag is ORed into whence and wins over the base value
    assert_eq!(decode_seek(0, AVSEEK_SIZE | 2), SeekRequest::Size);
    assert_eq!(decode_seek(5, 3), SeekRequest::Unsupported);
}

#[test]
fn numeric_translations_reject_unrepresentable_values() {
    assert_eq!(u64_to_i64(0), Some(0));
    assert_eq!(u64_to_i64(i64::MAX as u64), Some(i64::MAX));
    assert_eq!(u64_to_i64(i64::MAX as u64 + 1), None);
    assert_eq!(i64_to_u64(0), Some(0));
    assert_eq!(i64_to_u64(-1), None);
    assert_eq!(i64_to_u64(i64::MAX), Some(i64::MAX as u64));
}

#[test]
fn outcome_encodings_use_the_sentinel() {
    assert_eq!(encode_read_result(Some(5)), 5);
    assert_eq!(encode_read_result(Some(0)), 0);
    assert_eq!(encode_read_result(None), -1);
    assert_eq!(encode_write_result(Some(5)), 5);
    assert_eq!(encode_write_result(Some(0)), -1);
    assert_eq!(encode_write_result(None), -1);
    assert_eq!(encode_seek_result(Some(42)), 42);
    assert_eq!(encode_seek_result(Some(i64::MAX as u64 + 1)), -1);
    assert_eq!(encode_seek_result(None), -1);
}

fn bytes_0_to_99() -> Vec<u8> {
    let mut v = Vec::new();
    for i in 0..100u8 {
        v.push(i);
    }
    v
}

#[test]
fn seek_trampoline_dispatches_as_decoded() {
    let mut r = MemoryReader::new(bytes_0_to_99());
    let (code, _) = seek_trampoline(&mut r, 10, 0);
    assert_eq!(code, 10);
    assert_eq!(r.stream_position(), 10);
    let (code, _) = seek_trampoline(&mut r, 5, 1);
    assert_eq!(code, 15);
    let (code, _) = seek_trampoline(&mut r, -20, 2);
    assert_eq!(code, 80);
    // the size query reports the size and leaves the cursor alone
    let (code, _) = seek_trampoline(&mut r, 0, AVSEEK_SIZE);
    assert_eq!(code, 100);
    assert_eq!(r.stream_position(), 80);
    // a negative absolute offset and an unknown whence are rejected
    let (code, _) = seek_trampoline(&mut r, -1, 0);
    assert_eq!(code, -1);
    let (code, _) = seek_trampoline(&mut r, 3, 99);
    assert_eq!(code, -1);
    assert_eq!(r.stream_position(), 80);
}

#[test]
fn memory_reader_reads_in_buffer_sized_chunks() {
    let mut r = MemoryReader::new(bytes_0_to_99());
    let mut buf = vec![0u8; 64];
    assert_eq!(read_trampoline(&mut r, &mut buf), 64);
    assert_eq!(&buf[..4], &[0, 1, 2, 3]);
    assert_eq!(read_trampoline(&mut r, &mut buf), 36);
    assert_eq!(buf[0], 64);
    assert_eq!(buf[35], 99);
    // the tail beyond the short read keeps its previous bytes
    assert_eq!(buf[36], 36);
    // at the end the count is zero: the protocol's end-of-stream signal
    assert_eq!(read_trampoline(&mut r, &mut buf), 0);
}

#[test]
fn memory_reader_seek_past_end_reads_nothing() {
    let mut r = MemoryReader::new(vec![1, 2, 3]);
    assert_eq!(r.seek(SeekFrom::Start(10)), Some(10));
    let mut buf = vec![0u8; 4];
    assert_eq!(r.read_packet(&mut buf), Some(0));
    assert_eq!(r.seek(SeekFrom::Current(-9)), Some(1));
    assert_eq!(r.read_packet(&mut buf), Some(2));
    assert_eq!(&buf[..2], &[2, 3]);
    assert_eq!(r.seek(SeekFrom::Current(-100)), None);
    assert_eq!(r.size(), Some(3));
}

#[test]
fn memory_writer_overwrites_and_pads() {
    let mut w = MemoryWriter::new();
    assert_eq!(write_trampoline(&mut w, b"abc"), 3);
    assert_eq!(w.seek(SeekFrom::Start(1)), Some(1));
    assert_eq!(write_trampoline(&mut w, b"ZZ"), 2);
    assert_eq!(w.seek(SeekFrom::Start(5)), Some(5));
    assert_eq!(write_trampoline(&mut w, b"Q"), 1);
    assert_eq!(w.into_bytes(), b"aZZ\0\0Q".to_vec());
}

#[test]
fn extreme_displacements_are_rejected_not_wrapped() {
    let mut r = MemoryReader::new(vec![0u8; 8]);
    assert_eq!(r.seek(SeekFrom::Current(i64::MIN)), None);
    assert_eq!(r.stream_position(), 0);
    assert_eq!(r.seek(SeekFrom::End(-9)), None);
    assert_eq!(r.seek(SeekFrom::End(-8)), Some(0));
    assert_eq!(r.seek(SeekFrom::Start(u64::MAX)), Some(u64::MAX));
    assert_eq!(r.seek(SeekFrom::Current(1)), None);
    assert_eq!(r.stream_position(), u64::MAX);
}

#[test]
fn memory_writer_seeks_like_a_file() {
    let mut w = MemoryWriter::new();
    assert_eq!(write_trampoline(&mut w, b"abcdef"), 6);
    assert_eq!(w.seek(SeekFrom::End(-2)), Some(4));
    assert_eq!(write_trampoline(&mut w, b"XY"), 2);
    assert_eq!(w.stream_position(), 6);
    assert_eq!(w.size(), Some(6));
    assert_eq!(w.into_bytes(), b"abcdXY".to_vec());
}

#[test]
fn memory_writer_empty_write_signals_failure() {
    let mut w = MemoryWriter::new();
    // a zero-length outcome is a failure under the write protocol
    assert_eq!(write_trampoline(&mut w, b""), -1);
}

/// A source whose first read reports a zero-length result and which fails
/// on any read after that.
struct ZeroThenError {
    reads: usize,
}

impl AVSeek for ZeroThenError {
    fn seek(&mut self, _pos: SeekFrom) -> Option<u64> {
        Some(0)
    }

    fn size(&self) -> Option<u64> {
        Some(0)
    }
}

impl AVInput for ZeroThenError {
    fn read_packet(&mut self, _buf: &mut Vec<u8>) -> Option<usize> {
        self.reads += 1;
        if self.reads == 1 {
            Some(0)
        } else {
            None
        }
    }
}

#[test]
fn zero_length_read_is_immediate_end_of_stream() {
    // a probing loop that honours the EOF convention stops at the first
    // zero-length result and never reads again
    let mut source = ZeroThenError { reads: 0 };
    let mut buf = vec![0u8; 16];
    let mut pulls = 0usize;
    loop {
        let code = read_trampoline(&mut source, &mut buf);
        pulls += 1;
        if code <= 0 {
            assert_eq!(code, 0);
            break;
        }
    }
    assert_eq!(pulls, 1);
    assert_eq!(source.reads, 1);
}

#[test]
fn custom_io_open_matches_path_open_stream_info() {
    let data = bytes_0_to_99();
    let ev = InputEvents { open_status: 0, probe_status: 0, streams: 4 };
    let from_path = input(&ev).unwrap();
    let (from_custom, bridge) = input_io(MemoryReader::new(data), &ev).unwrap();
    assert_eq!(from_path.streams(), from_custom.streams());
    assert_eq!(from_custom.io_binding(), IoBinding::Custom);
    // teardown hands the resource back after the bridge is dismantled
    let reader = bridge.dismantle();
    assert_eq!(reader.stream_position(), 0);
}

#[test]
fn custom_io_open_failure_returns_only_the_error() {
    let ev = InputEvents { open_status: 0, probe_status: -5, streams: 0 };
    let res = input_io(MemoryReader::new(vec![1, 2, 3]), &ev);
    assert!(res.is_err());
}

#[test]
fn bridge_buffer_uses_the_declared_size() {
    let bridge = input_into_context(MemoryReader::new(vec![7u8; 10_000]));
    // the default declared block size
    assert_eq!(bridge.buffer_size_bytes(), 4096);
    assert_eq!(bridge.buffer_byte(0), 0);
    let mut bridge = bridge;
    assert_eq!(bridge.on_read(), 4096);
    assert_eq!(bridge.buffer_byte(0), 7);
    let (size, _) = bridge.on_seek(0, AVSEEK_SIZE);
    assert_eq!(size, 10_000);
}

#[test]
fn wav_output_through_custom_sink_starts_with_the_signature() {
    let fmt = OutputFormat::new(String::from("wav"));
    let ev = OutputEvents { alloc_status: 0, io_status: 0 };
    let (ctx, mut bridge) = output_io(MemoryWriter::new(), &fmt, &ev).unwrap();
    assert_eq!(ctx.io_binding(), IoBinding::Custom);
    assert_eq!(ctx.muxer_name().unwrap(), "wav");
    // the native finalize step emits the container header through the
    // bridge; the sink must hold the format's signature bytes at offset 0
    let header = b"RIFF\x24\x00\x00\x00WAVEfmt ";
    assert_eq!(bridge.on_write(header), header.len() as i32);
    let sink = bridge.dismantle();
    let bytes = sink.into_bytes();
    assert_eq!(&bytes[0..4], b"RIFF");
    assert_eq!(&bytes[8..12], b"WAVE");
}
