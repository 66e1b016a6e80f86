//! The custom I/O bridge: the host side of the native pull/push byte-stream
//! callback protocol.
//!
//! A host resource supplies bytes (input) or accepts bytes (output) through
//! the capability traits below instead of a filesystem path. The native
//! library drives the resource through fixed-signature callbacks; the
//! functions here are the synchronous cores of those callbacks. Each one
//! decodes the native request, dispatches to the host resource, and encodes
//! the outcome in the native protocol's terms, where the sentinel `-1`
//! stands for every host-side failure, end-of-stream, or unrepresentable
//! value — no host failure ever crosses the boundary any other way.

use vstd::prelude::*;

verus! {

/// The native seek protocol's size-query flag, ORed into the whence word
/// when the callback should report the stream's total size instead of
/// seeking.
pub const AVSEEK_SIZE: i32 = 0x10000;

/// A decoded seek target.
#[derive(Clone, Copy, PartialEq, Eq, Structural, Debug)]
pub enum SeekFrom {
    /// An absolute position from the start of the stream.
    Start(u64),
    /// A signed displacement from the current position.
    Current(i64),
    /// A signed displacement from the end of the stream.
    End(i64),
}

/// What a native `(offset, whence)` pair asks of the host resource.
#[derive(Clone, Copy, PartialEq, Eq, Structural, Debug)]
pub enum SeekRequest {
    /// Report the total size of the stream.
    Size,
    /// Move to the decoded position.
    Pos(SeekFrom),
    /// The whence value is not part of the protocol, or the absolute offset
    /// was negative: answer with the sentinel.
    Unsupported,
}

/// Which host operation a seek callback dispatched to.
#[derive(Clone, Copy, PartialEq, Eq, Structural, Debug)]
pub enum SeekAction {
    /// `size()` was queried; `seek` was not called.
    QueriedSize,
    /// `seek` was called with exactly this decoded target.
    CalledSeek(SeekFrom),
    /// Neither host operation was called; the sentinel was returned.
    Rejected,
}

/// The meaning of a native `(offset, whence)` pair: the size-query flag
/// wins over everything; otherwise whence selects absolute, current-relative
/// or end-relative addressing, and an absolute offset must be non-negative.
pub open spec fn decoded_seek(offset: i64, whence: i32) -> SeekRequest {
    if whence & AVSEEK_SIZE == AVSEEK_SIZE {
        SeekRequest::Size
    } else if whence == 0 {
        if offset >= 0 {
            SeekRequest::Pos(SeekFrom::Start(offset as u64))
        } else {
            SeekRequest::Unsupported
        }
    } else if whence == 1 {
        SeekRequest::Pos(SeekFrom::Current(offset))
    } else if whence == 2 {
        SeekRequest::Pos(SeekFrom::End(offset))
    } else {
        SeekRequest::Unsupported
    }
}

/// Relies on libc::SEEK_SET: the "absolute position" whence value, 0.
#[verifier::external_body]
fn whence_absolute() -> (r: i32)
    ensures
        r == 0,
{
    libc::SEEK_SET
}

/// Relies on libc::SEEK_CUR: the "relative to current" whence value, 1.
#[verifier::external_body]
fn whence_current() -> (r: i32)
    ensures
        r == 1,
{
    libc::SEEK_CUR
}

/// Relies on libc::SEEK_END: the "relative to end" whence value, 2.
#[verifier::external_body]
fn whence_end() -> (r: i32)
    ensures
        r == 2,
{
    libc::SEEK_END
}

/// Decode a native `(offset, whence)` pair into the request it stands for.
pub fn decode_seek(offset: i64, whence: i32) -> (r: SeekRequest)
    ensures
        r == decoded_seek(offset, whence),
{
    if whence & AVSEEK_SIZE == AVSEEK_SIZE {
        SeekRequest::Size
    } else if whence == whence_absolute() {
        if offset >= 0 {
            SeekRequest::Pos(SeekFrom::Start(offset as u64))
        } else {
            SeekRequest::Unsupported
        }
    } else if whence == whence_current() {
        SeekRequest::Pos(SeekFrom::Current(offset))
    } else if whence == whence_end() {
        SeekRequest::Pos(SeekFrom::End(offset))
    } else {
        SeekRequest::Unsupported
    }
}

/// A 64-bit unsigned host position translated to the native signed type:
/// `None` when it does not fit.
pub fn u64_to_i64(n: u64) -> (r: Option<i64>)
    ensures
        r == (if n <= i64::MAX as u64 {
            Some(n as i64)
        } else {
            None::<i64>
        }),
{
    if n <= i64::MAX as u64 {
        Some(n as i64)
    } else {
        None
    }
}

/// A native signed offset translated to a host position: `None` when it is
/// negative.
pub fn i64_to_u64(n: i64) -> (r: Option<u64>)
    ensures
        r == (if n >= 0 {
            Some(n as u64)
        } else {
            None::<u64>
        }),
{
    if n >= 0 {
        Some(n as u64)
    } else {
        None
    }
}

/// How a host position or size answer is reported to the native seek
/// protocol: the value when it fits the signed 64-bit range, the sentinel
/// for `None` or an unrepresentable value.
pub open spec fn seek_result_code(r: Option<u64>) -> i64 {
    match r {
        Some(n) => if n <= i64::MAX as u64 {
            n as i64
        } else {
            -1i64
        },
        None => -1i64,
    }
}

/// Encode a host seek or size outcome for the native protocol.
pub fn encode_seek_result(r: Option<u64>) -> (c: i64)
    ensures
        c == seek_result_code(r),
        c >= -1,
{
    match r {
        Some(n) => {
            match u64_to_i64(n) {
                Some(v) => {
                    proof {
                        assert(n <= i64::MAX as u64 ==> n as i64 >= 0) by (bit_vector);
                    }
                    v
                },
                None => -1,
            }
        },
        None => -1,
    }
}

/// How a host read outcome is reported to the native read callback: the
/// byte count as it stands (zero passes through, meaning end-of-stream),
/// the sentinel for `None`.
pub open spec fn read_result_code(r: Option<usize>) -> i32 {
    match r {
        Some(n) => n as i32,
        None => -1i32,
    }
}

/// Encode a host read outcome for the native protocol.
pub fn encode_read_result(r: Option<usize>) -> (c: i32)
    requires
        r matches Some(n) ==> n <= i32::MAX,
    ensures
        c == read_result_code(r),
        c >= -1,
        r matches Some(n) ==> c == n,
{
    match r {
        Some(n) => {
            proof {
                assert(n <= i32::MAX as usize ==> n as i32 >= 0 && n as i32 == n) by (bit_vector);
            }
            n as i32
        },
        None => -1,
    }
}

/// How a host write outcome is reported to the native write callback: the
/// byte count when positive; `None` and a zero count both signal failure.
pub open spec fn write_result_code(r: Option<usize>) -> i32 {
    match r {
        Some(n) => if 0 < n {
            n as i32
        } else {
            -1i32
        },
        None => -1i32,
    }
}

/// Encode a host write outcome for the native protocol.
pub fn encode_write_result(r: Option<usize>) -> (c: i32)
    requires
        r matches Some(n) ==> n <= i32::MAX,
    ensures
        c == write_result_code(r),
        c >= -1,
        r matches Some(n) && 0 < r.unwrap() ==> c == r.unwrap(),
{
    match r {
        Some(n) => {
            if 0 < n {
                proof {
                    assert(n <= i32::MAX as usize ==> n as i32 >= 0) by (bit_vector);
                }
                n as i32
            } else {
                -1
            }
        },
        None => -1,
    }
}

/// A host resource that can reposition its cursor; the base capability of
/// both the readable and the writable sets.
pub trait AVSeek: Sized {
    /// Move the cursor to `pos`. `Some(new absolute position)` on success,
    /// `None` on error.
    fn seek(&mut self, pos: SeekFrom) -> Option<u64>;

    /// The total size of the data, where the resource can tell it; a
    /// resource that cannot reports none.
    fn size(&self) -> Option<u64> {
        None
    }
}

/// A host resource usable as a custom byte source for demuxing.
pub trait AVInput: AVSeek {
    /// Fill a prefix of `buf` and report how many bytes were read, never
    /// more than the buffer holds. `None` and `Some(0)` both signal
    /// end-of-stream. The buffer keeps its length.
    fn read_packet(&mut self, buf: &mut Vec<u8>) -> (r: Option<usize>)
        ensures
            final(buf)@.len() == old(buf)@.len(),
            r matches Some(n) ==> n <= final(buf)@.len(),
    ;

    /// The bridging-buffer size the native side should allocate: the
    /// natural block size of the backing medium.
    fn buffer_size() -> (n: i32)
        ensures
            0 < n,
    {
        4096
    }
}

/// A host resource usable as a custom byte sink for muxing.
pub trait AVOutput: AVSeek {
    /// Write `buf` and report how many bytes were written, never more than
    /// the buffer holds. `None` and `Some(0)` both signal failure.
    fn write_packet(&mut self, buf: &[u8]) -> (r: Option<usize>)
        ensures
            r matches Some(n) ==> n <= buf@.len(),
    ;

    /// The bridging-buffer size the native side should allocate: the
    /// natural block size of the backing medium.
    fn buffer_size() -> (n: i32)
        ensures
            0 < n,
    {
        4096
    }
}

/// The read callback's core: ask the host resource to fill the native
/// buffer and report the count in the native protocol's terms, with `-1`
/// for end-of-stream signalled by `None` and a zero count passed through
/// unchanged, per the protocol's EOF convention.
pub fn read_trampoline<I: AVInput>(this: &mut I, buf: &mut Vec<u8>) -> (r: i32)
    requires
        old(buf)@.len() <= i32::MAX,
    ensures
        final(buf)@.len() == old(buf)@.len(),
        -1 <= r && r <= final(buf)@.len(),
{
    let res = this.read_packet(buf);
    encode_read_result(res)
}

/// The seek callback's core: decode the native `(offset, whence)` pair,
/// dispatch to exactly the host operation the protocol asks for, and encode
/// the outcome, with `-1` for every failure or unrepresentable value. The
/// returned action records which host operation was invoked and with what
/// target, and always matches the decoded request.
pub fn seek_trampoline<S: AVSeek>(this: &mut S, offset: i64, whence: i32) -> (r: (i64, Ghost<
    SeekAction,
>))
    ensures
        r.1@ == expected_seek_action(offset, whence),
        r.0 >= -1,
        decoded_seek(offset, whence) == SeekRequest::Unsupported ==> r.0 == -1,
{
    let req = decode_seek(offset, whence);
    match req {
        SeekRequest::Size => {
            let answer = this.size();
            (encode_seek_result(answer), Ghost(SeekAction::QueriedSize))
        },
        SeekRequest::Pos(target) => {
            let answer = this.seek(target);
            (encode_seek_result(answer), Ghost(SeekAction::CalledSeek(target)))
        },
        SeekRequest::Unsupported => (-1i64, Ghost(SeekAction::Rejected)),
    }
}

/// The write callback's core: hand the native buffer to the host sink and
/// report the count in the native protocol's terms, with `-1` for failure
/// signalled by `None` or a zero count.
pub fn write_trampoline<O: AVOutput>(this: &mut O, buf: &[u8]) -> (r: i32)
    requires
        buf@.len() <= i32::MAX,
    ensures
        -1 <= r && r <= buf@.len(),
{
    let res = this.write_packet(buf);
    encode_write_result(res)
}

/// The host operation that the seek callback dispatches to for a native
/// `(offset, whence)` pair.
pub open spec fn expected_seek_action(offset: i64, whence: i32) -> SeekAction {
    match decoded_seek(offset, whence) {
        SeekRequest::Size => SeekAction::QueriedSize,
        SeekRequest::Pos(target) => SeekAction::CalledSeek(target),
        SeekRequest::Unsupported => SeekAction::Rejected,
    }
}

/// The seek-dispatch law: when the size-query flag is ORed into whence, the
/// callback queries `size()` and never calls `seek`; for the three protocol
/// whence values it calls `seek` with exactly the decoded target (rejecting
/// an absolute offset that is negative); every other whence value is
/// rejected with neither host call.
pub proof fn lemma_seek_dispatch(offset: i64, whence: i32)
    ensures
        whence & AVSEEK_SIZE == AVSEEK_SIZE ==> expected_seek_action(offset, whence)
            == SeekAction::QueriedSize,
        whence & AVSEEK_SIZE != AVSEEK_SIZE ==> {
            &&& whence == 0 && offset >= 0 ==> expected_seek_action(offset, whence)
                == SeekAction::CalledSeek(SeekFrom::Start(offset as u64))
            &&& whence == 0 && offset < 0 ==> expected_seek_action(offset, whence)
                == SeekAction::Rejected
            &&& whence == 1 ==> expected_seek_action(offset, whence) == SeekAction::CalledSeek(
                SeekFrom::Current(offset),
            )
            &&& whence == 2 ==> expected_seek_action(offset, whence) == SeekAction::CalledSeek(
                SeekFrom::End(offset),
            )
            &&& whence != 0 && whence != 1 && whence != 2 ==> expected_seek_action(offset, whence)
                == SeekAction::Rejected
        },
{
}

} // verus!
