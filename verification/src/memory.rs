//! In-memory host resources: a readable byte buffer usable as a custom
//! demuxing source, and a writable byte sink usable as a custom muxing
//! target. Both keep a cursor with file-like semantics: seeking is allowed
//! past the end, reading past the end yields zero bytes (end-of-stream),
//! and writing past the end pads the gap with zero bytes.

use vstd::prelude::*;
use vstd::pervasive::VecAdditionalExecFns;

use crate::io::AVInput;
use crate::io::AVOutput;
use crate::io::AVSeek;
use crate::io::SeekFrom;

verus! {

/// Where a cursor lands for a seek target, given the current position and
/// the stream length: an absolute target is taken as it stands, a relative
/// target is resolved against the current position or the end, and a
/// resolved position outside the unsigned 64-bit range is an error.
pub open spec fn resolved_seek(cur: u64, len: u64, target: SeekFrom) -> Option<u64> {
    match target {
        SeekFrom::Start(p) => Some(p),
        SeekFrom::Current(d) => if 0 <= cur as int + d as int && cur as int + d as int <= u64::MAX
            as int {
            Some((cur as int + d as int) as u64)
        } else {
            None::<u64>
        },
        SeekFrom::End(d) => if 0 <= len as int + d as int && len as int + d as int <= u64::MAX
            as int {
            Some((len as int + d as int) as u64)
        } else {
            None::<u64>
        },
    }
}

/// `base + d` when it lies in the unsigned 64-bit range, `None` otherwise.
fn add_signed(base: u64, d: i64) -> (r: Option<u64>)
    ensures
        r == (if 0 <= base as int + d as int && base as int + d as int <= u64::MAX as int {
            Some((base as int + d as int) as u64)
        } else {
            None::<u64>
        }),
{
    if d >= 0 {
        let dd: u64 = d as u64;
        proof {
            assert(d >= 0 ==> d as u64 == d as int) by (bit_vector);
        }
        if base <= u64::MAX - dd {
            Some(base + dd)
        } else {
            None
        }
    } else {
        let mag: u64 = if d == i64::MIN {
            9223372036854775808u64
        } else {
            proof {
                assert(i64::MIN < d < 0 ==> (-d) as u64 == -(d as int)) by (bit_vector);
            }
            (-d) as u64
        };
        if base >= mag {
            Some(base - mag)
        } else {
            None
        }
    }
}

/// Resolve a seek target against a cursor and a stream length.
pub fn resolve_seek(cur: u64, len: u64, target: SeekFrom) -> (r: Option<u64>)
    ensures
        r == resolved_seek(cur, len, target),
{
    match target {
        SeekFrom::Start(p) => Some(p),
        SeekFrom::Current(d) => add_signed(cur, d),
        SeekFrom::End(d) => add_signed(len, d),
    }
}

/// How many bytes a read yields: none at or past the end, otherwise as many
/// as the buffer takes or as are left, whichever is smaller.
pub open spec fn read_count(len: int, pos: int, cap: int) -> int {
    if pos >= len {
        0
    } else if cap < len - pos {
        cap
    } else {
        len - pos
    }
}

/// A readable, seekable in-memory byte source.
pub struct MemoryReader {
    data: Vec<u8>,
    pos: u64,
}

impl MemoryReader {
    /// The bytes of the stream.
    pub closed spec fn bytes(&self) -> Seq<u8> {
        self.data@
    }

    /// The cursor, an absolute byte position; may lie past the end.
    pub closed spec fn position(&self) -> u64 {
        self.pos
    }

    /// A reader over `data`, with the cursor at the start.
    pub fn new(data: Vec<u8>) -> (r: MemoryReader)
        ensures
            r.bytes() == data@,
            r.position() == 0,
    {
        MemoryReader { data, pos: 0 }
    }

    /// The cursor's current absolute position.
    pub fn stream_position(&self) -> (p: u64)
        ensures
            p == self.position(),
    {
        self.pos
    }

    /// Move the cursor; the bytes are untouched, and a failed resolution
    /// leaves the cursor where it was.
    pub fn seek_impl(&mut self, target: SeekFrom) -> (r: Option<u64>)
        ensures
            final(self).bytes() == old(self).bytes(),
            r == resolved_seek(
                old(self).position(),
                old(self).bytes().len() as u64,
                target,
            ),
            match r {
                Some(p) => final(self).position() == p,
                None => final(self).position() == old(self).position(),
            },
    {
        let len: u64 = self.data.len() as u64;
        match resolve_seek(self.pos, len, target) {
            Some(p) => {
                self.pos = p;
                Some(p)
            },
            None => None,
        }
    }

    /// Fill a prefix of `buf` from the cursor onward and advance the cursor
    /// by the count read; the rest of `buf` is untouched. At or past the
    /// end the count is zero, the protocol's end-of-stream signal.
    pub fn read_impl(&mut self, buf: &mut Vec<u8>) -> (r: Option<usize>)
        ensures
            final(self).bytes() == old(self).bytes(),
            final(buf)@.len() == old(buf)@.len(),
            ({
                let k = read_count(
                    old(self).bytes().len() as int,
                    old(self).position() as int,
                    old(buf)@.len() as int,
                );
                &&& r == Some(k as usize)
                &&& final(self).position() == old(self).position() + k
                &&& forall|j: int|
                    0 <= j < k ==> final(buf)@[j] == old(self).bytes()[old(
                        self,
                    ).position() as int + j]
                &&& forall|j: int| k <= j < final(buf)@.len() ==> final(buf)@[j] == old(buf)@[j]
            }),
    {
        let len = self.data.len();
        if self.pos >= len as u64 {
            return Some(0);
        }
        let pos = self.pos as usize;
        let avail = len - pos;
        let cap = buf.len();
        let k = if cap < avail {
            cap
        } else {
            avail
        };
        let mut i: usize = 0;
        while i < k
            invariant
                i <= k,
                k <= buf@.len(),
                pos + k <= self.data@.len(),
                pos + k <= usize::MAX,
                self.data@ == old(self).data@,
                self.pos == old(self).pos,
                buf@.len() == old(buf)@.len(),
                forall|j: int| 0 <= j < i ==> buf@[j] == self.data@[pos + j],
                forall|j: int| i <= j < buf@.len() ==> buf@[j] == old(buf)@[j],
            decreases k - i,
        {
            let b = self.data[pos + i];
            buf.set(i, b);
            i = i + 1;
        }
        self.pos = self.pos + k as u64;
        Some(k)
    }

    /// The total size of the stream, always known for an in-memory source.
    pub fn size_hint(&self) -> (r: Option<u64>)
        ensures
            r == Some(self.bytes().len() as u64),
    {
        Some(self.data.len() as u64)
    }
}

impl AVSeek for MemoryReader {
    fn seek(&mut self, pos: SeekFrom) -> Option<u64> {
        self.seek_impl(pos)
    }

    fn size(&self) -> Option<u64> {
        self.size_hint()
    }
}

impl AVInput for MemoryReader {
    fn read_packet(&mut self, buf: &mut Vec<u8>) -> (r: Option<usize>) {
        self.read_impl(buf)
    }
}

/// The bytes of a sink after `patch` is written at `pos`: the patch where
/// it lands, the old bytes elsewhere, and zero bytes in any gap between the
/// old end and `pos`.
pub open spec fn overlay(data: Seq<u8>, pos: int, patch: Seq<u8>) -> Seq<u8> {
    Seq::new(
        if data.len() >= pos + patch.len() {
            data.len()
        } else {
            (pos + patch.len()) as nat
        },
        |j: int|
            if pos <= j < pos + patch.len() {
                patch[j - pos]
            } else if j < data.len() {
                data[j]
            } else {
                0u8
            },
    )
}

/// A writable, seekable in-memory byte sink.
pub struct MemoryWriter {
    data: Vec<u8>,
    pos: u64,
}

impl MemoryWriter {
    /// The bytes written so far.
    pub closed spec fn bytes(&self) -> Seq<u8> {
        self.data@
    }

    /// The cursor, an absolute byte position; may lie past the end.
    pub closed spec fn position(&self) -> u64 {
        self.pos
    }

    /// An empty sink with the cursor at the start.
    pub fn new() -> (r: MemoryWriter)
        ensures
            r.bytes() == Seq::<u8>::empty(),
            r.position() == 0,
    {
        MemoryWriter { data: Vec::new(), pos: 0 }
    }

    /// The cursor's current absolute position.
    pub fn stream_position(&self) -> (p: u64)
        ensures
            p == self.position(),
    {
        self.pos
    }

    /// The bytes accumulated in the sink.
    pub fn into_bytes(self) -> (r: Vec<u8>)
        ensures
            r@ == self.bytes(),
    {
        self.data
    }

    /// Move the cursor; the bytes are untouched, and a failed resolution
    /// leaves the cursor where it was.
    pub fn seek_impl(&mut self, target: SeekFrom) -> (r: Option<u64>)
        ensures
            final(self).bytes() == old(self).bytes(),
            r == resolved_seek(
                old(self).position(),
                old(self).bytes().len() as u64,
                target,
            ),
            match r {
                Some(p) => final(self).position() == p,
                None => final(self).position() == old(self).position(),
            },
    {
        let len: u64 = self.data.len() as u64;
        match resolve_seek(self.pos, len, target) {
            Some(p) => {
                self.pos = p;
                Some(p)
            },
            None => None,
        }
    }

    /// Write all of `buf` at the cursor, padding with zero bytes if the
    /// cursor lies past the end, and advance the cursor past the written
    /// bytes. Fails, leaving the sink untouched, only when the written
    /// extent would not fit the addressable range.
    pub fn write_impl(&mut self, buf: &[u8]) -> (r: Option<usize>)
        ensures
            r is Some <==> old(self).position() as int + buf@.len() as int <= usize::MAX as int,
            match r {
                Some(n) => {
                    &&& n == buf@.len()
                    &&& final(self).bytes() == overlay(
                        old(self).bytes(),
                        old(self).position() as int,
                        buf@,
                    )
                    &&& final(self).position() == old(self).position() + buf@.len()
                },
                None => *final(self) == *old(self),
            },
    {
        if self.pos > usize::MAX as u64 - (buf.len() as u64) {
            return None;
        }
        let pos = self.pos as usize;
        while self.data.len() < pos
            invariant
                self.pos == old(self).pos,
                pos as int == old(self).pos as int,
                old(self).data@.len() <= self.data@.len(),
                self.data@.len() <= pos || self.data@.len() == old(self).data@.len(),
                forall|j: int|
                    0 <= j < old(self).data@.len() ==> self.data@[j] == old(self).data@[j],
                forall|j: int|
                    old(self).data@.len() <= j < self.data@.len() ==> self.data@[j] == 0u8,
            decreases pos - self.data.len(),
        {
            self.data.push(0u8);
        }
        let ghost base = self.data@;
        let mut i: usize = 0;
        while i < buf.len()
            invariant
                i <= buf@.len(),
                pos as int + buf@.len() as int <= usize::MAX as int,
                pos <= base.len(),
                old(self).data@.len() <= base.len(),
                base.len() == pos || base.len() == old(self).data@.len(),
                forall|j: int| 0 <= j < old(self).data@.len() ==> base[j] == old(self).data@[j],
                forall|j: int| old(self).data@.len() <= j < base.len() ==> base[j] == 0u8,
                self.pos == old(self).pos,
                pos as int == old(self).pos as int,
                self.data@.len() == (if base.len() >= pos + i {
                    base.len()
                } else {
                    (pos + i) as nat
                }),
                forall|j: int| 0 <= j < pos ==> self.data@[j] == base[j],
                forall|j: int| pos <= j < pos + i ==> self.data@[j] == buf@[j - pos],
                forall|j: int| pos + i <= j < self.data@.len() ==> self.data@[j] == base[j],
            decreases buf@.len() - i,
        {
            let b = buf[i];
            if pos + i < self.data.len() {
                self.data.set(pos + i, b);
            } else {
                self.data.push(b);
            }
            i = i + 1;
        }
        proof {
            let fin = self.data@;
            let ov = overlay(old(self).data@, old(self).pos as int, buf@);
            assert(fin.len() == ov.len());
            assert forall|j: int| 0 <= j < fin.len() implies fin[j] == ov[j] by {
                if j < pos {
                    assert(fin[j] == base[j]);
                } else if j < pos + buf@.len() {
                    assert(fin[j] == buf@[j - pos]);
                } else {
                    assert(fin[j] == base[j]);
                    assert(j < old(self).data@.len());
                }
            }
            assert(self.data@ =~= overlay(old(self).data@, old(self).pos as int, buf@));
        }
        self.pos = self.pos + buf.len() as u64;
        Some(buf.len())
    }

    /// The total size of the stream, always known for an in-memory sink.
    pub fn size_hint(&self) -> (r: Option<u64>)
        ensures
            r == Some(self.bytes().len() as u64),
    {
        Some(self.data.len() as u64)
    }
}

impl AVSeek for MemoryWriter {
    fn seek(&mut self, pos: SeekFrom) -> Option<u64> {
        self.seek_impl(pos)
    }

    fn size(&self) -> Option<u64> {
        self.size_hint()
    }
}

impl AVOutput for MemoryWriter {
    fn write_packet(&mut self, buf: &[u8]) -> (r: Option<usize>) {
        self.write_impl(buf)
    }
}

} // verus!
