use vstd::prelude::*;

use crate::error::Error;

verus! {

/// Anchor for a seek offset within a stream capability.
#[derive(Debug, Clone, Copy, PartialEq, Eq, Hash, Structural)]
pub enum SeekMode {
    Start,
    End,
    Current,
}

/// A seek request as the engine phrases it: an offset anchored at the start,
/// the end, or the current position of the stream.
#[derive(Debug, Clone, Copy, PartialEq, Eq, Hash, Structural)]
pub enum SeekFrom {
    Start(u64),
    Current(i64),
    End(i64),
}

/// The absolute position a seek is anchored at: the start of the stream, its
/// end, or the current position.
pub open spec fn seek_base(mode: SeekMode, len: int, pos: int) -> int {
    match mode {
        SeekMode::Start => 0,
        SeekMode::End => len,
        SeekMode::Current => pos,
    }
}

/// What a successful bounded read returns: some prefix of the bytes between
/// the current position and the end of the data, never more than requested,
/// and empty only at end-of-data (or for a zero-length request).
pub open spec fn read_ok(d: Seq<u8>, p: int, length: int, bytes: Seq<u8>, new_p: int) -> bool {
    &&& bytes.len() <= length
    &&& new_p == p + bytes.len()
    &&& (if p < d.len() {
        p + bytes.len() <= d.len() && bytes == d.subrange(p, p + bytes.len())
    } else {
        bytes.len() == 0
    })
    &&& ((bytes.len() == 0 && length > 0) ==> p >= d.len())
}

/// How many bytes a full-length read returns: everything asked for, clipped
/// to what remains before end-of-data.
pub open spec fn stream_read_count(d: Seq<u8>, p: int, length: int) -> int {
    if p >= d.len() {
        0
    } else if p + length <= d.len() {
        length
    } else {
        d.len() - p
    }
}

/// The contents of a stream after writing `w` at position `p`: bytes before
/// `p` are kept, a gap between the old end and `p` is zero-filled, and bytes
/// after the written range are kept.
pub open spec fn stream_written(d: Seq<u8>, p: int, w: Seq<u8>) -> Seq<u8>
    recommends
        0 <= p,
{
    if w.len() == 0 {
        d
    } else {
        stream_written_some(d, p, w)
    }
}

/// The contents after a non-empty write; the zero-filled gap appears only
/// when something is actually written past the old end.
pub open spec fn stream_written_some(d: Seq<u8>, p: int, w: Seq<u8>) -> Seq<u8>
    recommends
        0 <= p,
{
    let padded = if p <= d.len() {
        d
    } else {
        d + Seq::new((p - d.len()) as nat, |_i: int| 0u8)
    };
    padded.take(p) + w + (if p + w.len() < padded.len() {
        padded.skip(p + w.len())
    } else {
        Seq::<u8>::empty()
    })
}

/// A byte-stream capability: three bounded callback operations over a
/// seekable sequence of bytes that the capability owner stores.  The model is
/// the stored bytes (`data`) and the cursor (`pos`); `inv` is the
/// implementation's own well-formedness and `exact` marks implementations
/// that never fail a read or write and never return short counts, as the
/// in-memory capability does.  A host-side capability may return short reads
/// or fail; every outcome it is allowed falls within these contracts.
pub trait Stream: Sized {
    spec fn data(&self) -> Seq<u8>;

    spec fn pos(&self) -> int;

    spec fn inv(&self) -> bool;

    spec fn exact(&self) -> bool;

    /// Read up to `length` bytes from the current position.  A short read is
    /// legal; an empty result for a non-zero request signals end-of-data; the
    /// stored bytes are never changed.
    fn read_stream(&mut self, length: u64) -> (r: Result<Vec<u8>, Error>)
        requires
            old(self).inv(),
            0 <= old(self).pos(),
        ensures
            final(self).inv(),
            0 <= final(self).pos(),
            final(self).exact() == old(self).exact(),
            final(self).data() == old(self).data(),
            match r {
                Ok(bytes) => {
                    &&& read_ok(
                        old(self).data(),
                        old(self).pos(),
                        length as int,
                        bytes@,
                        final(self).pos(),
                    )
                    &&& (old(self).exact() ==> bytes@.len() == stream_read_count(
                        old(self).data(),
                        old(self).pos(),
                        length as int,
                    ))
                },
                Err(_) => {
                    &&& final(self).pos() == old(self).pos()
                    &&& !old(self).exact()
                },
            },
    ;

    /// Move the cursor to `base + pos` where `base` is fixed by `mode`.
    /// Seeking past the end is legal; a position before the start or beyond
    /// the largest absolute position fails.
    fn seek_stream(&mut self, pos: i64, mode: SeekMode) -> (r: Result<u64, Error>)
        requires
            old(self).inv(),
            0 <= old(self).pos(),
        ensures
            final(self).inv(),
            0 <= final(self).pos(),
            final(self).exact() == old(self).exact(),
            final(self).data() == old(self).data(),
            match r {
                Ok(new_pos) => {
                    &&& new_pos == seek_base(mode, old(self).data().len() as int, old(self).pos())
                        + pos
                    &&& final(self).pos() == new_pos as int
                },
                Err(_) => final(self).pos() == old(self).pos(),
            },
            old(self).exact() ==> ((r matches Ok(_)) <==> {
                let target = seek_base(mode, old(self).data().len() as int, old(self).pos())
                    + pos;
                0 <= target <= u64::MAX
            }),
    ;

    /// Write `data` at the current position, overwriting and extending the
    /// stored bytes, and report how many bytes were accepted.  A short write
    /// is legal.
    fn write_stream(&mut self, data: Vec<u8>) -> (r: Result<u64, Error>)
        requires
            old(self).inv(),
            0 <= old(self).pos(),
        ensures
            final(self).inv(),
            0 <= final(self).pos(),
            final(self).exact() == old(self).exact(),
            match r {
                Ok(n) => {
                    &&& n <= data@.len()
                    &&& final(self).data() == stream_written(
                        old(self).data(),
                        old(self).pos(),
                        data@.take(n as int),
                    )
                    &&& final(self).pos() == old(self).pos() + n
                },
                Err(_) => {
                    &&& final(self).data() == old(self).data()
                    &&& final(self).pos() == old(self).pos()
                },
            },
            (old(self).exact() && old(self).pos() + data@.len() <= usize::MAX) ==> match r {
                Ok(n) => n == data@.len(),
                Err(_) => false,
            },
    ;
}

/// An in-memory stream capability: a growable byte buffer with a cursor.  It
/// is `exact`: reads and writes never fail and never return short counts.
pub struct TestStream {
    buffer: Vec<u8>,
    cursor: u64,
}

impl TestStream {
    /// An empty in-memory stream positioned at the start.
    pub fn new() -> (s: Self)
        ensures
            s.inv(),
            s.exact(),
            s.data() == Seq::<u8>::empty(),
            s.pos() == 0,
    {
        TestStream { buffer: Vec::new(), cursor: 0 }
    }

    /// An in-memory stream holding `data`, positioned at the start.
    pub fn from_memory(data: Vec<u8>) -> (s: Self)
        ensures
            s.inv(),
            s.exact(),
            s.data() == data@,
            s.pos() == 0,
    {
        TestStream { buffer: data, cursor: 0 }
    }
}

impl Stream for TestStream {
    closed spec fn data(&self) -> Seq<u8> {
        self.buffer@
    }

    closed spec fn pos(&self) -> int {
        self.cursor as int
    }

    closed spec fn inv(&self) -> bool {
        true
    }

    closed spec fn exact(&self) -> bool {
        true
    }

    fn read_stream(&mut self, length: u64) -> (r: Result<Vec<u8>, Error>) {
        let len = self.buffer.len();
        if self.cursor >= len as u64 {
            return Ok(Vec::new());
        }
        let start: usize = self.cursor as usize;
        let avail: usize = len - start;
        let n: usize = if length <= avail as u64 {
            length as usize
        } else {
            avail
        };
        let mut out: Vec<u8> = Vec::new();
        let mut i: usize = 0;
        while i < n
            invariant
                i <= n,
                n <= avail,
                avail == len - start,
                start < len,
                len == self.buffer@.len(),
                start == self.cursor,
                out@ == self.buffer@.subrange(start as int, start as int + i as int),
            decreases n - i,
        {
            let b = self.buffer[start + i];
            out.push(b);
            i += 1;
        }
        self.cursor = self.cursor + n as u64;
        Ok(out)
    }

    fn seek_stream(&mut self, pos: i64, mode: SeekMode) -> (r: Result<u64, Error>) {
        let base: u64 = match mode {
            SeekMode::Start => 0,
            SeekMode::End => self.buffer.len() as u64,
            SeekMode::Current => self.cursor,
        };
        match base.checked_add_signed(pos) {
            Some(target) => {
                self.cursor = target;
                Ok(target)
            },
            None => Err(Error::Io { reason: "seek target out of range".to_string() }),
        }
    }

    fn write_stream(&mut self, data: Vec<u8>) -> (r: Result<u64, Error>) {
        let w_len = data.len();
        if w_len == 0 {
            return Ok(0);
        }
        if self.cursor > (usize::MAX - w_len) as u64 {
            return Err(
                Error::Io { reason: "write target exceeds addressable range".to_string() },
            );
        }
        let p: usize = self.cursor as usize;
        let old_len = self.buffer.len();
        let cut: usize = if p <= old_len {
            p
        } else {
            old_len
        };
        let ghost d = self.buffer@;
        let mut nd: Vec<u8> = Vec::new();
        let mut i: usize = 0;
        while i < cut
            invariant
                i <= cut,
                cut <= old_len,
                old_len == d.len(),
                d == self.buffer@,
                nd@ == d.take(i as int),
            decreases cut - i,
        {
            let b = self.buffer[i];
            nd.push(b);
            i += 1;
        }
        while nd.len() < p
            invariant
                cut <= nd@.len() <= p || nd@.len() == cut,
                cut <= p,
                cut <= old_len,
                old_len == d.len(),
                d == self.buffer@,
                nd@ == d.take(cut as int) + Seq::new((nd@.len() - cut) as nat, |_j: int| 0u8),
            decreases p - nd.len(),
        {
            nd.push(0u8);
        }
        let mut j: usize = 0;
        while j < w_len
            invariant
                j <= w_len,
                w_len == data@.len(),
                old_len == d.len(),
                d == self.buffer@,
                nd@ == d.take(cut as int) + Seq::new((p - cut) as nat, |_k: int| 0u8)
                    + data@.take(j as int),
                cut <= p,
                cut <= old_len,
                nd@.len() == p + j,
            decreases w_len - j,
        {
            let b = data[j];
            nd.push(b);
            j += 1;
        }
        let end = p + w_len;
        if end < old_len {
            let mut k: usize = end;
            while k < old_len
                invariant
                    end <= k <= old_len,
                    old_len == d.len(),
                    d == self.buffer@,
                    end == p + w_len,
                    w_len == data@.len(),
                    cut <= p,
                    cut <= old_len,
                    nd@ == d.take(cut as int) + Seq::new((p - cut) as nat, |_m: int| 0u8)
                        + data@ + d.subrange(end as int, k as int),
                decreases old_len - k,
            {
                let b = self.buffer[k];
                nd.push(b);
                k += 1;
            }
        }
        proof {
            assert(data@.take(w_len as int) =~= data@);
            assert(nd@ =~= stream_written(d, p as int, data@.take(w_len as int)));
        }
        self.buffer = nd;
        self.cursor = self.cursor + w_len as u64;
        Ok(w_len as u64)
    }
}

/// Stream round trip: any byte sequence written through the bridge to an
/// empty in-memory capability becomes exactly its contents, and reading its
/// full length back from the start returns exactly those bytes.
pub proof fn lemma_stream_round_trip(b: Seq<u8>)
    ensures
        stream_written(Seq::<u8>::empty(), 0, b) =~= b,
        stream_read_count(b, 0, b.len() as int) == b.len(),
        read_ok(b, 0, b.len() as int, b, b.len() as int),
{
    assert(b.subrange(0, b.len() as int) =~= b);
}

/// Short read correctness: a read of length `l` from a capability holding
/// fewer than `l` remaining bytes returns exactly the remaining bytes and
/// leaves the capability positioned at true end-of-data.
pub proof fn lemma_short_read(d: Seq<u8>, p: int, l: int)
    requires
        0 <= p <= d.len(),
        d.len() - p < l,
    ensures
        stream_read_count(d, p, l) == d.len() - p,
        read_ok(d, p, l, d.subrange(p, d.len() as int), d.len() as int),
{
}

/// Seek anchoring: for an `N`-byte capability, a seek anchored at the end
/// with offset zero resolves to `N` and a read there returns zero bytes; a
/// seek anchored at the start with offset `k` resolves to `k`, and a full
/// read there returns exactly the bytes from `k` to the end.
pub proof fn lemma_seek_anchoring(d: Seq<u8>, p: int, k: int)
    requires
        0 <= k <= d.len(),
        0 <= p,
    ensures
        seek_base(SeekMode::End, d.len() as int, p) + 0 == d.len(),
        stream_read_count(d, d.len() as int, 1) == 0,
        seek_base(SeekMode::Start, d.len() as int, p) + k == k,
        stream_read_count(d, k, d.len() - k) == d.len() - k,
        read_ok(d, k, d.len() - k, d.subrange(k, d.len() as int), d.len() as int),
{
}

/// Writing `w1` at `p` and then `w2` right after it leaves the stream as one
/// write of `w1 + w2` at `p` would have.
pub proof fn lemma_stream_written_append(d: Seq<u8>, p: int, w1: Seq<u8>, w2: Seq<u8>)
    requires
        0 <= p,
    ensures
        stream_written(stream_written(d, p, w1), p + w1.len(), w2) =~= stream_written(
            d,
            p,
            w1 + w2,
        ),
{
    if w1.len() == 0 {
        assert(w1 + w2 =~= w2);
    } else if w2.len() == 0 {
        assert(w1 + w2 =~= w1);
    } else {
        let padded = if p <= d.len() {
            d
        } else {
            d + Seq::new((p - d.len()) as nat, |_i: int| 0u8)
        };
        let first = stream_written_some(d, p, w1);
        let p2 = p + w1.len();
        assert(p <= padded.len());
        assert(first.len() == if p2 < padded.len() {
            padded.len() as int
        } else {
            p2
        });
        assert forall|i: int| 0 <= i < first.len() implies first[i] == (if i < p {
            padded[i]
        } else if i < p2 {
            w1[i - p]
        } else {
            padded[i]
        }) by {}
        let lhs = stream_written_some(first, p2, w2);
        let rhs = stream_written_some(d, p, w1 + w2);
        assert(p2 <= first.len());
        assert(lhs.len() == rhs.len());
        assert forall|i: int| 0 <= i < lhs.len() implies lhs[i] == rhs[i] by {
            if i < p {
                assert(lhs[i] == first[i]);
                assert(first[i] == padded[i]);
            } else if i < p2 {
                assert(lhs[i] == first[i]);
                assert(first[i] == w1[i - p]);
                assert(rhs[i] == (w1 + w2)[i - p]);
            } else if i < p2 + w2.len() {
                assert(lhs[i] == w2[i - p2]);
                assert(rhs[i] == (w1 + w2)[i - p]);
            } else {
                assert(lhs[i] == first[i]);
                assert(first[i] == padded[i]);
            }
        }
        assert(stream_written(stream_written(d, p, w1), p + w1.len(), w2) == lhs);
        assert(stream_written(d, p, w1 + w2) == rhs);
    }
}

/// Drain a stream capability from its current position to end-of-data and
/// return everything that was left.  Any capability failure is reported as
/// an `Io`-class failure.
pub fn read_to_end<S: Stream>(s: &mut S) -> (r: Result<Vec<u8>, Error>)
    requires
        old(s).inv(),
        0 <= old(s).pos(),
    ensures
        final(s).inv(),
        0 <= final(s).pos(),
        final(s).exact() == old(s).exact(),
        final(s).data() == old(s).data(),
        match r {
            Ok(v) => (if old(s).pos() <= old(s).data().len() {
                v@ == old(s).data().skip(old(s).pos()) && final(s).pos() == old(
                    s,
                ).data().len()
            } else {
                v@.len() == 0 && final(s).pos() == old(s).pos()
            }),
            Err(e) => {
                &&& e.spec_kind() == crate::error::ErrorKind::Io
                &&& !old(s).exact()
            },
        },
{
    let mut out: Vec<u8> = Vec::new();
    let mut done = false;
    proof {
        if old(s).pos() <= old(s).data().len() {
            assert(out@ =~= old(s).data().subrange(old(s).pos(), old(s).pos()));
        }
    }
    while !done
        invariant
            s.inv(),
            0 <= old(s).pos(),
            0 <= s.pos(),
            s.exact() == old(s).exact(),
            s.data() == old(s).data(),
            if old(s).pos() <= old(s).data().len() {
                old(s).pos() <= s.pos() <= s.data().len() && out@ == old(s).data().subrange(
                    old(s).pos(),
                    s.pos(),
                )
            } else {
                s.pos() == old(s).pos() && out@.len() == 0
            },
            done ==> s.pos() >= s.data().len() || old(s).pos() > old(s).data().len(),
        decreases (if s.pos() <= s.data().len() {
            s.data().len() - s.pos()
        } else {
            0
        }) + (if done {
            0int
        } else {
            1int
        }),
    {
        match s.read_stream(65536) {
            Ok(bytes) => {
                if bytes.len() == 0 {
                    done = true;
                } else {
                    let mut tail = bytes;
                    out.append(&mut tail);
                    proof {
                        if old(s).pos() <= old(s).data().len() {
                            assert(out@ =~= old(s).data().subrange(old(s).pos(), s.pos()));
                        }
                    }
                }
            },
            Err(e) => {
                return Err(Error::Io { reason: e.reason() });
            },
        }
    }
    proof {
        if old(s).pos() <= old(s).data().len() {
            assert(s.pos() == s.data().len());
            assert(out@ =~= old(s).data().skip(old(s).pos()));
        }
    }
    Ok(out)
}

/// Hand every byte of `data` to a stream capability, writing again from
/// where a short write stopped, until all of it is accepted.  A capability
/// that accepts nothing while bytes remain, like any capability failure, is
/// reported as an `Io`-class failure.
pub fn write_all<S: Stream>(s: &mut S, data: &Vec<u8>) -> (r: Result<(), Error>)
    requires
        old(s).inv(),
        0 <= old(s).pos(),
    ensures
        final(s).inv(),
        0 <= final(s).pos(),
        final(s).exact() == old(s).exact(),
        match r {
            Ok(_) => {
                &&& final(s).data() == stream_written(old(s).data(), old(s).pos(), data@)
                &&& final(s).pos() == old(s).pos() + data@.len()
            },
            Err(e) => e.spec_kind() == crate::error::ErrorKind::Io,
        },
        (old(s).exact() && old(s).pos() + data@.len() <= usize::MAX) ==> (r matches Ok(_)),
{
    let len = data.len();
    let mut written: usize = 0;
    proof {
        assert(data@.take(0) =~= Seq::<u8>::empty());
        assert(stream_written(old(s).data(), old(s).pos(), Seq::<u8>::empty()) =~= old(
            s,
        ).data());
    }
    while written < len
        invariant
            s.inv(),
            0 <= old(s).pos(),
            0 <= s.pos(),
            s.exact() == old(s).exact(),
            written <= len,
            len == data@.len(),
            s.data() == stream_written(old(s).data(), old(s).pos(), data@.take(written as int)),
            s.pos() == old(s).pos() + written,
        decreases len - written,
    {
        let mut chunk: Vec<u8> = Vec::new();
        let mut i: usize = written;
        while i < len
            invariant
                written <= i <= len,
                len == data@.len(),
                chunk@ == data@.subrange(written as int, i as int),
            decreases len - i,
        {
            let b = data[i];
            chunk.push(b);
            i += 1;
        }
        match s.write_stream(chunk) {
            Ok(n) => {
                if n == 0 {
                    return Err(
                        Error::Io { reason: "stream accepted none of the bytes".to_string() },
                    );
                }
                proof {
                    let n_int = n as int;
                    let w1 = data@.take(written as int);
                    let w2 = data@.subrange(written as int, written + n_int);
                    assert(data@.subrange(written as int, len as int).take(n_int) =~= w2);
                    lemma_stream_written_append(old(s).data(), old(s).pos(), w1, w2);
                    assert(w1 + w2 =~= data@.take(written + n_int));
                }
                written = written + n as usize;
            },
            Err(e) => {
                return Err(Error::Io { reason: e.reason() });
            },
        }
    }
    proof {
        assert(data@.take(len as int) =~= data@);
    }
    Ok(())
}

/// Which seek requests the capability interface can carry: its offset field
/// is signed, so a start anchor beyond the largest signed offset cannot be
/// forwarded.
pub open spec fn seek_representable(target: SeekFrom) -> bool {
    match target {
        SeekFrom::Start(n) => n <= i64::MAX,
        SeekFrom::Current(_) => true,
        SeekFrom::End(_) => true,
    }
}

/// The signed offset a seek request forwards to the capability.
pub open spec fn seek_offset(target: SeekFrom) -> int {
    match target {
        SeekFrom::Start(n) => n as int,
        SeekFrom::Current(k) => k as int,
        SeekFrom::End(k) => k as int,
    }
}

/// The anchor a seek request forwards to the capability.
pub open spec fn seek_mode_of(target: SeekFrom) -> SeekMode {
    match target {
        SeekFrom::Start(_) => SeekMode::Start,
        SeekFrom::Current(_) => SeekMode::Current,
        SeekFrom::End(_) => SeekMode::End,
    }
}

/// Binds a stream capability to the general read/seek/write surface the
/// engine expects.  The adapter holds the capability exclusively for the
/// duration of one engine operation and adds no state and no buffering of
/// its own; any capability failure is reported as an `Io`-class failure at
/// this layer.
pub struct StreamAdapter<S: Stream> {
    pub stream: S,
}

impl<S: Stream> StreamAdapter<S> {
    /// Take exclusive hold of a capability for one engine operation.
    pub fn from_stream_mut(stream: S) -> (a: Self)
        ensures
            a.stream == stream,
    {
        StreamAdapter { stream }
    }

    /// Hand the capability back once the operation is over.
    pub fn into_stream(self) -> (s: S)
        ensures
            s == self.stream,
    {
        self.stream
    }

    /// Fill a prefix of `buf` with bytes read from the capability and return
    /// how many were read; the rest of `buf` is left as it was.  Fewer bytes
    /// than requested is a valid short read; zero for a non-empty buffer
    /// signals end-of-data.  A zero-length request returns zero bytes at
    /// once, without touching the capability.
    pub fn read(&mut self, buf: &mut Vec<u8>) -> (r: Result<usize, Error>)
        requires
            old(self).stream.inv(),
            0 <= old(self).stream.pos(),
        ensures
            final(self).stream.inv(),
            0 <= final(self).stream.pos(),
            final(self).stream.exact() == old(self).stream.exact(),
            final(self).stream.data() == old(self).stream.data(),
            final(buf)@.len() == old(buf)@.len(),
            old(buf)@.len() == 0 ==> (r matches Ok(n) && n == 0) && *final(self) == *old(self),
            match r {
                Ok(n) => {
                    &&& n <= old(buf)@.len()
                    &&& read_ok(
                        old(self).stream.data(),
                        old(self).stream.pos(),
                        old(buf)@.len() as int,
                        final(buf)@.take(n as int),
                        final(self).stream.pos(),
                    )
                    &&& final(buf)@.skip(n as int) == old(buf)@.skip(n as int)
                    &&& (old(self).stream.exact() ==> n == stream_read_count(
                        old(self).stream.data(),
                        old(self).stream.pos(),
                        old(buf)@.len() as int,
                    ))
                },
                Err(e) => {
                    &&& e.spec_kind() == crate::error::ErrorKind::Io
                    &&& final(self).stream.pos() == old(self).stream.pos()
                    &&& final(buf)@ == old(buf)@
                    &&& !old(self).stream.exact()
                },
            },
    {
        if buf.len() == 0 {
            proof {
                let d = self.stream.data();
                let p = self.stream.pos();
                if p < d.len() {
                    assert(d.subrange(p, p) =~= Seq::<u8>::empty());
                }
                assert(buf@.take(0) =~= Seq::<u8>::empty());
                assert(buf@.skip(0) =~= buf@);
            }
            return Ok(0);
        }
        let want = buf.len() as u64;
        match self.stream.read_stream(want) {
            Ok(bytes) => {
                let n = bytes.len();
                let mut nb: Vec<u8> = Vec::new();
                let mut i: usize = 0;
                while i < n
                    invariant
                        i <= n,
                        n == bytes@.len(),
                        nb@ == bytes@.take(i as int),
                    decreases n - i,
                {
                    let b = bytes[i];
                    nb.push(b);
                    i += 1;
                }
                while nb.len() < buf.len()
                    invariant
                        n <= nb@.len() <= buf@.len(),
                        n == bytes@.len(),
                        n <= buf@.len(),
                        nb@ == bytes@ + buf@.subrange(n as int, nb@.len() as int),
                    decreases buf.len() - nb.len(),
                {
                    let j = nb.len();
                    let b = buf[j];
                    nb.push(b);
                }
                proof {
                    assert(nb@.take(n as int) =~= bytes@);
                    assert(nb@.skip(n as int) =~= buf@.skip(n as int));
                }
                *buf = nb;
                Ok(n)
            },
            Err(e) => Err(Error::Io { reason: e.reason() }),
        }
    }

    /// Translate a seek request into the capability's offset-and-anchor form
    /// and forward it, returning the resulting absolute position.  No bounds
    /// validation happens here: the capability owner decides legality.
    pub fn seek(&mut self, pos: SeekFrom) -> (r: Result<u64, Error>)
        requires
            old(self).stream.inv(),
            0 <= old(self).stream.pos(),
        ensures
            final(self).stream.inv(),
            0 <= final(self).stream.pos(),
            final(self).stream.exact() == old(self).stream.exact(),
            final(self).stream.data() == old(self).stream.data(),
            match r {
                Ok(new_pos) => {
                    &&& new_pos == seek_base(
                        seek_mode_of(pos),
                        old(self).stream.data().len() as int,
                        old(self).stream.pos(),
                    ) + seek_offset(pos)
                    &&& final(self).stream.pos() == new_pos as int
                },
                Err(e) => {
                    &&& e.spec_kind() == crate::error::ErrorKind::Io
                    &&& final(self).stream.pos() == old(self).stream.pos()
                },
            },
            old(self).stream.exact() ==> ((r matches Ok(_)) <==> (seek_representable(pos) && {
                let target = seek_base(
                    seek_mode_of(pos),
                    old(self).stream.data().len() as int,
                    old(self).stream.pos(),
                ) + seek_offset(pos);
                0 <= target <= u64::MAX
            })),
    {
        let off: i64;
        let mode: SeekMode;
        match pos {
            SeekFrom::Start(n) => {
                if n > i64::MAX as u64 {
                    return Err(
                        Error::Io { reason: "seek offset exceeds signed range".to_string() },
                    );
                }
                off = n as i64;
                mode = SeekMode::Start;
            },
            SeekFrom::Current(k) => {
                off = k;
                mode = SeekMode::Current;
            },
            SeekFrom::End(k) => {
                off = k;
                mode = SeekMode::End;
            },
        }
        match self.stream.seek_stream(off, mode) {
            Ok(p) => Ok(p),
            Err(e) => Err(Error::Io { reason: e.reason() }),
        }
    }

    /// Forward the whole buffer to the capability and return how many bytes
    /// it accepted.
    pub fn write(&mut self, buf: &[u8]) -> (r: Result<usize, Error>)
        requires
            old(self).stream.inv(),
            0 <= old(self).stream.pos(),
        ensures
            final(self).stream.inv(),
            0 <= final(self).stream.pos(),
            final(self).stream.exact() == old(self).stream.exact(),
            match r {
                Ok(n) => {
                    &&& n <= buf@.len()
                    &&& final(self).stream.data() == stream_written(
                        old(self).stream.data(),
                        old(self).stream.pos(),
                        buf@.take(n as int),
                    )
                    &&& final(self).stream.pos() == old(self).stream.pos() + n
                },
                Err(e) => {
                    &&& e.spec_kind() == crate::error::ErrorKind::Io
                    &&& final(self).stream.data() == old(self).stream.data()
                    &&& final(self).stream.pos() == old(self).stream.pos()
                },
            },
            (old(self).stream.exact() && old(self).stream.pos() + buf@.len()
                <= usize::MAX) ==> match r {
                Ok(n) => n == buf@.len(),
                Err(_) => false,
            },
    {
        let v = vstd::slice::slice_to_vec(buf);
        let v_len = v.len();
        match self.stream.write_stream(v) {
            Ok(n) => {
                proof {
                    assert(n <= v_len);
                }
                Ok(n as usize)
            },
            Err(e) => Err(Error::Io { reason: e.reason() }),
        }
    }

    /// The bridge adds no buffering of its own, so there is nothing to
    /// flush: the capability is trusted to commit synchronously.
    pub fn flush(&mut self) -> (r: Result<(), Error>)
        ensures
            *final(self) == *old(self),
            r matches Ok(()),
    {
        Ok(())
    }
}

} // verus!
