//! Length-prefixed framing over byte streams: a fixed-width header codec,
//! a bounded frame writer that rejects oversized bodies before any byte
//! reaches the wire, and a frame reader that delivers whole frames or
//! nothing.  The stdio- and subprocess-backed transports sit on top of
//! the same `QIO` capability.

use vstd::prelude::*;

pub mod errors;
pub mod header;
pub mod stream;

verus! {

use crate::errors::{QRXErr, QRXRes};
use crate::header::{HEADER_LEN, Header, decode_spec, encode_spec, header, header_len,
    lemma_header_bijection};
use crate::stream::ByteStream;

/// The wire image of one frame: the big-endian length header, then the
/// body.  A stream is a plain concatenation of such frames.
pub open spec fn frame_of(body: Seq<u8>) -> Seq<u8> {
    encode_spec(body.len() as u64) + body
}

/// The body length the leading header of `s` declares.
pub open spec fn frame_len_of(s: Seq<u8>) -> int
    recommends
        s.len() >= HEADER_LEN,
{
    decode_spec(s.take(HEADER_LEN as int)) as int
}

/// A complete frame sits at the front of `s`: the header is there, and
/// so is every byte of the body it declares.
pub open spec fn frame_available(s: Seq<u8>) -> bool {
    s.len() >= HEADER_LEN && s.len() - HEADER_LEN >= frame_len_of(s)
}

/// The body of the frame at the front of `s`.
pub open spec fn frame_body(s: Seq<u8>) -> Seq<u8>
    recommends
        frame_available(s),
{
    s.subrange(HEADER_LEN as int, HEADER_LEN + frame_len_of(s))
}

/// What is left of `s` once the frame at its front is consumed.
pub open spec fn frame_rest(s: Seq<u8>) -> Seq<u8>
    recommends
        frame_available(s),
{
    s.skip(HEADER_LEN + frame_len_of(s))
}

/// Round trip: a frame assembled from `body` and laid at the front of a
/// stream is available, is read back as exactly `body`, and leaves the
/// rest of the stream in place.
pub proof fn lemma_frame_round_trip(body: Seq<u8>, rest: Seq<u8>)
    requires
        body.len() <= u64::MAX,
    ensures
        frame_available(frame_of(body) + rest),
        frame_body(frame_of(body) + rest) == body,
        frame_rest(frame_of(body) + rest) == rest,
{
    let f = frame_of(body) + rest;
    assert(f.take(HEADER_LEN as int) =~= encode_spec(body.len() as u64));
    lemma_header_bijection(body.len() as u64);
    assert(frame_len_of(f) == body.len());
    assert(frame_body(f) =~= body);
    assert(frame_rest(f) =~= rest);
}

/// The bounded assembly buffer for outgoing frames.  One frame is built
/// here — header first, body after — and handed to the sink in a single
/// call; a frame that would not fit is rejected before any byte moves.
pub struct FrameWriter {
    buf: Vec<u8>,
    cap: usize,
}

impl FrameWriter {
    /// The configured capacity: header plus body of one frame may not
    /// exceed it.
    pub closed spec fn capacity(&self) -> int {
        self.cap as int
    }

    /// A writer whose buffer holds at most `capacity` bytes per frame.
    pub fn new(capacity: usize) -> (w: FrameWriter)
        ensures
            w.capacity() == capacity,
    {
        FrameWriter { buf: Vec::new(), cap: capacity }
    }
}

/// Bounded frame write: assemble `[header ‖ body]` in the writer's
/// buffer and push it onto `sink` in one call, returning the total count
/// of bytes transmitted.  A body that together with its header exceeds
/// the writer's capacity is rejected with a capacity error, and the sink
/// sees nothing of it.
pub fn inner_write(sink: &mut ByteStream, writer: &mut FrameWriter, data_buf: &[u8]) -> (r: QRXRes<
    usize,
>)
    requires
        old(sink).wf(),
    ensures
        final(sink).wf(),
        final(writer).capacity() == old(writer).capacity(),
        r is Ok <==> HEADER_LEN + data_buf@.len() <= old(writer).capacity(),
        r is Ok ==> r->Ok_0 == HEADER_LEN + data_buf@.len() && final(sink)@ == old(sink)@
            + frame_of(data_buf@),
        r is Err ==> r->Err_0 == (QRXErr::Capacity {
            body_len: data_buf@.len() as usize,
            capacity: old(writer).capacity() as usize,
        }) && final(sink)@ == old(sink)@,
{
    let blen = data_buf.len();
    if writer.cap < HEADER_LEN || blen > writer.cap - HEADER_LEN {
        return Err(QRXErr::Capacity { body_len: blen, capacity: writer.cap });
    }
    let h = header(data_buf);
    writer.buf.clear();
    let mut i: usize = 0;
    while i < HEADER_LEN
        invariant
            i <= HEADER_LEN,
            writer.cap == old(writer).cap,
            h@ == encode_spec(data_buf@.len() as u64),
            writer.buf@ == h@.take(i as int),
        decreases HEADER_LEN - i,
    {
        writer.buf.push(h[i]);
        i += 1;
        proof {
            assert(writer.buf@ =~= h@.take(i as int));
        }
    }
    proof {
        assert(writer.buf@ =~= h@);
    }
    let mut j: usize = 0;
    while j < blen
        invariant
            j <= blen,
            writer.cap == old(writer).cap,
            blen == data_buf@.len(),
            h@ == encode_spec(data_buf@.len() as u64),
            writer.buf@ == h@ + data_buf@.take(j as int),
        decreases blen - j,
    {
        writer.buf.push(data_buf[j]);
        j += 1;
        proof {
            assert(writer.buf@ =~= h@ + data_buf@.take(j as int));
        }
    }
    proof {
        assert(writer.buf@ =~= frame_of(data_buf@));
    }
    sink.push_bytes(writer.buf.as_slice());
    Ok(HEADER_LEN + blen)
}

/// Frame read: take the fixed-width header from `source`, decode the
/// body length it declares, then take exactly that many further bytes
/// into `buf`, returning the body length.  Either the whole frame is
/// delivered, or the read fails with `ShortRead`, `buf` is left
/// untouched — a partial body is never handed out — and the source is
/// drained, since a stream that broke mid-frame cannot be resumed.
pub fn inner_read(source: &mut ByteStream, buf: &mut Vec<u8>) -> (r: QRXRes<usize>)
    requires
        old(source).wf(),
    ensures
        final(source).wf(),
        r is Ok <==> frame_available(old(source)@),
        r is Ok ==> r->Ok_0 == frame_len_of(old(source)@) && final(buf)@ == frame_body(
            old(source)@,
        ) && final(source)@ == frame_rest(old(source)@),
        r is Err ==> r->Err_0 == QRXErr::ShortRead && final(buf)@ == old(buf)@
            && final(source)@.len() == 0,
{
    let mut hbuf: Vec<u8> = Vec::new();
    if !source.take_into(&mut hbuf, HEADER_LEN) {
        return Err(QRXErr::ShortRead);
    }
    let h: Header = [
        hbuf[0],
        hbuf[1],
        hbuf[2],
        hbuf[3],
        hbuf[4],
        hbuf[5],
        hbuf[6],
        hbuf[7],
    ];
    proof {
        assert(h@ =~= old(source)@.take(HEADER_LEN as int));
    }
    let blen64 = header_len(&h);
    let rem = source.remaining();
    if blen64 > rem as u64 {
        source.drain();
        return Err(QRXErr::ShortRead);
    }
    let blen = blen64 as usize;
    buf.clear();
    let ok = source.take_into(buf, blen);
    proof {
        assert(ok);
        assert(buf@ =~= frame_body(old(source)@));
        assert(source@ =~= frame_rest(old(source)@));
    }
    Ok(blen)
}

/// The read/write capability a transport offers: one whole frame per
/// call, over whichever pair of byte streams the transport wraps.
pub trait QIO {
    /// Whether the transport is in a usable state.  It defaults to
    /// `false`: a transport that does not define its ghost views — one
    /// backed by real pipes, whose contents no specification can see —
    /// can never be called from verified code.
    open spec fn wf(&self) -> bool {
        false
    }

    /// Bytes available to be read, oldest first.
    open spec fn incoming(&self) -> Seq<u8> {
        Seq::empty()
    }

    /// Bytes written towards the peer so far and not yet taken off.
    open spec fn outgoing(&self) -> Seq<u8> {
        Seq::empty()
    }

    /// Header-plus-body bound on one outgoing frame.
    open spec fn capacity(&self) -> int {
        0
    }

    /// Returns the number of bytes read into the buffer: one frame's
    /// body, or a `ShortRead` error when no complete frame is available.
    fn read(&mut self, buf: &mut Vec<u8>) -> (r: QRXRes<usize>)
        requires
            old(self).wf(),
        ensures
            final(self).wf(),
            final(self).capacity() == old(self).capacity(),
            final(self).outgoing() == old(self).outgoing(),
            r is Ok <==> frame_available(old(self).incoming()),
            r is Ok ==> r->Ok_0 == frame_len_of(old(self).incoming()) && final(buf)@ == frame_body(
                old(self).incoming(),
            ) && final(self).incoming() == frame_rest(old(self).incoming()),
            r is Err ==> r->Err_0 == QRXErr::ShortRead && final(buf)@ == old(buf)@
                && final(self).incoming().len() == 0,
    ;

    /// Returns the number of bytes written from the buffer, header
    /// included.  A body longer than the capacity minus the header width
    /// is rejected with a capacity error and nothing reaches the peer.
    fn write(&mut self, buf: &[u8]) -> (r: QRXRes<usize>)
        requires
            old(self).wf(),
        ensures
            final(self).wf(),
            final(self).capacity() == old(self).capacity(),
            final(self).incoming() == old(self).incoming(),
            r is Ok <==> HEADER_LEN + buf@.len() <= old(self).capacity(),
            r is Ok ==> r->Ok_0 == HEADER_LEN + buf@.len() && final(self).outgoing() == old(
                self,
            ).outgoing() + frame_of(buf@),
            r is Err ==> r->Err_0 == (QRXErr::Capacity {
                body_len: buf@.len() as usize,
                capacity: old(self).capacity() as usize,
            }) && final(self).outgoing() == old(self).outgoing(),
    ;
}

/// A transport over in-memory byte streams.  The same frame discipline
/// that runs over a subprocess's pipes or the process's own standard
/// streams runs here over plain buffers, which is where its guarantees
/// are stated and checked.
pub struct MemTransport {
    source: ByteStream,
    sink: ByteStream,
    writer: FrameWriter,
}

impl MemTransport {
    /// A transport with nothing to read yet.
    pub fn new(capacity: usize) -> (t: MemTransport)
        ensures
            t.wf(),
            t.incoming() == Seq::<u8>::empty(),
            t.outgoing() == Seq::<u8>::empty(),
            t.capacity() == capacity,
    {
        MemTransport {
            source: ByteStream::new(),
            sink: ByteStream::new(),
            writer: FrameWriter::new(capacity),
        }
    }

    /// A transport whose readable side already carries `input`.
    pub fn with_input(input: Vec<u8>, capacity: usize) -> (t: MemTransport)
        ensures
            t.wf(),
            t.incoming() == input@,
            t.outgoing() == Seq::<u8>::empty(),
            t.capacity() == capacity,
    {
        MemTransport {
            source: ByteStream::from_bytes(input),
            sink: ByteStream::new(),
            writer: FrameWriter::new(capacity),
        }
    }

    /// Hand out everything written so far, in write order, leaving the
    /// outgoing side empty.
    pub fn take_output(&mut self) -> (out: Vec<u8>)
        requires
            old(self).wf(),
        ensures
            final(self).wf(),
            out@ == old(self).outgoing(),
            final(self).outgoing() == Seq::<u8>::empty(),
            final(self).incoming() == old(self).incoming(),
            final(self).capacity() == old(self).capacity(),
    {
        let n = self.sink.remaining();
        let mut out: Vec<u8> = Vec::new();
        let ok = self.sink.take_into(&mut out, n);
        proof {
            assert(ok);
            assert(out@ =~= old(self).outgoing());
            assert(self.sink@ =~= Seq::<u8>::empty());
        }
        out
    }
}

impl QIO for MemTransport {
    closed spec fn wf(&self) -> bool {
        self.source.wf() && self.sink.wf()
    }

    closed spec fn incoming(&self) -> Seq<u8> {
        self.source@
    }

    closed spec fn outgoing(&self) -> Seq<u8> {
        self.sink@
    }

    closed spec fn capacity(&self) -> int {
        self.writer.capacity()
    }

    fn read(&mut self, buf: &mut Vec<u8>) -> (r: QRXRes<usize>) {
        inner_read(&mut self.source, buf)
    }

    fn write(&mut self, buf: &[u8]) -> (r: QRXRes<usize>) {
        inner_write(&mut self.sink, &mut self.writer, buf)
    }
}

} // verus!
