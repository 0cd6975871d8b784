use vstd::prelude::*;

verus! {

/// An in-memory, order-preserving byte stream: the bytes a pipe would
/// carry.  Bytes pushed at the back become readable at the front, and
/// reading consumes them.  A failed exact read drains the stream, since
/// the framing protocol treats a stream that broke mid-frame as
/// unrecoverable.
pub struct ByteStream {
    data: Vec<u8>,
    pos: usize,
}

impl View for ByteStream {
    type V = Seq<u8>;

    /// The bytes still readable from the stream, oldest first.
    closed spec fn view(&self) -> Seq<u8> {
        self.data@.skip(self.pos as int)
    }
}

impl ByteStream {
    pub closed spec fn wf(&self) -> bool {
        self.pos <= self.data@.len()
    }

    /// An empty stream.
    pub fn new() -> (s: ByteStream)
        ensures
            s.wf(),
            s@ == Seq::<u8>::empty(),
    {
        let s = ByteStream { data: Vec::new(), pos: 0 };
        proof {
            assert(s@ =~= Seq::<u8>::empty());
        }
        s
    }

    /// A stream already carrying `data`.
    pub fn from_bytes(data: Vec<u8>) -> (s: ByteStream)
        ensures
            s.wf(),
            s@ == data@,
    {
        let s = ByteStream { data, pos: 0 };
        proof {
            assert(s@ =~= s.data@);
        }
        s
    }

    /// How many bytes are still readable.
    pub fn remaining(&self) -> (n: usize)
        requires
            self.wf(),
        ensures
            n == self@.len(),
    {
        self.data.len() - self.pos
    }

    /// Append `bytes` at the back of the stream, in order.
    pub fn push_bytes(&mut self, bytes: &[u8])
        requires
            old(self).wf(),
        ensures
            final(self).wf(),
            final(self)@ == old(self)@ + bytes@,
    {
        let mut i: usize = 0;
        while i < bytes.len()
            invariant
                i <= bytes@.len(),
                self.pos == old(self).pos,
                self.data@ == old(self).data@ + bytes@.take(i as int),
                old(self).wf(),
            decreases bytes@.len() - i,
        {
            self.data.push(bytes[i]);
            i += 1;
            proof {
                assert(self.data@ =~= old(self).data@ + bytes@.take(i as int));
            }
        }
        proof {
            assert(bytes@.take(i as int) =~= bytes@);
            assert(final(self)@ =~= old(self)@ + bytes@);
        }
    }

    /// Read exactly `n` bytes, appending them to `dest` in stream order.
    /// When fewer than `n` remain, `dest` is left untouched and the
    /// stream is drained.
    pub fn take_into(&mut self, dest: &mut Vec<u8>, n: usize) -> (ok: bool)
        requires
            old(self).wf(),
        ensures
            final(self).wf(),
            ok == (n <= old(self)@.len()),
            ok ==> final(dest)@ == old(dest)@ + old(self)@.take(n as int) && final(self)@ == old(
                self,
            )@.skip(n as int),
            !ok ==> final(dest)@ == old(dest)@ && final(self)@.len() == 0,
    {
        let avail = self.data.len() - self.pos;
        if avail < n {
            self.pos = self.data.len();
            return false;
        }
        let mut i: usize = 0;
        while i < n
            invariant
                i <= n,
                n <= old(self)@.len(),
                self.data@ == old(self).data@,
                self.data@.len() <= usize::MAX,
                self.pos == old(self).pos + i,
                old(self).wf(),
                self.wf(),
                dest@ == old(dest)@ + old(self)@.take(i as int),
            decreases n - i,
        {
            let b = self.data[self.pos];
            dest.push(b);
            self.pos = self.pos + 1;
            i += 1;
            proof {
                assert(old(self)@[i - 1] == b);
                assert(dest@ =~= old(dest)@ + old(self)@.take(i as int));
            }
        }
        proof {
            assert(final(self)@ =~= old(self)@.skip(n as int));
        }
        true
    }

    /// Discard whatever is still readable: the stream is abandoned after
    /// a frame could not be completed.
    pub fn drain(&mut self)
        requires
            old(self).wf(),
        ensures
            final(self).wf(),
            final(self)@.len() == 0,
    {
        self.pos = self.data.len();
    }
}

} // verus!
