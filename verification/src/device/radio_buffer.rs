//! A fixed-size buffer for frames sent and received over the radio.

use vstd::prelude::*;

verus! {

#[derive(Debug, Clone, Copy, PartialEq, Eq)]
#[allow(missing_docs)]
pub enum Error {
    BufferFull,
}

/// A buffer of `N` bytes of which the first `pos` hold a frame.
pub struct RadioBuffer<const N: usize> {
    packet: [u8; N],
    pos: usize,
}

impl<const N: usize> RadioBuffer<N> {
    /// All `N` bytes of the buffer.
    pub closed spec fn spec_packet(&self) -> Seq<u8> {
        self.packet@
    }

    /// How many bytes hold the frame.
    pub closed spec fn spec_pos(&self) -> nat {
        self.pos as nat
    }

    /// The frame: the first `pos` bytes.
    pub open spec fn spec_frame(&self) -> Seq<u8> {
        self.spec_packet().subrange(0, self.spec_pos() as int)
    }

    /// The buffer always holds `N` bytes.
    pub broadcast proof fn lemma_packet_len(&self)
        ensures
            #[trigger] self.spec_packet().len() == N,
    {
    }

    /// An empty buffer of zeros.
    pub fn new() -> (res: Self)
        ensures
            res.spec_packet() == Seq::new(N as nat, |i: int| 0u8),
            res.spec_pos() == 0,
    {
        let packet = [0u8; N];
        assert(packet@ =~= Seq::new(N as nat, |i: int| 0u8));
        Self { packet, pos: 0 }
    }

    /// Empties the frame; the bytes stay.
    pub fn clear(&mut self)
        ensures
            final(self).spec_packet() == old(self).spec_packet(),
            final(self).spec_pos() == 0,
    {
        self.pos = 0;
    }

    /// Appends `buf` to the frame if the frame then still leaves at least one byte free.
    pub fn extend_from_slice(&mut self, buf: &[u8]) -> (res: Result<(), Error>)
        requires
            old(self).spec_pos() <= N,
        ensures
            res is Ok <==> old(self).spec_pos() + buf@.len() < N,
            res is Err ==> final(self).spec_packet() == old(self).spec_packet() && final(self).spec_pos()
                == old(self).spec_pos(),
            res is Ok ==> final(self).spec_pos() == old(self).spec_pos() + buf@.len() && final(self).spec_packet()
                == old(self).spec_packet().subrange(0, old(self).spec_pos() as int) + buf@
                + old(self).spec_packet().subrange((old(self).spec_pos() + buf@.len()) as int, N as int),
    {
        if buf.len() < N - self.pos {
            let ghost orig = self.packet@;
            let start = self.pos;
            let mut i: usize = 0;
            let mut packet = self.packet;
            while i < buf.len()
                invariant
                    start + buf@.len() < N,
                    orig.len() == N,
                    i <= buf@.len(),
                    packet@ == orig.subrange(0, start as int) + buf@.subrange(0, i as int) + orig.subrange(
                        start + i,
                        N as int,
                    ),
                decreases buf@.len() - i,
            {
                packet[start + i] = buf[i];
                i = i + 1;
                assert(packet@ =~= orig.subrange(0, start as int) + buf@.subrange(0, i as int) + orig.subrange(
                    start + i,
                    N as int,
                ));
            }
            assert(buf@.subrange(0, buf@.len() as int) =~= buf@);
            self.packet = packet;
            self.pos = start + buf.len();
            Ok(())
        } else {
            Err(Error::BufferFull)
        }
    }

    /// All `N` bytes, for the radio to receive into.
    pub fn as_raw_slice(&mut self) -> (res: &mut [u8; N])
        ensures
            res@ == old(self).spec_packet(),
            final(self).spec_packet() == final(res)@,
            final(self).spec_pos() == old(self).spec_pos(),
    {
        &mut self.packet
    }

    /// Extends the frame by `len` bytes that the radio received; the frame must then
    /// still leave at least one byte free.
    pub fn inc(&mut self, len: usize)
        requires
            old(self).spec_pos() + len < N,
        ensures
            final(self).spec_packet() == old(self).spec_packet(),
            final(self).spec_pos() == old(self).spec_pos() + len,
    {
        self.pos = self.pos + len;
    }

    /// The frame.
    pub fn as_ref(&self) -> (res: &[u8])
        requires
            self.spec_pos() <= N,
        ensures
            res@ == self.spec_frame(),
    {
        vstd::slice::slice_subrange(self.packet.as_slice(), 0, self.pos)
    }
}

} // verus!
