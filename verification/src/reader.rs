//! Sequential reads over the bytes of a metadata file.

use vstd::prelude::*;
use crate::error::MetaError;

verus! {

/// The value of two bytes read as a little-endian 16-bit integer.
pub open spec fn u16_le(lo: u8, hi: u8) -> int {
    lo + 256 * hi
}

/// The byte at `at` in `src`, or zero past its end.
pub open spec fn byte_at(src: Seq<u8>, at: int) -> u8 {
    if 0 <= at < src.len() {
        src[at]
    } else {
        0u8
    }
}

/// The `n` bytes of `src` from `offset` on, with zeros where `src` has run
/// out.
pub open spec fn block_at(src: Seq<u8>, offset: nat, n: nat) -> Seq<u8> {
    Seq::new(n, |i: int| byte_at(src, offset + i))
}

/// What is left of `src` after a read of `n` bytes was asked for.
pub open spec fn after_read(src: Seq<u8>, n: nat) -> Seq<u8> {
    if n <= src.len() {
        src.skip(n as int)
    } else {
        Seq::empty()
    }
}

/// A block read after `k` bytes were read is the block `k` bytes further on,
/// and two reads in a row leave what one read of both lengths leaves.
pub proof fn lemma_read_on(src: Seq<u8>, k: nat, offset: nat, n: nat)
    ensures
        block_at(after_read(src, k), offset, n) == block_at(src, k + offset, n),
        k <= src.len() ==> block_at(src.skip(k as int), offset, n) == block_at(src, k + offset, n),
        after_read(after_read(src, k), n) == after_read(src, k + n),
{
    assert(block_at(after_read(src, k), offset, n) =~= block_at(src, k + offset, n));
    assert(after_read(after_read(src, k), n) =~= after_read(src, k + n));
}

/// Calls `byteorder::LittleEndian::read_u16`, which builds the integer from the
/// first two bytes of the slice with the first byte as the low one. It panics
/// on a shorter slice, so such a slice is not admitted.
#[verifier::external_body]
fn le_u16(buf: &[u8]) -> (r: u16)
    requires
        buf@.len() >= 2,
    ensures
        r as int == u16_le(buf@[0], buf@[1]),
{
    <byteorder::LittleEndian as byteorder::ByteOrder>::read_u16(buf)
}

/// A read position inside the bytes of one file.
pub struct ByteReader {
    data: Vec<u8>,
    pos: usize,
}

impl ByteReader {
    #[verifier::type_invariant]
    spec fn in_bounds(self) -> bool {
        self.pos <= self.data@.len()
    }

    /// The bytes that have not been read yet.
    pub closed spec fn remaining(&self) -> Seq<u8> {
        self.data@.skip(self.pos as int)
    }

    /// A reader at the start of `data`.
    pub fn new(data: Vec<u8>) -> (r: ByteReader)
        ensures
            r.remaining() == data@,
    {
        ByteReader { data, pos: 0 }
    }

    /// Reads a little-endian 16-bit integer and moves two bytes on. With fewer
    /// than two bytes left the read fails and the reader stays where it was.
    pub fn read_u16(&mut self) -> (r: Result<u16, MetaError>)
        ensures
            old(self).remaining().len() >= 2 ==> r is Ok && r->Ok_0 as int == u16_le(
                old(self).remaining()[0],
                old(self).remaining()[1],
            ) && final(self).remaining() == old(self).remaining().skip(2),
            old(self).remaining().len() < 2 ==> r == Err::<u16, MetaError>(MetaError::Truncated)
                && final(self).remaining() == old(self).remaining(),
    {
        proof {
            use_type_invariant(&*self);
        }
        if self.data.len() - self.pos < 2 {
            return Err(MetaError::Truncated);
        }
        let mut buf: Vec<u8> = Vec::new();
        buf.push(self.data[self.pos]);
        buf.push(self.data[self.pos + 1]);
        let value = le_u16(buf.as_slice());
        self.pos = self.pos + 2;
        assert(self.data@.skip(self.pos as int) =~= old(self).remaining().skip(2));
        Ok(value)
    }

    /// Reads a block of `n` bytes. A stream that ends early is tolerated: the
    /// block is filled with what is left, the rest of it stays zero, and the
    /// reader ends up at the end of the stream.
    pub fn read_block(&mut self, n: usize) -> (block: Vec<u8>)
        ensures
            block@ == block_at(old(self).remaining(), 0, n as nat),
            final(self).remaining() == after_read(old(self).remaining(), n as nat),
    {
        proof {
            use_type_invariant(&*self);
        }
        let start = self.pos;
        let len = self.data.len();
        let mut pos = start;
        let mut block: Vec<u8> = Vec::new();
        let mut i: usize = 0;
        while i < n
            invariant
                i <= n,
                len == self.data@.len(),
                start <= len,
                self.pos == start,
                *self == *old(self),
                pos == if start + i <= len {
                    start + i
                } else {
                    len as int
                },
                block@.len() == i,
                forall|k: int|
                    0 <= k < i ==> block@[k] == block_at(old(self).remaining(), 0, n as nat)[k],
            decreases n - i,
        {
            let byte = if pos < len {
                let b = self.data[pos];
                pos = pos + 1;
                b
            } else {
                0u8
            };
            block.push(byte);
            i = i + 1;
        }
        self.pos = pos;
        assert(block@ =~= block_at(old(self).remaining(), 0, n as nat));
        assert(self.data@.skip(self.pos as int) =~= after_read(old(self).remaining(), n as nat));
        block
    }
}

} // verus!
