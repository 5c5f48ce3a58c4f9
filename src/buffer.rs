//! Fixed-capacity blocks of bytes that inline boxes embed.
use vstd::array::array_fill_for_copy_types;
use vstd::prelude::*;

verus! {

/// A block of bytes whose length is fixed by its type.
///
/// Every inline box embeds one. The block is created zero-filled and is changed only by copying
/// bytes into a prefix of it.
pub trait Buffer: Sized {
    /// The bytes of the block.
    spec fn bytes(&self) -> Seq<u8>;

    /// The number of bytes of every block of this type.
    spec fn spec_capacity() -> nat;

    /// Every block of this type has `spec_capacity()` bytes.
    proof fn lemma_capacity(b: &Self)
        ensures
            b.bytes().len() == Self::spec_capacity(),
    ;

    /// A zero-filled block.
    fn init() -> (r: Self)
        ensures
            r.bytes() == Seq::new(Self::spec_capacity(), |i: int| 0u8),
    ;

    /// The number of bytes of the block.
    fn capacity() -> (r: usize)
        ensures
            r == Self::spec_capacity(),
    ;

    /// The bytes of the block, as a slice.
    fn as_bytes(&self) -> (r: &[u8])
        ensures
            r@ == self.bytes(),
    ;

    /// Copies the first `len` bytes of `src` to the start of the block; the rest is kept.
    fn copy_from_byte(&mut self, src: &[u8], len: usize)
        requires
            len <= Self::spec_capacity(),
            len <= src@.len(),
        ensures
            final(self).bytes() == src@.take(len as int) + old(self).bytes().skip(len as int),
    ;

    /// Copies the first `len` bytes of another block to the start of this one; the rest is kept.
    fn copy_from_type(&mut self, src: &Self, len: usize)
        requires
            len <= Self::spec_capacity(),
        ensures
            final(self).bytes() == src.bytes().take(len as int) + old(self).bytes().skip(
                len as int,
            ),
    ;
}

impl<const N: usize> Buffer for [u8; N] {
    open spec fn bytes(&self) -> Seq<u8> {
        self@
    }

    open spec fn spec_capacity() -> nat {
        N as nat
    }

    proof fn lemma_capacity(b: &[u8; N]) {
    }

    fn init() -> (r: [u8; N]) {
        let r: [u8; N] = array_fill_for_copy_types(0u8);
        proof {
            broadcast use vstd::array::axiom_spec_array_fill_for_copy_type;

            assert(r@.len() == N);
            assert forall|i: int| 0 <= i < N implies r@[i] == 0u8 by {}
            assert(r@ =~= Seq::new(N as nat, |i: int| 0u8));
        }
        r
    }

    fn capacity() -> (r: usize) {
        N
    }

    fn as_bytes(&self) -> (r: &[u8]) {
        self.as_slice()
    }

    fn copy_from_byte(&mut self, src: &[u8], len: usize) {
        let mut i: usize = 0;
        while i < len
            invariant
                i <= len,
                len <= N,
                len <= src@.len(),
                self@.len() == N,
                forall|j: int| 0 <= j < i ==> self@[j] == src@[j],
                forall|j: int| i <= j < N ==> self@[j] == old(self)@[j],
            decreases len - i,
        {
            self[i] = src[i];
            i = i + 1;
        }
        assert(self@ =~= src@.take(len as int) + old(self)@.skip(len as int));
    }

    fn copy_from_type(&mut self, src: &[u8; N], len: usize) {
        let mut i: usize = 0;
        while i < len
            invariant
                i <= len,
                len <= N,
                self@.len() == N,
                src@.len() == N,
                forall|j: int| 0 <= j < i ==> self@[j] == src@[j],
                forall|j: int| i <= j < N ==> self@[j] == old(self)@[j],
            decreases len - i,
        {
            self[i] = src[i];
            i = i + 1;
        }
        assert(self@ =~= src@.take(len as int) + old(self)@.skip(len as int));
    }
}

} // verus!
