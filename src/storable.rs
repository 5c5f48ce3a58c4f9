//! Values that a box can hold: plain data whose whole value is a fixed-size byte image.
use vstd::bytes::*;
use vstd::prelude::*;
use vstd::slice::slice_subrange;

verus! {

/// A plain-data type whose value is fully described by a fixed-size image of bytes.
///
/// A box stores the image of a value, forgets its type, and later rebuilds the value from
/// the image. Since the bound includes `Copy`, such a type owns no resources and has no
/// destructor: storing, reading back and discarding an image never runs or skips any
/// destruction logic.
pub trait Storable: Sized + Copy {
    /// The bytes that make up the value.
    spec fn image(&self) -> Seq<u8>;

    /// The number of bytes of every image of this type.
    spec fn image_size() -> nat;

    /// The value that a sequence of `image_size()` bytes stands for.
    spec fn decode(bytes: Seq<u8>) -> Self;

    /// Every image has `image_size()` bytes.
    proof fn lemma_image_size(v: Self)
        ensures
            v.image().len() == Self::image_size(),
    ;

    /// Decoding the image of a value gives the value back.
    proof fn lemma_decode_image(v: Self)
        ensures
            Self::decode(v.image()) == v,
    ;

    /// The size of the image in bytes.
    fn size() -> (r: usize)
        ensures
            r == Self::image_size(),
    ;

    /// The image of `self`, as a newly allocated vector.
    fn to_image(&self) -> (r: Vec<u8>)
        ensures
            r@ == self.image(),
    ;

    /// Rebuilds a value from the first `image_size()` bytes of `bytes`.
    fn from_image(bytes: &[u8]) -> (r: Self)
        requires
            bytes@.len() >= Self::image_size(),
        ensures
            r == Self::decode(bytes@.take(Self::image_size() as int)),
    ;
}

impl Storable for u8 {
    open spec fn image(&self) -> Seq<u8> {
        seq![*self]
    }

    open spec fn image_size() -> nat {
        1
    }

    open spec fn decode(bytes: Seq<u8>) -> u8 {
        bytes[0]
    }

    proof fn lemma_image_size(v: u8) {
    }

    proof fn lemma_decode_image(v: u8) {
    }

    fn size() -> (r: usize) {
        1
    }

    fn to_image(&self) -> (r: Vec<u8>) {
        let mut r: Vec<u8> = Vec::new();
        r.push(*self);
        r
    }

    fn from_image(bytes: &[u8]) -> (r: u8) {
        bytes[0]
    }
}

impl Storable for u16 {
    open spec fn image(&self) -> Seq<u8> {
        spec_u16_to_le_bytes(*self)
    }

    open spec fn image_size() -> nat {
        2
    }

    open spec fn decode(bytes: Seq<u8>) -> u16 {
        spec_u16_from_le_bytes(bytes)
    }

    proof fn lemma_image_size(v: u16) {
        lemma_auto_spec_u16_to_from_le_bytes();
    }

    proof fn lemma_decode_image(v: u16) {
        lemma_auto_spec_u16_to_from_le_bytes();
        assert(spec_u16_to_le_bytes(v).len() == Self::image_size());
    }

    fn size() -> (r: usize) {
        2
    }

    fn to_image(&self) -> (r: Vec<u8>) {
        u16_to_le_bytes(*self)
    }

    fn from_image(bytes: &[u8]) -> (r: u16) {
        u16_from_le_bytes(slice_subrange(bytes, 0, 2))
    }
}

impl Storable for u32 {
    open spec fn image(&self) -> Seq<u8> {
        spec_u32_to_le_bytes(*self)
    }

    open spec fn image_size() -> nat {
        4
    }

    open spec fn decode(bytes: Seq<u8>) -> u32 {
        spec_u32_from_le_bytes(bytes)
    }

    proof fn lemma_image_size(v: u32) {
        lemma_auto_spec_u32_to_from_le_bytes();
    }

    proof fn lemma_decode_image(v: u32) {
        lemma_auto_spec_u32_to_from_le_bytes();
        assert(spec_u32_to_le_bytes(v).len() == Self::image_size());
    }

    fn size() -> (r: usize) {
        4
    }

    fn to_image(&self) -> (r: Vec<u8>) {
        u32_to_le_bytes(*self)
    }

    fn from_image(bytes: &[u8]) -> (r: u32) {
        u32_from_le_bytes(slice_subrange(bytes, 0, 4))
    }
}

impl Storable for u64 {
    open spec fn image(&self) -> Seq<u8> {
        spec_u64_to_le_bytes(*self)
    }

    open spec fn image_size() -> nat {
        8
    }

    open spec fn decode(bytes: Seq<u8>) -> u64 {
        spec_u64_from_le_bytes(bytes)
    }

    proof fn lemma_image_size(v: u64) {
        lemma_auto_spec_u64_to_from_le_bytes();
    }

    proof fn lemma_decode_image(v: u64) {
        lemma_auto_spec_u64_to_from_le_bytes();
        assert(spec_u64_to_le_bytes(v).len() == Self::image_size());
    }

    fn size() -> (r: usize) {
        8
    }

    fn to_image(&self) -> (r: Vec<u8>) {
        u64_to_le_bytes(*self)
    }

    fn from_image(bytes: &[u8]) -> (r: u64) {
        u64_from_le_bytes(slice_subrange(bytes, 0, 8))
    }
}

impl Storable for u128 {
    open spec fn image(&self) -> Seq<u8> {
        spec_u128_to_le_bytes(*self)
    }

    open spec fn image_size() -> nat {
        16
    }

    open spec fn decode(bytes: Seq<u8>) -> u128 {
        spec_u128_from_le_bytes(bytes)
    }

    proof fn lemma_image_size(v: u128) {
        lemma_auto_spec_u128_to_from_le_bytes();
    }

    proof fn lemma_decode_image(v: u128) {
        lemma_auto_spec_u128_to_from_le_bytes();
        assert(spec_u128_to_le_bytes(v).len() == Self::image_size());
    }

    fn size() -> (r: usize) {
        16
    }

    fn to_image(&self) -> (r: Vec<u8>) {
        u128_to_le_bytes(*self)
    }

    fn from_image(bytes: &[u8]) -> (r: u128) {
        u128_from_le_bytes(slice_subrange(bytes, 0, 16))
    }
}

impl<const N: usize> Storable for [u8; N] {
    open spec fn image(&self) -> Seq<u8> {
        self@
    }

    open spec fn image_size() -> nat {
        N as nat
    }

    /// The array whose elements are `bytes`.
    open spec fn decode(bytes: Seq<u8>) -> [u8; N] {
        choose|a: [u8; N]| a@ == bytes
    }

    proof fn lemma_image_size(v: [u8; N]) {
    }

    proof fn lemma_decode_image(v: [u8; N]) {
        let a = Self::decode(v@);
        assert(a@ == v@);
        assert(a =~= v);
    }

    fn size() -> (r: usize) {
        N
    }

    fn to_image(&self) -> (r: Vec<u8>) {
        let mut r: Vec<u8> = Vec::new();
        let mut i: usize = 0;
        while i < N
            invariant
                i <= N,
                self@.len() == N,
                r@ == self@.take(i as int),
            decreases N - i,
        {
            r.push(self[i]);
            i = i + 1;
            assert(r@ =~= self@.take(i as int));
        }
        assert(r@ =~= self@);
        r
    }

    fn from_image(bytes: &[u8]) -> (r: [u8; N]) {
        let mut r: [u8; N] = [0u8; N];
        let mut i: usize = 0;
        while i < N
            invariant
                i <= N,
                bytes@.len() >= N,
                r@.len() == N,
                forall|j: int| 0 <= j < i ==> r@[j] == bytes@[j],
            decreases N - i,
        {
            r[i] = bytes[i];
            i = i + 1;
        }
        assert(r@ =~= bytes@.take(N as int));
        let ghost d = Self::decode(bytes@.take(N as int));
        assert(d =~= r);
        r
    }
}

} // verus!
