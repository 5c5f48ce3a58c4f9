//! Properties that hold of every box, whatever its kind.
use crate::buffer::Buffer;
use crate::stack::UniBoxN;
use crate::storable::Storable;
use crate::uniboxed::{holds_type, stores, value_of, Uniboxed};
use vstd::prelude::*;

verus! {

/// A box that stores `v` (as `new_with_id` and `replace` leave it) holds the type of `v`, and
/// reading it back as that type gives `v` itself.
pub proof fn lemma_round_trip<U: Uniboxed, T: Storable>(b: U, v: T, id: usize)
    requires
        stores(&b, v, id),
    ensures
        holds_type::<U, T>(&b),
        value_of::<U, T>(&b) == v,
{
    T::lemma_image_size(v);
    T::lemma_decode_image(v);
}

/// The same round trip for an inline box over any buffer.
pub proof fn lemma_inline_round_trip<B: Buffer, T: Storable>(b: UniBoxN<B>, v: T, id: usize)
    requires
        b.stores(v, id),
    ensures
        b.holds_type::<T>(),
        T::decode(b.contents()) == v,
{
    T::lemma_image_size(v);
    T::lemma_decode_image(v);
}

/// A box that stores a value of `T` does not hold any type whose image size differs from that
/// of `T`, so it cannot be read, replaced or taken as such a type.
pub proof fn lemma_mismatch_rejected<U: Uniboxed, T: Storable, W: Storable>(
    b: U,
    v: T,
    id: usize,
)
    requires
        stores(&b, v, id),
        W::image_size() != T::image_size(),
    ensures
        !holds_type::<U, W>(&b),
{
    T::lemma_image_size(v);
}

/// A box whose value was taken out holds no type at all, so its value cannot be read or taken
/// a second time.
pub proof fn lemma_taken_box_holds_nothing<U: Uniboxed, W: Storable>(b: U)
    requires
        !b.is_live(),
    ensures
        !holds_type::<U, W>(&b),
{
}

} // verus!
