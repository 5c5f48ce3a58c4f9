//! The interface that every box implements, and its error type.
use crate::storable::Storable;
use vstd::layout::align_of;
use vstd::prelude::*;

verus! {

/// Why a box could not be built.
#[derive(Debug, Clone, Copy, PartialEq, Eq, Structural)]
pub enum BoxError {
    /// The image of the value is larger than the inline buffer.
    CapacityExceeded,
    /// The allocator refused the heap block for the image.
    AllocationFailed,
}

/// A type-erased box.
///
/// A box keeps the byte image of one value together with the value's alignment and an
/// identifier of the caller's choosing. Reading the value back asks for a type whose image size
/// and alignment match what was recorded; asking with any other type is a contract violation
/// (see [`holds_type`]), which verified callers rule out and others can test first with
/// [`Uniboxed::check_type`].
pub trait Uniboxed: Sized {
    /// The image of the stored value; empty once the value was taken out.
    spec fn contents(&self) -> Seq<u8>;

    /// The identifier given at construction.
    spec fn spec_id(&self) -> usize;

    /// The alignment of the type of the stored value.
    spec fn alignment(&self) -> nat;

    /// Whether the box still holds its value (it was not taken out).
    spec fn is_live(&self) -> bool;

    /// Whether this kind of box can hold an image of `size` bytes.
    spec fn fits(size: nat) -> bool;

    /// Boxes `instance` with the identifier 0.
    fn new<T: Storable>(instance: T) -> (r: Result<Self, BoxError>)
        ensures
            !Self::fits(T::image_size()) ==> r == Err::<Self, BoxError>(
                BoxError::CapacityExceeded,
            ),
            Self::fits(T::image_size()) ==> r is Ok || r == Err::<Self, BoxError>(
                BoxError::AllocationFailed,
            ),
            r matches Ok(b) ==> {
                &&& b.is_live()
                &&& b.contents() == instance.image()
                &&& b.spec_id() == 0
                &&& b.alignment() == align_of::<T>()
            },
    ;

    /// Boxes `instance` with the identifier `id`.
    ///
    /// Fails with [`BoxError::CapacityExceeded`] when the image does not fit; where the box
    /// allocates, it may fail with [`BoxError::AllocationFailed`] instead. Since `T` is `Copy`,
    /// the caller keeps a usable `instance` whatever the outcome.
    fn new_with_id<T: Storable>(instance: T, id: usize) -> (r: Result<Self, BoxError>)
        ensures
            !Self::fits(T::image_size()) ==> r == Err::<Self, BoxError>(
                BoxError::CapacityExceeded,
            ),
            Self::fits(T::image_size()) ==> r is Ok || r == Err::<Self, BoxError>(
                BoxError::AllocationFailed,
            ),
            r matches Ok(b) ==> {
                &&& b.is_live()
                &&& b.contents() == instance.image()
                &&& b.spec_id() == id
                &&& b.alignment() == align_of::<T>()
            },
    ;

    /// The stored value, read back as a `T`.
    fn as_ref<T: Storable>(&self) -> (r: T)
        requires
            self.is_live(),
            self.contents().len() == T::image_size(),
            self.alignment() == align_of::<T>(),
        ensures
            r == T::decode(self.contents()),
    ;

    /// Puts `value` in place of the stored value, which is returned.
    fn replace<T: Storable>(&mut self, value: T) -> (r: T)
        requires
            old(self).is_live(),
            old(self).contents().len() == T::image_size(),
            old(self).alignment() == align_of::<T>(),
        ensures
            r == T::decode(old(self).contents()),
            final(self).is_live(),
            final(self).contents() == value.image(),
            final(self).spec_id() == old(self).spec_id(),
            final(self).alignment() == align_of::<T>(),
    ;

    /// Moves the stored value out; the box is left empty and holds no type any more.
    fn take_owned<T: Storable>(&mut self) -> (r: T)
        requires
            old(self).is_live(),
            old(self).contents().len() == T::image_size(),
            old(self).alignment() == align_of::<T>(),
        ensures
            r == T::decode(old(self).contents()),
            !final(self).is_live(),
            final(self).contents().len() == 0,
            final(self).spec_id() == old(self).spec_id(),
    ;

    /// The size of the stored image in bytes.
    fn len(&self) -> (r: usize)
        ensures
            r == self.contents().len(),
    ;

    /// The identifier given at construction.
    fn id(&self) -> (r: usize)
        ensures
            r == self.spec_id(),
    ;

    /// Whether the box holds a value that can be read back as a `T`.
    fn check_type<T: Storable>(&self) -> (r: bool)
        ensures
            r == (self.is_live() && self.contents().len() == T::image_size() && self.alignment()
                == align_of::<T>()),
    ;
}

/// `b` holds a value whose image size and alignment are those of `T`.
pub open spec fn holds_type<U: Uniboxed, T: Storable>(b: &U) -> bool {
    &&& b.is_live()
    &&& b.contents().len() == T::image_size()
    &&& b.alignment() == align_of::<T>()
}

/// `b` holds `v` under the identifier `id`.
pub open spec fn stores<U: Uniboxed, T: Storable>(b: &U, v: T, id: usize) -> bool {
    &&& b.is_live()
    &&& b.contents() == v.image()
    &&& b.spec_id() == id
    &&& b.alignment() == align_of::<T>()
}

/// The value that the contents of `b` stand for when read as a `T`.
pub open spec fn value_of<U: Uniboxed, T: Storable>(b: &U) -> T {
    T::decode(b.contents())
}

} // verus!
