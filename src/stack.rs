//! Inline boxes: the image is kept in a buffer embedded in the box, and nothing is allocated.
use crate::buffer::Buffer;
use crate::storable::Storable;
use crate::uniboxed::{BoxError, Uniboxed};
use vstd::layout::align_of;
use vstd::prelude::*;

verus! {

/// An inline box over any [`Buffer`]: it holds values whose image fits in the buffer.
///
/// The named capacities ([`UniBox32`] and the others) are built on it; use it directly for a
/// buffer of another size.
pub struct UniBoxN<B: Buffer> {
    data: B,
    len: usize,
    alig: usize,
    id: usize,
    live: bool,
}

impl<B: Buffer> UniBoxN<B> {
    #[verifier::type_invariant]
    spec fn inv(self) -> bool {
        &&& self.len <= B::spec_capacity()
        &&& !self.live ==> self.len == 0
    }

    /// The image of the stored value; empty once the value was taken out.
    pub closed spec fn contents(&self) -> Seq<u8> {
        self.data.bytes().take(self.len as int)
    }

    /// The identifier given at construction.
    pub closed spec fn spec_id(&self) -> usize {
        self.id
    }

    /// The alignment of the type of the stored value.
    pub closed spec fn alignment(&self) -> nat {
        self.alig as nat
    }

    /// Whether the box still holds its value (it was not taken out).
    pub closed spec fn is_live(&self) -> bool {
        self.live
    }

    /// The box holds a value whose image size and alignment are those of `T`.
    pub open spec fn holds_type<T: Storable>(&self) -> bool {
        &&& self.is_live()
        &&& self.contents().len() == T::image_size()
        &&& self.alignment() == align_of::<T>()
    }

    /// The box holds `v` under the identifier `id`.
    pub open spec fn stores<T: Storable>(&self, v: T, id: usize) -> bool {
        &&& self.is_live()
        &&& self.contents() == v.image()
        &&& self.spec_id() == id
        &&& self.alignment() == align_of::<T>()
    }

    /// Boxes `instance` with the identifier 0.
    ///
    /// Fails with [`BoxError::CapacityExceeded`] exactly when the image of `instance` is larger
    /// than the buffer.
    pub fn new<T: Storable>(instance: T) -> (r: Result<Self, BoxError>)
        ensures
            T::image_size() > B::spec_capacity() ==> r == Err::<Self, BoxError>(
                BoxError::CapacityExceeded,
            ),
            T::image_size() <= B::spec_capacity() ==> (r matches Ok(b) && b.stores(instance, 0)),
    {
        Self::new_with_id(instance, 0)
    }

    /// Boxes `instance` with the identifier `id`.
    ///
    /// Fails with [`BoxError::CapacityExceeded`] exactly when the image of `instance` is larger
    /// than the buffer; since `T` is `Copy`, the caller's `instance` stays usable.
    pub fn new_with_id<T: Storable>(instance: T, id: usize) -> (r: Result<Self, BoxError>)
        ensures
            T::image_size() > B::spec_capacity() ==> r == Err::<Self, BoxError>(
                BoxError::CapacityExceeded,
            ),
            T::image_size() <= B::spec_capacity() ==> (r matches Ok(b) && b.stores(instance, id)),
    {
        let len = T::size();
        if len > B::capacity() {
            return Err(BoxError::CapacityExceeded);
        }
        let bytes = instance.to_image();
        proof {
            T::lemma_image_size(instance);
        }
        let mut data = B::init();
        data.copy_from_byte(bytes.as_slice(), len);
        proof {
            B::lemma_capacity(&data);
            assert(data.bytes().take(len as int) =~= instance.image());
        }
        Ok(UniBoxN { data, len, alig: core::mem::align_of::<T>(), id, live: true })
    }

    /// The stored value, read back as a `T`.
    pub fn as_ref<T: Storable>(&self) -> (r: T)
        requires
            self.holds_type::<T>(),
        ensures
            r == T::decode(self.contents()),
    {
        proof {
            use_type_invariant(self);
            B::lemma_capacity(&self.data);
        }
        T::from_image(self.data.as_bytes())
    }

    /// Puts `value` in place of the stored value, which is returned.
    pub fn replace<T: Storable>(&mut self, value: T) -> (r: T)
        requires
            old(self).holds_type::<T>(),
        ensures
            r == T::decode(old(self).contents()),
            final(self).stores(value, old(self).spec_id()),
    {
        proof {
            use_type_invariant(&*self);
            B::lemma_capacity(&self.data);
        }
        let r = T::from_image(self.data.as_bytes());
        let bytes = value.to_image();
        proof {
            T::lemma_image_size(value);
        }
        let len = self.len;
        let mut data = B::init();
        data.copy_from_byte(bytes.as_slice(), len);
        proof {
            B::lemma_capacity(&data);
            assert(data.bytes().take(len as int) =~= value.image());
        }
        self.data = data;
        self.alig = core::mem::align_of::<T>();
        r
    }

    /// Moves the stored value out; the box is left empty and holds no type any more.
    pub fn take_owned<T: Storable>(&mut self) -> (r: T)
        requires
            old(self).holds_type::<T>(),
        ensures
            r == T::decode(old(self).contents()),
            !final(self).is_live(),
            final(self).contents().len() == 0,
            final(self).spec_id() == old(self).spec_id(),
    {
        proof {
            use_type_invariant(&*self);
            B::lemma_capacity(&self.data);
        }
        let r = T::from_image(self.data.as_bytes());
        self.len = 0;
        self.live = false;
        r
    }

    /// The size of the stored image in bytes.
    pub fn len(&self) -> (r: usize)
        ensures
            r == self.contents().len(),
    {
        proof {
            use_type_invariant(self);
            B::lemma_capacity(&self.data);
        }
        self.len
    }

    /// The identifier given at construction.
    pub fn id(&self) -> (r: usize)
        ensures
            r == self.spec_id(),
    {
        self.id
    }

    /// Whether the box holds a value that can be read back as a `T`.
    pub fn check_type<T: Storable>(&self) -> (r: bool)
        ensures
            r == self.holds_type::<T>(),
    {
        proof {
            use_type_invariant(self);
            B::lemma_capacity(&self.data);
        }
        self.live && self.len == T::size() && self.alig == core::mem::align_of::<T>()
    }
}

/// An inline box for values of at most 32 bytes.
pub struct UniBox32 {
    unibox: UniBoxN<[u8; 32]>,
}

impl Uniboxed for UniBox32 {
    closed spec fn contents(&self) -> Seq<u8> {
        self.unibox.contents()
    }

    closed spec fn spec_id(&self) -> usize {
        self.unibox.spec_id()
    }

    closed spec fn alignment(&self) -> nat {
        self.unibox.alignment()
    }

    closed spec fn is_live(&self) -> bool {
        self.unibox.is_live()
    }

    open spec fn fits(size: nat) -> bool {
        size <= 32
    }

    fn new<T: Storable>(instance: T) -> (r: Result<Self, BoxError>)
        ensures
            Self::fits(T::image_size()) ==> r is Ok,
    {
        Self::new_with_id(instance, 0)
    }

    fn new_with_id<T: Storable>(instance: T, id: usize) -> (r: Result<Self, BoxError>)
        ensures
            Self::fits(T::image_size()) ==> r is Ok,
    {
        match UniBoxN::new_with_id(instance, id) {
            Ok(unibox) => Ok(UniBox32 { unibox }),
            Err(e) => Err(e),
        }
    }

    fn as_ref<T: Storable>(&self) -> (r: T) {
        self.unibox.as_ref()
    }

    fn replace<T: Storable>(&mut self, value: T) -> (r: T) {
        self.unibox.replace(value)
    }

    fn take_owned<T: Storable>(&mut self) -> (r: T) {
        self.unibox.take_owned()
    }

    fn len(&self) -> (r: usize) {
        self.unibox.len()
    }

    fn id(&self) -> (r: usize) {
        self.unibox.id()
    }

    fn check_type<T: Storable>(&self) -> (r: bool) {
        self.unibox.check_type::<T>()
    }
}

/// An inline box for values of at most 64 bytes.
pub struct UniBox64 {
    unibox: UniBoxN<[u8; 64]>,
}

impl Uniboxed for UniBox64 {
    closed spec fn contents(&self) -> Seq<u8> {
        self.unibox.contents()
    }

    closed spec fn spec_id(&self) -> usize {
        self.unibox.spec_id()
    }

    closed spec fn alignment(&self) -> nat {
        self.unibox.alignment()
    }

    closed spec fn is_live(&self) -> bool {
        self.unibox.is_live()
    }

    open spec fn fits(size: nat) -> bool {
        size <= 64
    }

    fn new<T: Storable>(instance: T) -> (r: Result<Self, BoxError>)
        ensures
            Self::fits(T::image_size()) ==> r is Ok,
    {
        Self::new_with_id(instance, 0)
    }

    fn new_with_id<T: Storable>(instance: T, id: usize) -> (r: Result<Self, BoxError>)
        ensures
            Self::fits(T::image_size()) ==> r is Ok,
    {
        match UniBoxN::new_with_id(instance, id) {
            Ok(unibox) => Ok(UniBox64 { unibox }),
            Err(e) => Err(e),
        }
    }

    fn as_ref<T: Storable>(&self) -> (r: T) {
        self.unibox.as_ref()
    }

    fn replace<T: Storable>(&mut self, value: T) -> (r: T) {
        self.unibox.replace(value)
    }

    fn take_owned<T: Storable>(&mut self) -> (r: T) {
        self.unibox.take_owned()
    }

    fn len(&self) -> (r: usize) {
        self.unibox.len()
    }

    fn id(&self) -> (r: usize) {
        self.unibox.id()
    }

    fn check_type<T: Storable>(&self) -> (r: bool) {
        self.unibox.check_type::<T>()
    }
}

/// An inline box for values of at most 128 bytes.
pub struct UniBox128 {
    unibox: UniBoxN<[u8; 128]>,
}

impl Uniboxed for UniBox128 {
    closed spec fn contents(&self) -> Seq<u8> {
        self.unibox.contents()
    }

    closed spec fn spec_id(&self) -> usize {
        self.unibox.spec_id()
    }

    closed spec fn alignment(&self) -> nat {
        self.unibox.alignment()
    }

    closed spec fn is_live(&self) -> bool {
        self.unibox.is_live()
    }

    open spec fn fits(size: nat) -> bool {
        size <= 128
    }

    fn new<T: Storable>(instance: T) -> (r: Result<Self, BoxError>)
        ensures
            Self::fits(T::image_size()) ==> r is Ok,
    {
        Self::new_with_id(instance, 0)
    }

    fn new_with_id<T: Storable>(instance: T, id: usize) -> (r: Result<Self, BoxError>)
        ensures
            Self::fits(T::image_size()) ==> r is Ok,
    {
        match UniBoxN::new_with_id(instance, id) {
            Ok(unibox) => Ok(UniBox128 { unibox }),
            Err(e) => Err(e),
        }
    }

    fn as_ref<T: Storable>(&self) -> (r: T) {
        self.unibox.as_ref()
    }

    fn replace<T: Storable>(&mut self, value: T) -> (r: T) {
        self.unibox.replace(value)
    }

    fn take_owned<T: Storable>(&mut self) -> (r: T) {
        self.unibox.take_owned()
    }

    fn len(&self) -> (r: usize) {
        self.unibox.len()
    }

    fn id(&self) -> (r: usize) {
        self.unibox.id()
    }

    fn check_type<T: Storable>(&self) -> (r: bool) {
        self.unibox.check_type::<T>()
    }
}

/// An inline box for values of at most 256 bytes.
pub struct UniBox256 {
    unibox: UniBoxN<[u8; 256]>,
}

impl Uniboxed for UniBox256 {
    closed spec fn contents(&self) -> Seq<u8> {
        self.unibox.contents()
    }

    closed spec fn spec_id(&self) -> usize {
        self.unibox.spec_id()
    }

    closed spec fn alignment(&self) -> nat {
        self.unibox.alignment()
    }

    closed spec fn is_live(&self) -> bool {
        self.unibox.is_live()
    }

    open spec fn fits(size: nat) -> bool {
        size <= 256
    }

    fn new<T: Storable>(instance: T) -> (r: Result<Self, BoxError>)
        ensures
            Self::fits(T::image_size()) ==> r is Ok,
    {
        Self::new_with_id(instance, 0)
    }

    fn new_with_id<T: Storable>(instance: T, id: usize) -> (r: Result<Self, BoxError>)
        ensures
            Self::fits(T::image_size()) ==> r is Ok,
    {
        match UniBoxN::new_with_id(instance, id) {
            Ok(unibox) => Ok(UniBox256 { unibox }),
            Err(e) => Err(e),
        }
    }

    fn as_ref<T: Storable>(&self) -> (r: T) {
        self.unibox.as_ref()
    }

    fn replace<T: Storable>(&mut self, value: T) -> (r: T) {
        self.unibox.replace(value)
    }

    fn take_owned<T: Storable>(&mut self) -> (r: T) {
        self.unibox.take_owned()
    }

    fn len(&self) -> (r: usize) {
        self.unibox.len()
    }

    fn id(&self) -> (r: usize) {
        self.unibox.id()
    }

    fn check_type<T: Storable>(&self) -> (r: bool) {
        self.unibox.check_type::<T>()
    }
}

} // verus!
