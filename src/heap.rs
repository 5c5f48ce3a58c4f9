//! The heap box: the image is kept in a heap block allocated for it.
use crate::storable::Storable;
use crate::uniboxed::{BoxError, Uniboxed};
use vstd::prelude::*;

verus! {

/// A box that keeps the image in a heap block allocated for it, which holds exactly the image's
/// bytes.
///
/// It holds values of any size; building one fails only when the allocator refuses the block.
/// Taking the value out releases the block.
pub struct UniBox {
    buffer: Vec<u8>,
    alig: usize,
    id: usize,
    live: bool,
}

impl Uniboxed for UniBox {
    closed spec fn contents(&self) -> Seq<u8> {
        self.buffer@
    }

    closed spec fn spec_id(&self) -> usize {
        self.id
    }

    closed spec fn alignment(&self) -> nat {
        self.alig as nat
    }

    closed spec fn is_live(&self) -> bool {
        self.live
    }

    open spec fn fits(size: nat) -> bool {
        true
    }

    fn new<T: Storable>(instance: T) -> (r: Result<Self, BoxError>) {
        Self::new_with_id(instance, 0)
    }

    fn new_with_id<T: Storable>(instance: T, id: usize) -> (r: Result<Self, BoxError>) {
        let len = T::size();
        let image = instance.to_image();
        proof {
            T::lemma_image_size(instance);
        }
        let mut buffer: Vec<u8> = Vec::new();
        if buffer.try_reserve(len).is_err() {
            return Err(BoxError::AllocationFailed);
        }
        let mut i: usize = 0;
        while i < len
            invariant
                i <= len,
                image@.len() == len,
                buffer@ == image@.take(i as int),
            decreases len - i,
        {
            buffer.push(image[i]);
            i = i + 1;
            assert(buffer@ =~= image@.take(i as int));
        }
        assert(buffer@ =~= image@);
        Ok(UniBox { buffer, alig: core::mem::align_of::<T>(), id, live: true })
    }

    fn as_ref<T: Storable>(&self) -> (r: T) {
        proof {
            assert(self.buffer@.take(T::image_size() as int) =~= self.buffer@);
        }
        T::from_image(self.buffer.as_slice())
    }

    fn replace<T: Storable>(&mut self, value: T) -> (r: T) {
        proof {
            assert(self.buffer@.take(T::image_size() as int) =~= self.buffer@);
        }
        let r = T::from_image(self.buffer.as_slice());
        let image = value.to_image();
        proof {
            T::lemma_image_size(value);
        }
        let len = self.buffer.len();
        let mut i: usize = 0;
        while i < len
            invariant
                i <= len,
                image@.len() == len,
                self.buffer@.len() == len,
                self.id == old(self).id,
                self.live,
                forall|j: int| 0 <= j < i ==> self.buffer@[j] == image@[j],
            decreases len - i,
        {
            self.buffer.set(i, image[i]);
            i = i + 1;
        }
        assert(self.buffer@ =~= image@);
        self.alig = core::mem::align_of::<T>();
        r
    }

    fn take_owned<T: Storable>(&mut self) -> (r: T) {
        proof {
            assert(self.buffer@.take(T::image_size() as int) =~= self.buffer@);
        }
        let r = T::from_image(self.buffer.as_slice());
        self.buffer = Vec::new();
        self.live = false;
        r
    }

    fn len(&self) -> (r: usize) {
        self.buffer.len()
    }

    fn id(&self) -> (r: usize) {
        self.id
    }

    fn check_type<T: Storable>(&self) -> (r: bool) {
        self.live && self.buffer.len() == T::size() && self.alig == core::mem::align_of::<T>()
    }
}

} // verus!
