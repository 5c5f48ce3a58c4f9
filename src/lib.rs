//! # unibox
//!
//! Type-erased boxes: a box takes a value of any [`Storable`] type, keeps only its byte image
//! together with the image's size, alignment and a caller-chosen identifier, and later hands the
//! value back when asked for it with a type of the same size and alignment.
//!
//! Two kinds of boxes exist:
//!
//! - inline boxes, [`UniBoxN`] over a fixed-capacity [`Buffer`], and the named capacities
//!   [`UniBox32`], [`UniBox64`], [`UniBox128`] and [`UniBox256`], which never allocate;
//! - the heap box [`UniBox`], which keeps the image in a heap block of its own.
//!
//! The named capacities and the heap box implement [`Uniboxed`], so code can be written once
//! for all of them.
pub mod buffer;
pub mod heap;
pub mod laws;
pub mod stack;
pub mod storable;
pub mod uniboxed;

pub use buffer::Buffer;
pub use heap::UniBox;
pub use stack::{UniBox128, UniBox256, UniBox32, UniBox64, UniBoxN};
pub use storable::Storable;
pub use uniboxed::{BoxError, Uniboxed};
