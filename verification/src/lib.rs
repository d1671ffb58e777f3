//! Owning handles with a few of their high bits stolen for a small tag.
//!
//! A machine word that holds the in-memory representation of an owning
//! pointer rarely uses its top bits.  The types here split such a word into a
//! *tag region* (the top `N` bits) and an *address region* (the rest), and
//! prove that reading and writing the tag region never disturbs the address
//! region, and the other way round.  On top of that core sit owning-handle
//! wrappers carrying a tag next to a `Box`, an `Rc` or an `Arc`, and a closed
//! tagged union keyed by a discriminant kept in the stolen bits.
//!
//! The word is modelled as a `u64`: the crate describes machines whose
//! pointers are 64 bits wide.

pub mod boxed;
pub mod enums;
pub mod ointer;
pub mod rc;
pub mod sync;

pub use crate::boxed::BBox;
pub use crate::boxed::OBox;
pub use crate::boxed::TaggedBox;
pub use crate::enums::EnumOinters;
pub use crate::enums::EnumPayload;
pub use crate::ointer::Ointer;
pub use crate::ointer::OinterGet;
pub use crate::ointer::OinterSet;
pub use crate::ointer::TagWord;
