//! Trait to abstract over types that have a notion of "being empty" and can
//! create such an empty instance: see [`Empty`]. Beside the trait stand
//! implementations for the usual standard-library containers, and a small
//! code generator that, from the shape of a record type (unit, positional or
//! named fields), emits the source text of an `Empty` implementation whose
//! every field is the empty value of that field's type.

use vstd::prelude::*;

pub mod shape;
pub mod generate;
pub mod std_impls;

verus! {

/// Types that have a notion of "being empty" and can create such an empty
/// instance.
///
/// This is very similar to `Default` from the standard library, but makes it
/// explicit that the returned instance is *empty* and not just any default
/// instance. This trait is implemented for several standard types.
pub trait Empty: Sized {
    /// What it means for a value of this type to be empty: the natural
    /// zero-element, zero-length or absent-value state of the type. An
    /// implementation refines this; where it does not, nothing is claimed
    /// of the returned instance.
    open spec fn is_empty_value(&self) -> bool {
        true
    }

    /// Returns an empty value of this type.
    fn empty() -> (r: Self)
        ensures
            r.is_empty_value(),
    ;
}

} // verus!
