//! The interfaces that character property types offer.

use vstd::prelude::*;

verus! {

/// A character property defined on all characters (Age, Name, General_Category).
pub trait CharProperty: Sized {
    /// The property value of `ch`.
    fn of(ch: char) -> Self;
}

/// A character property defined for some characters only (Decomposition_Type).
pub trait OptionCharProperty: Sized {
    /// The property value of `ch`, or `None` where it has none.
    fn of(ch: char) -> Option<Self>;
}

/// A character property whose values form a closed list.
pub trait EnumeratedCharProperty: Sized {
    /// Every value of the property.
    fn all_values() -> Vec<Self>;
}

/// The number types that a numeric property may take.
pub trait NumericCharPropertyValue {}

impl NumericCharPropertyValue for u8 {}

/// A character property with numeric values (Canonical_Combining_Class).
pub trait NumericCharProperty<Value: NumericCharPropertyValue>: Sized {
    /// The number that this property value stands for.
    fn number(&self) -> Value;
}

} // verus!
