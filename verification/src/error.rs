use vstd::prelude::*;

verus! {

/// Why an integer could not be taken as an element of a prime field.
#[derive(Clone, Copy, Debug, PartialEq, Eq, Structural)]
pub enum ToFieldError {
    /// The integer is not below the field's modulus.
    NotInField,
}

} // verus!
