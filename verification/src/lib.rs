//! Conversions between fixed-width limb integers and the big integers and
//! prime-field elements of `ark-ff`.

pub mod big_integer;
pub mod error;
pub mod field;
pub mod limbs;
pub mod uint;
