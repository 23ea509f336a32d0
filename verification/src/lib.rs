//! A two-valued sign type: `Positive` stands for `+1`, `Negative` for `-1`.
//!
//! The type carries the usual algebra (negation, sign-scaling
//! multiplication, a total order with `Negative` below `Positive`),
//! lossless conversion to the signed integer widths, a one-character
//! string form (`"+"` / `"-"`) that round-trips with parsing, and sign
//! classification for signed integers and for IEEE 754 bit patterns.

pub mod float_bits;
pub mod sign;

pub use sign::Sign;
pub use sign::Sign::Negative;
pub use sign::Sign::Positive;
pub use sign::Signed;
