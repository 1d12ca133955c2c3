//! Pointer-sized pairs of an address and a small tag kept in the address's
//! alignment bits, and a read-only container that either borrows a value or
//! owns it in a box.

pub mod bits;
pub mod cow;
pub mod error;
pub mod pair;

pub use cow::Cow;
pub use error::ValueTooLarge;
pub use pair::PointerValuePair;
pub use pair::PointerValuePairAccess;
pub use pair::SliceAddress;

