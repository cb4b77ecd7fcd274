//! A small verified library: a greeter that owns a name, 32-bit addition
//! with wrap-around, and upper-casing of non-empty text.
//!
//! Every executable function carries a contract that Verus proves. The one
//! exception is the Unicode upper-case mapping of the standard library, which
//! is named in `text` and trusted as stated there.

pub mod arith;
pub mod greeter;
pub mod text;

pub use arith::add;
pub use arith::lemma_add_commutative;
pub use arith::wrapped_sum;
pub use greeter::greeting;
pub use greeter::Greeter;
pub use text::process_data;
pub use text::uppercase;
