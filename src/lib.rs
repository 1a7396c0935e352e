//! An immutable string that keeps short texts inline and shares longer ones
//! through a reference-counted heap block, on top of `inline_array`.
pub mod buffer;
pub mod laws;
pub mod order;
pub mod text;

pub use text::InlineStr;
