//! The vocabulary of header lines.

pub mod code;
pub mod source;

pub use code::HeaderCode;
pub use source::HeaderSource;
