//! Additions: fields of B and K records that I and J records declare.

pub mod code;
pub mod declarations;
pub mod definition;
pub mod map;
pub mod support;

pub use code::AdditionCode;
pub use declarations::parse_from_record_line;
pub use definition::AdditionDef;
pub use map::{parse_additions, AdditionsMap, ParseAdditions};
pub use support::AdditionSupport;
