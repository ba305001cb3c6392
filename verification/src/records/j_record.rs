//! The line that declares the additions to K records.

use vstd::prelude::*;
use crate::ascii::LETTER_J;
use crate::additions::definition::{defs_view, AdditionDef};
use crate::error::{outcome, Error};
use crate::records::i_record::{declarations_record_of, parse_declarations, DeclarationsView};

verus! {

/// One J record.
#[derive(Debug, PartialEq, Eq)]
pub struct JRecord {
    /// The number of declarations that the line announces. A line that
    /// decodes holds exactly that many, so that this is always the length of
    /// `addition_defs`: a line whose count and declarations differ is refused.
    pub num_additions: u8,
    /// The declarations of additions to K records, in the order of the line.
    pub addition_defs: Vec<AdditionDef>,
}

impl View for JRecord {
    type V = DeclarationsView;

    open spec fn view(&self) -> DeclarationsView {
        DeclarationsView {
            num_additions: self.num_additions,
            addition_defs: defs_view(self.addition_defs@),
        }
    }
}

impl JRecord {
    /// Decodes a J record.
    pub fn parse(line: &[u8]) -> (r: Result<JRecord, Error>)
        ensures
            outcome(r) == declarations_record_of(line@, LETTER_J),
    {
        match parse_declarations(line, LETTER_J) {
            Ok((num_additions, addition_defs)) => Ok(JRecord { num_additions, addition_defs }),
            Err(e) => Err(e),
        }
    }
}

} // verus!
