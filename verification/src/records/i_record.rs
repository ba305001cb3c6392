//! The line that declares the additions to B records.

use vstd::prelude::*;
use crate::ascii::LETTER_I;
use crate::additions::declarations::{declarations_error, declarations_of, parse_from_record_line};
use crate::additions::definition::{defs_view, AdditionDef, AdditionDefView};
use crate::error::{outcome, Error, ErrorView};
use crate::num::all_digits;
use crate::num::lemma_digits_2;

verus! {

/// One I record.
#[derive(Debug, PartialEq, Eq)]
pub struct IRecord {
    /// The number of declarations that the line announces. A line that
    /// decodes holds exactly that many, so that this is always the length of
    /// `addition_defs`: a line whose count and declarations differ is refused.
    pub num_additions: u8,
    /// The declarations of additions to B records, in the order of the line.
    pub addition_defs: Vec<AdditionDef>,
}

/// The mathematical value of an [`IRecord`] or a
/// [`JRecord`](crate::records::j_record::JRecord).
pub struct DeclarationsView {
    pub num_additions: u8,
    pub addition_defs: Seq<AdditionDefView>,
}

impl View for IRecord {
    type V = DeclarationsView;

    open spec fn view(&self) -> DeclarationsView {
        DeclarationsView {
            num_additions: self.num_additions,
            addition_defs: defs_view(self.addition_defs@),
        }
    }
}

/// The record that a line of declarations under the tag `tag` writes, or
/// what is wrong with it.
pub open spec fn declarations_record_of(line: Seq<u8>, tag: u8) -> Result<DeclarationsView, ErrorView> {
    if line.len() > 0 && line[0] != tag {
        Err(ErrorView::InvalidRecord { line })
    } else {
        match declarations_error(line) {
            Some(error) => Err(error),
            None => Ok(
                DeclarationsView {
                    num_additions: declarations_of(line).len() as u8,
                    addition_defs: declarations_of(line),
                },
            ),
        }
    }
}

/// Reads the declarations of a line that stands under the tag `tag`.
pub(crate) fn parse_declarations(line: &[u8], tag: u8) -> (r: Result<(u8, Vec<AdditionDef>), Error>)
    ensures
        match declarations_record_of(line@, tag) {
            Ok(record) => r matches Ok(found) && found.0 == record.num_additions && defs_view(
                found.1@,
            ) == record.addition_defs,
            Err(error) => r matches Err(e) && e@ == error,
        },
{
    if line.len() > 0 && line[0] != tag {
        return Err(Error::invalid_record(line));
    }
    match parse_from_record_line(line) {
        Ok(addition_defs) => {
            proof {
                assert(all_digits(line@.subrange(1, 3)));
                lemma_digits_2(line@.subrange(1, 3));
                assert(defs_view(addition_defs@).len() == addition_defs@.len());
            }
            let num_additions = addition_defs.len() as u8;
            Ok((num_additions, addition_defs))
        },
        Err(e) => Err(e),
    }
}

impl IRecord {
    /// Decodes an I record.
    pub fn parse(line: &[u8]) -> (r: Result<IRecord, Error>)
        ensures
            outcome(r) == declarations_record_of(line@, LETTER_I),
    {
        match parse_declarations(line, LETTER_I) {
            Ok((num_additions, addition_defs)) => Ok(IRecord { num_additions, addition_defs }),
            Err(e) => Err(e),
        }
    }
}

} // verus!
