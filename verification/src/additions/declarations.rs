//! The lines that declare additions: a count in two digits, then that many
//! declarations of seven bytes each.

use vstd::prelude::*;
use crate::additions::code::AdditionCode;
use crate::additions::definition::{addition_def_of, defs_view, AdditionDef, AdditionDefView};
use crate::error::{Error, ErrorView, Expected, Found, FoundView, Line};
use crate::num::{all_digits, digits_value, parse_uint};
use crate::num::lemma_digits_2;
use crate::text::{ascii_only, is_ascii_bytes};

verus! {

/// The seven bytes of the declaration number `i` of a line, counted from zero.
pub open spec fn chunk(line: Seq<u8>, i: int) -> Seq<u8> {
    line.subrange(3 + 7 * i, 10 + 7 * i)
}

/// The number of declarations that a line announces.
pub open spec fn declared_count(line: Seq<u8>) -> nat {
    digits_value(line.subrange(1, 3))
}

/// What is wrong with the seven bytes of one declaration, if anything: a
/// position that is not two digits, or a last position in front of the first.
pub open spec fn chunk_error(c: Seq<u8>) -> Option<ErrorView> {
    if !all_digits(c.subrange(0, 2)) {
        Some(
            ErrorView::Unexpected {
                expected: Expected::Digits,
                found: FoundView::Text(c.subrange(0, 2)),
            },
        )
    } else if !all_digits(c.subrange(2, 4)) {
        Some(
            ErrorView::Unexpected {
                expected: Expected::Digits,
                found: FoundView::Text(c.subrange(2, 4)),
            },
        )
    } else if digits_value(c.subrange(2, 4)) < digits_value(c.subrange(0, 2)) {
        Some(
            ErrorView::Unexpected {
                expected: Expected::StartBeforeEnd,
                found: FoundView::Bounds {
                    start: digits_value(c.subrange(0, 2)) as u8,
                    end: digits_value(c.subrange(2, 4)) as u8,
                },
            },
        )
    } else {
        None
    }
}

/// What is wrong with the first faulty declaration among those numbered
/// `from` up to `count`, if any is faulty.
pub open spec fn chunks_error(line: Seq<u8>, from: nat, count: nat) -> Option<ErrorView>
    decreases count - from,
{
    if from >= count {
        None
    } else if chunk_error(chunk(line, from as int)) is Some {
        chunk_error(chunk(line, from as int))
    } else {
        chunks_error(line, from + 1, count)
    }
}

/// What is wrong with a line of declarations, if anything. The checks are
/// made in this order: that the line is ASCII; that it has the tag and the
/// count; that the count is two digits; that the rest is seven bytes for
/// each declaration announced; then each declaration in turn.
pub open spec fn declarations_error(line: Seq<u8>) -> Option<ErrorView> {
    if !is_ascii_bytes(line) {
        Some(ErrorView::Unexpected { expected: Expected::AsciiCharacters, found: FoundView::Text(line) })
    } else if line.len() < 3 {
        Some(
            ErrorView::Unexpected {
                expected: Expected::AtLeastCharacters(3),
                found: FoundView::Text(line),
            },
        )
    } else if !all_digits(line.subrange(1, 3)) {
        Some(
            ErrorView::Unexpected {
                expected: Expected::Digits,
                found: FoundView::Text(line.subrange(1, 3)),
            },
        )
    } else if declared_count(line) * 7 != line.len() - 3 {
        Some(
            ErrorView::Unexpected {
                expected: Expected::Additions(declared_count(line) as u8),
                found: FoundView::Characters((line.len() - 3) as usize),
            },
        )
    } else {
        chunks_error(line, 0, declared_count(line))
    }
}

/// The declarations of a line, in the order in which the line holds them.
pub open spec fn declarations_of(line: Seq<u8>) -> Seq<AdditionDefView> {
    Seq::new(declared_count(line), |i: int| addition_def_of(chunk(line, i)))
}

/// Where no declaration up to `upto` is faulty, the first faulty one from
/// zero on is the first faulty one from `upto` on.
proof fn lemma_chunks_error_skip(line: Seq<u8>, from: nat, upto: nat, count: nat)
    requires
        from <= upto <= count,
        forall|i: int| from <= i < upto ==> chunk_error(#[trigger] chunk(line, i)) is None,
    ensures
        chunks_error(line, from, count) == chunks_error(line, upto, count),
    decreases upto - from,
{
    if from < upto {
        assert(chunk_error(chunk(line, from as int)) is None);
        lemma_chunks_error_skip(line, from + 1, upto, count);
    }
}

/// Reads the declarations of an I or J record from the whole line, tag
/// included. The line has to be ASCII, to announce its count in two digits
/// and to hold exactly that many declarations; each declaration has to give
/// its two positions in digits and in order. The error says what was looked
/// for and what was met in its place.
pub fn parse_from_record_line(input: &[u8]) -> (r: Result<Vec<AdditionDef>, Error>)
    ensures
        match declarations_error(input@) {
            Some(error) => r matches Err(e) && e@ == error,
            None => r matches Ok(defs) && defs_view(defs@) == declarations_of(input@),
        },
{
    if !ascii_only(input) {
        return Err(Error::unexpected(Expected::AsciiCharacters, Found::Text(Line::new(input))));
    }
    let input_length = input.len();
    if input_length < 3 {
        return Err(Error::unexpected(Expected::AtLeastCharacters(3), Found::Text(Line::new(input))));
    }
    let count_text = &input[1..3];
    let announced: u8 = match parse_uint::<u8>(count_text) {
        Some(n) => n,
        None => {
            proof {
                if all_digits(count_text@) {
                    lemma_digits_2(count_text@);
                }
            }
            return Err(Error::unexpected(Expected::Digits, Found::Text(Line::new(count_text))));
        },
    };
    proof {
        lemma_digits_2(count_text@);
    }
    let number_of_additions = announced as usize;
    if number_of_additions * 7 != input_length - 3 {
        return Err(
            Error::unexpected(
                Expected::Additions(announced),
                Found::Characters(input_length - 3),
            ),
        );
    }
    let mut additions: Vec<AdditionDef> = Vec::new();
    let mut i: usize = 0;
    while i < number_of_additions
        invariant
            i <= number_of_additions,
            number_of_additions == declared_count(input@),
            number_of_additions <= 99,
            number_of_additions * 7 == input@.len() - 3,
            is_ascii_bytes(input@),
            all_digits(input@.subrange(1, 3)),
            additions@.len() == i,
            forall|j: int| 0 <= j < i ==> chunk_error(#[trigger] chunk(input@, j)) is None,
            forall|j: int| 0 <= j < i ==> (#[trigger] additions@[j])@ == addition_def_of(chunk(input@, j)),
        decreases number_of_additions - i,
    {
        let at = 3 + i * 7;
        let part = &input[at..at + 7];
        assert(part@ == chunk(input@, i as int));
        let start_text = &part[0..2];
        let end_text = &part[2..4];
        let start_byte = match parse_uint::<u8>(start_text) {
            Some(value) => value,
            None => {
                proof {
                    if all_digits(start_text@) {
                        lemma_digits_2(start_text@);
                    }
                    lemma_chunks_error_skip(input@, 0, i as nat, number_of_additions as nat);
                }
                return Err(Error::unexpected(Expected::Digits, Found::Text(Line::new(start_text))));
            },
        };
        let end_byte = match parse_uint::<u8>(end_text) {
            Some(value) => value,
            None => {
                proof {
                    if all_digits(end_text@) {
                        lemma_digits_2(end_text@);
                    }
                    lemma_chunks_error_skip(input@, 0, i as nat, number_of_additions as nat);
                }
                return Err(Error::unexpected(Expected::Digits, Found::Text(Line::new(end_text))));
            },
        };
        proof {
            lemma_digits_2(start_text@);
            lemma_digits_2(end_text@);
        }
        if end_byte < start_byte {
            proof {
                lemma_chunks_error_skip(input@, 0, i as nat, number_of_additions as nat);
            }
            return Err(
                Error::unexpected(
                    Expected::StartBeforeEnd,
                    Found::Bounds { start: start_byte, end: end_byte },
                ),
            );
        }
        let code_text = &part[4..7];
        assert(is_ascii_bytes(code_text@)) by {
            assert forall|j: int| 0 <= j < code_text@.len() implies #[trigger] code_text@[j] < 128 by {
                assert(code_text@[j] == input@[at + 4 + j]);
            }
        }
        let code = AdditionCode::from_bytes_unchecked(code_text);
        additions.push(AdditionDef::new(code, start_byte, end_byte));
        i = i + 1;
    }
    proof {
        lemma_chunks_error_skip(input@, 0, number_of_additions as nat, number_of_additions as nat);
        assert(defs_view(additions@) =~= declarations_of(input@));
    }
    Ok(additions)
}

} // verus!
