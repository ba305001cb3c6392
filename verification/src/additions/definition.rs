//! The declaration of one addition: its code and where its bytes lie.

use vstd::prelude::*;
use crate::additions::code::{addition_code_of, AdditionCode, AdditionCodeView};
use crate::num::{all_digits, digits_value, parse_uint};
use crate::num::{lemma_all_digits_subrange, lemma_digits_2};
use crate::text::{ascii_only, byte_chars, is_ascii_bytes};

verus! {

/// Where a record holds an addition. Both positions count the bytes of the
/// whole line from one, and both belong to the addition.
#[derive(Debug, PartialEq, Eq)]
pub struct AdditionDef {
    /// Three-letter code of what the addition holds.
    pub code: AdditionCode,
    /// Position of the first byte of the addition.
    pub start_byte: u8,
    /// Position of the last byte of the addition.
    pub end_byte: u8,
}

/// The mathematical value of an [`AdditionDef`].
pub struct AdditionDefView {
    pub code: AdditionCodeView,
    pub start_byte: u8,
    pub end_byte: u8,
}

impl View for AdditionDef {
    type V = AdditionDefView;

    open spec fn view(&self) -> AdditionDefView {
        AdditionDefView { code: self.code@, start_byte: self.start_byte, end_byte: self.end_byte }
    }
}

/// The mathematical values of a list of declarations.
pub open spec fn defs_view(defs: Seq<AdditionDef>) -> Seq<AdditionDefView> {
    Seq::new(defs.len(), |i: int| defs[i]@)
}

/// The declaration that seven bytes write: two digits for the first
/// position, two for the last, three characters of code.
pub open spec fn addition_def_of(s: Seq<u8>) -> AdditionDefView {
    AdditionDefView {
        code: addition_code_of(byte_chars(s.subrange(4, 7))),
        start_byte: digits_value(s.subrange(0, 2)) as u8,
        end_byte: digits_value(s.subrange(2, 4)) as u8,
    }
}

/// Whether `s` is seven ASCII bytes of which the first four are digits.
pub open spec fn is_addition_def(s: Seq<u8>) -> bool {
    s.len() == 7 && all_digits(s.take(4)) && is_ascii_bytes(s)
}

impl Clone for AdditionDef {
    fn clone(&self) -> (r: Self)
        ensures
            r@ == self@,
    {
        AdditionDef { code: self.code.clone(), start_byte: self.start_byte, end_byte: self.end_byte }
    }
}

/// Copies a list of declarations.
pub fn clone_defs(defs: &Vec<AdditionDef>) -> (r: Vec<AdditionDef>)
    ensures
        defs_view(r@) == defs_view(defs@),
{
    let mut copy: Vec<AdditionDef> = Vec::new();
    let mut i: usize = 0;
    while i < defs.len()
        invariant
            i <= defs@.len(),
            copy@.len() == i,
            forall|j: int| 0 <= j < i ==> (#[trigger] copy@[j])@ == defs@[j]@,
        decreases defs@.len() - i,
    {
        copy.push(defs[i].clone());
        i = i + 1;
    }
    assert(defs_view(copy@) =~= defs_view(defs@));
    copy
}

impl AdditionDefView {
    /// Whether the positions are in order and the first is not zero.
    pub open spec fn is_valid(self) -> bool {
        1 <= self.start_byte <= self.end_byte
    }
}

impl AdditionDef {
    /// The declaration with the given code and positions, whatever they are.
    pub fn new(code: AdditionCode, start_byte: u8, end_byte: u8) -> (r: AdditionDef)
        ensures
            r.code == code,
            r.start_byte == start_byte,
            r.end_byte == end_byte,
    {
        AdditionDef { code, start_byte, end_byte }
    }

    /// Reads a declaration from its seven bytes. Nothing is asked of the two
    /// positions: whether they fit a record shows when they are applied to one.
    pub fn parse(line: &[u8]) -> (r: Option<AdditionDef>)
        ensures
            r.is_some() == is_addition_def(line@),
            r matches Some(def) ==> def@ == addition_def_of(line@),
    {
        if line.len() != 7 || !ascii_only(line) {
            return None;
        }
        let start = parse_uint::<u8>(&line[0..2]);
        let end = parse_uint::<u8>(&line[2..4]);
        proof {
            let head = line@.take(4);
            if all_digits(head) {
                lemma_all_digits_subrange(head, 0, 2);
                lemma_all_digits_subrange(head, 2, 4);
                assert(head.subrange(0, 2) =~= line@.subrange(0, 2));
                assert(head.subrange(2, 4) =~= line@.subrange(2, 4));
                lemma_digits_2(line@.subrange(0, 2));
                lemma_digits_2(line@.subrange(2, 4));
            } else if all_digits(line@.subrange(0, 2)) && all_digits(line@.subrange(2, 4)) {
                assert forall|i: int| 0 <= i < head.len() implies crate::num::is_digit(
                    #[trigger] head[i],
                ) by {
                    if i < 2 {
                        assert(head[i] == line@.subrange(0, 2)[i]);
                    } else {
                        assert(head[i] == line@.subrange(2, 4)[i - 2]);
                    }
                }
            }
        }
        match (start, end) {
            (Some(start_byte), Some(end_byte)) => {
                let tail = &line[4..7];
                assert(is_ascii_bytes(tail@)) by {
                    assert forall|i: int| 0 <= i < tail@.len() implies #[trigger] tail@[i] < 128 by {
                        assert(tail@[i] == line@[4 + i]);
                    }
                }
                let code = AdditionCode::from_bytes_unchecked(tail);
                Some(AdditionDef { code, start_byte, end_byte })
            },
            _ => None,
        }
    }

    /// Reads a declaration from seven bytes that the caller knows to be four
    /// digits and three ASCII characters.
    pub fn parse_unchecked(line: &[u8]) -> (r: AdditionDef)
        requires
            is_addition_def(line@),
        ensures
            r@ == addition_def_of(line@),
    {
        match AdditionDef::parse(line) {
            Some(def) => def,
            None => AdditionDef { code: AdditionCode::REX, start_byte: 0, end_byte: 0 },
        }
    }
}

} // verus!
