//! Satellite constellations: a time and the satellites in use.

use vstd::prelude::*;
use crate::ascii::LETTER_F;
use crate::error::{outcome, Error, ErrorView, Line};
use crate::records::grammar::{code_byte, is_code_byte};
use crate::text::{byte_chars, decode_ascii, is_ascii_bytes};
use crate::time::{parse_time, time_of, Time};

verus! {

/// One F record.
#[derive(Debug, PartialEq, Eq)]
pub struct FRecord {
    pub time: Time,
    /// The satellites in use, each under its two characters.
    pub satellite_ids: Vec<String>,
}

/// The mathematical value of an [`FRecord`].
pub struct FRecordView {
    pub time: Time,
    pub satellite_ids: Seq<Seq<char>>,
}

impl View for FRecord {
    type V = FRecordView;

    open spec fn view(&self) -> FRecordView {
        FRecordView {
            time: self.time,
            satellite_ids: Seq::new(self.satellite_ids@.len(), |i: int| self.satellite_ids@[i]@),
        }
    }
}

/// Whether `s` holds a pair of upper-case letters or digits at the place `at`,
/// counted in pairs from zero.
pub open spec fn is_id_at(s: Seq<u8>, at: int) -> bool {
    2 * at + 2 <= s.len() && is_code_byte(s[2 * at]) && is_code_byte(s[2 * at + 1])
}

/// Whether `s` starts with exactly `n` such pairs: whatever follows them is
/// none, and is left alone.
pub open spec fn is_id_count(s: Seq<u8>, n: int) -> bool {
    0 <= n && !is_id_at(s, n) && forall|i: int| 0 <= i < n ==> #[trigger] is_id_at(s, i)
}

/// The number of pairs that `s` starts with.
pub open spec fn id_count(s: Seq<u8>) -> nat {
    (choose|n: int| is_id_count(s, n)) as nat
}

/// The satellites that `s` lists.
pub open spec fn satellite_ids_of(s: Seq<u8>) -> Seq<Seq<char>> {
    Seq::new(id_count(s), |i: int| byte_chars(s.subrange(2 * i, 2 * i + 2)))
}

/// No string starts with two different numbers of pairs.
pub proof fn lemma_id_count(s: Seq<u8>, n: int)
    requires
        is_id_count(s, n),
    ensures
        id_count(s) == n,
{
    let chosen = choose|k: int| is_id_count(s, k);
    if chosen < n {
        assert(is_id_at(s, chosen));
    } else if chosen > n {
        assert(is_id_at(s, n));
    }
}

/// The F record that `line` writes: the tag, a time, and pairs of
/// characters for the satellites.
pub open spec fn f_record_of(line: Seq<u8>) -> Result<FRecordView, ErrorView> {
    if line.len() < 7 {
        Err(ErrorView::LineTooShort { line })
    } else if line[0] != LETTER_F {
        Err(ErrorView::InvalidRecord { line })
    } else if time_of(line.subrange(1, 7)) is None {
        Err(ErrorView::InvalidTime { text: line.subrange(1, 7) })
    } else {
        Ok(
            FRecordView {
                time: time_of(line.subrange(1, 7))->0,
                satellite_ids: satellite_ids_of(line.skip(7)),
            },
        )
    }
}

/// Reads the satellites that `tail` lists.
fn satellite_ids(tail: &[u8]) -> (r: Vec<String>)
    ensures
        Seq::new(r@.len(), |i: int| r@[i]@) == satellite_ids_of(tail@),
{
    let mut ids: Vec<String> = Vec::new();
    let mut at: usize = 0;
    let ghost mut n: int = 0;
    while tail.len() - at >= 2 && code_byte(tail[at]) && code_byte(tail[at + 1])
        invariant
            at == 2 * n,
            at <= tail@.len(),
            ids@.len() == n,
            forall|i: int| 0 <= i < n ==> #[trigger] is_id_at(tail@, i),
            forall|i: int|
                0 <= i < n ==> (#[trigger] ids@[i])@ == byte_chars(tail@.subrange(2 * i, 2 * i + 2)),
        decreases tail@.len() - at,
    {
        let pair = &tail[at..at + 2];
        assert(is_ascii_bytes(pair@)) by {
            assert forall|i: int| 0 <= i < pair@.len() implies #[trigger] pair@[i] < 128 by {
                assert(pair@[i] == tail@[at + i]);
            }
        }
        let id = match decode_ascii(pair) {
            Some(id) => id,
            None => String::new(),
        };
        ids.push(id);
        at = at + 2;
        proof {
            n = n + 1;
        }
    }
    proof {
        assert(is_id_count(tail@, n));
        lemma_id_count(tail@, n);
        assert(Seq::new(ids@.len(), |i: int| ids@[i]@) =~= satellite_ids_of(tail@));
    }
    ids
}

impl FRecord {
    /// Decodes an F record.
    pub fn parse(line: &[u8]) -> (r: Result<FRecord, Error>)
        ensures
            outcome(r) == f_record_of(line@),
    {
        if line.len() < 7 {
            return Err(Error::LineTooShort { line: Line::new(line) });
        }
        if line[0] != LETTER_F {
            return Err(Error::invalid_record(line));
        }
        let time = match parse_time(&line[1..7]) {
            Ok(time) => time,
            Err(e) => {
                return Err(e);
            },
        };
        let tail = &line[7..line.len()];
        assert(tail@ == line@.skip(7));
        let satellite_ids = satellite_ids(tail);
        Ok(FRecord { time, satellite_ids })
    }
}

} // verus!
