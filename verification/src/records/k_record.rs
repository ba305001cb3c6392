//! Data that is logged less often than fixes: a time, then additions only.

use vstd::prelude::*;
use crate::ascii::LETTER_K;
use crate::additions::code::{AdditionCode, AdditionCodeView};
use crate::additions::definition::{defs_view, AdditionDef, AdditionDefView};
use crate::additions::map::{additions_of, all_fit, AdditionsMap, ParseAdditions};
use crate::additions::support::AdditionSupport;
use crate::error::{outcome, Error, ErrorView, Line};
use crate::time::{parse_time, time_of, Time};

verus! {

/// One K record.
#[derive(Debug)]
pub struct KRecord {
    pub time: Time,
    /// What the declarations in force took from the line.
    pub additions: AdditionsMap,
}

/// The mathematical value of a [`KRecord`].
pub struct KRecordView {
    pub time: Time,
    pub additions: Map<AdditionCodeView, Seq<u8>>,
}

impl View for KRecord {
    type V = KRecordView;

    open spec fn view(&self) -> KRecordView {
        KRecordView { time: self.time, additions: self.additions@ }
    }
}

/// The K record that `line` writes under the declarations `defs`, or what
/// is wrong with it.
pub open spec fn k_record_of(line: Seq<u8>, defs: Seq<AdditionDefView>) -> Result<KRecordView, ErrorView> {
    if line.len() < 7 {
        Err(ErrorView::LineTooShort { line })
    } else if line[0] != LETTER_K {
        Err(ErrorView::InvalidRecord { line })
    } else if time_of(line.subrange(1, 7)) is None {
        Err(ErrorView::InvalidTime { text: line.subrange(1, 7) })
    } else if !all_fit(defs, line.len()) {
        Err(ErrorView::InvalidRecord { line })
    } else {
        Ok(KRecordView { time: time_of(line.subrange(1, 7))->0, additions: additions_of(defs, line) })
    }
}

impl KRecord {
    /// Decodes a K record of a file that declares no additions.
    pub fn parse(line: &[u8]) -> (r: Result<KRecord, Error>)
        ensures
            outcome(r) == k_record_of(line@, Seq::<AdditionDefView>::empty()),
    {
        let none: Vec<AdditionDef> = Vec::new();
        assert(defs_view(none@) =~= Seq::<AdditionDefView>::empty());
        KRecord::parse_with_additions(line, &none)
    }

    /// Decodes a K record and takes from the line the additions that
    /// `addition_defs` declares.
    pub fn parse_with_additions(line: &[u8], addition_defs: &Vec<AdditionDef>) -> (r: Result<
        KRecord,
        Error,
    >)
        ensures
            outcome(r) == k_record_of(line@, defs_view(addition_defs@)),
    {
        if line.len() < 7 {
            return Err(Error::LineTooShort { line: Line::new(line) });
        }
        if line[0] != LETTER_K {
            return Err(Error::invalid_record(line));
        }
        let time = match parse_time(&line[1..7]) {
            Ok(time) => time,
            Err(e) => {
                return Err(e);
            },
        };
        let additions = match addition_defs.parse(line) {
            Ok(additions) => additions,
            Err(e) => {
                return Err(e);
            },
        };
        Ok(KRecord { time, additions })
    }
}

impl AdditionSupport for KRecord {
    open spec fn additions_view(&self) -> Map<AdditionCodeView, Seq<u8>> {
        self.additions@
    }

    fn get_addition(&self, code: &AdditionCode) -> (r: Option<&[u8]>) {
        match self.additions.get(code) {
            Some(value) => Some(value.as_slice()),
            None => None,
        }
    }
}

} // verus!
