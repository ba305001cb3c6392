//! Any line of a file, and the dispatch on its first byte.

use vstd::prelude::*;
use crate::ascii::{
    LETTER_A,
    LETTER_B,
    LETTER_C,
    LETTER_D,
    LETTER_E,
    LETTER_F,
    LETTER_G,
    LETTER_H,
    LETTER_I,
    LETTER_J,
    LETTER_K,
    LETTER_L,
    LETTER_N,
    LETTER_S,
};
use crate::additions::definition::{defs_view, AdditionDef, AdditionDefView};
use crate::error::{outcome, Error, ErrorView};
use crate::records::b_record::{b_record_of, BRecord, BRecordView};
use crate::records::c_record::{
    declaration_encoding,
    declaration_of,
    turnpoint_encoding,
    turnpoint_of,
    CRecordDeclaration,
    CRecordDeclarationView,
    CRecordTurnpoint,
    CRecordTurnpointView,
};
use crate::records::d_record::{d_record_of, DRecord, DRecordView};
use crate::records::e_record::{e_record_encoding, e_record_of, ERecord, ERecordView};
use crate::records::f_record::{f_record_of, FRecord, FRecordView};
use crate::records::g_record::{g_record_encoding, g_record_of, GRecord, GRecordView};
use crate::records::h_record::{h_record_encoding, h_record_of, HRecord, HRecordView};
use crate::records::i_record::{declarations_record_of, DeclarationsView, IRecord};
use crate::records::j_record::JRecord;
use crate::records::k_record::{k_record_of, KRecord, KRecordView};
use crate::records::l_record::{l_record_encoding, l_record_of, LRecord, LRecordView};
use crate::text::BufEncoding;

verus! {

/// A line of a task: its declaration or one of its points.
#[derive(Debug, PartialEq, Eq)]
pub enum CRecord {
    Declaration(CRecordDeclaration),
    Turnpoint(CRecordTurnpoint),
}

/// The mathematical value of a [`CRecord`].
pub enum CRecordView {
    Declaration(CRecordDeclarationView),
    Turnpoint(CRecordTurnpointView),
}

impl View for CRecord {
    type V = CRecordView;

    open spec fn view(&self) -> CRecordView {
        match *self {
            CRecord::Declaration(record) => CRecordView::Declaration(record@),
            CRecord::Turnpoint(record) => CRecordView::Turnpoint(record@),
        }
    }
}

/// One line of a file.
#[derive(Debug)]
pub enum Record {
    /// Manufacturer and serial number of the flight recorder.
    A,
    /// Fix.
    B(BRecord),
    /// Task.
    C(CRecord),
    /// Differential GPS.
    D(DRecord),
    /// Event.
    E(ERecord),
    /// Satellite constellation.
    F(FRecord),
    /// Security.
    G(GRecord),
    /// File header.
    H(HRecord),
    /// Additions that every B record of the file has.
    I(IRecord),
    /// Additions that every K record of the file has.
    J(JRecord),
    /// Data logged less often than fixes.
    K(KRecord),
    /// Logbook and comments.
    L(LRecord),
    /// A line without a byte. No decoder gives it: the dispatcher refuses
    /// such a line and a reader passes it over. It is for those who frame
    /// lines themselves and want to keep the place of a blank one.
    Empty,
}

/// The mathematical value of a [`Record`].
pub enum RecordView {
    A,
    B(BRecordView),
    C(CRecordView),
    D(DRecordView),
    E(ERecordView),
    F(FRecordView),
    G(GRecordView),
    H(HRecordView),
    I(DeclarationsView),
    J(DeclarationsView),
    K(KRecordView),
    L(LRecordView),
    Empty,
}

impl View for Record {
    type V = RecordView;

    open spec fn view(&self) -> RecordView {
        match *self {
            Record::A => RecordView::A,
            Record::B(record) => RecordView::B(record@),
            Record::C(record) => RecordView::C(record@),
            Record::D(record) => RecordView::D(record@),
            Record::E(record) => RecordView::E(record@),
            Record::F(record) => RecordView::F(record@),
            Record::G(record) => RecordView::G(record@),
            Record::H(record) => RecordView::H(record@),
            Record::I(record) => RecordView::I(record@),
            Record::J(record) => RecordView::J(record@),
            Record::K(record) => RecordView::K(record@),
            Record::L(record) => RecordView::L(record@),
            Record::Empty => RecordView::Empty,
        }
    }
}

/// What a stream carries from one line to the next.
pub struct Context {
    /// What the stream knows of its encoding.
    pub encoding: BufEncoding,
    /// The additions to B records that the last I record declared.
    pub b_additions: Seq<AdditionDefView>,
    /// The additions to K records that the last J record declared.
    pub k_additions: Seq<AdditionDefView>,
}

impl Context {
    /// What a stream carries before its first line.
    pub open spec fn initial() -> Context {
        Context {
            encoding: BufEncoding::Auto,
            b_additions: Seq::empty(),
            k_additions: Seq::empty(),
        }
    }
}

/// Whether a C record is a turnpoint: its ninth byte is then the letter of
/// a latitude, where a declaration has a digit of its time.
pub open spec fn is_turnpoint(line: Seq<u8>) -> bool {
    line.len() >= 9 && (line[8] == LETTER_N || line[8] == LETTER_S)
}

/// The C record that `line` writes.
pub open spec fn c_record_of(line: Seq<u8>, mode: BufEncoding) -> Result<CRecordView, ErrorView> {
    if is_turnpoint(line) {
        match turnpoint_of(line, mode) {
            Ok(record) => Ok(CRecordView::Turnpoint(record)),
            Err(error) => Err(error),
        }
    } else {
        match declaration_of(line, mode) {
            Ok(record) => Ok(CRecordView::Declaration(record)),
            Err(error) => Err(error),
        }
    }
}

/// The record that the line `line` writes in a stream that carries `ctx`,
/// or what is wrong with the line. The first byte says which type of record
/// the line is; a line without a byte has none and is an invalid record.
#[verifier::opaque]
pub open spec fn record_of(line: Seq<u8>, ctx: Context) -> Result<RecordView, ErrorView> {
    if line.len() == 0 {
        Err(ErrorView::InvalidRecord { line })
    } else if line[0] == LETTER_A {
        Ok(RecordView::A)
    } else if line[0] == LETTER_B {
        match b_record_of(line, ctx.b_additions) {
            Ok(record) => Ok(RecordView::B(record)),
            Err(error) => Err(error),
        }
    } else if line[0] == LETTER_C {
        match c_record_of(line, ctx.encoding) {
            Ok(record) => Ok(RecordView::C(record)),
            Err(error) => Err(error),
        }
    } else if line[0] == LETTER_D {
        match d_record_of(line) {
            Ok(record) => Ok(RecordView::D(record)),
            Err(error) => Err(error),
        }
    } else if line[0] == LETTER_E {
        match e_record_of(line, ctx.encoding) {
            Ok(record) => Ok(RecordView::E(record)),
            Err(error) => Err(error),
        }
    } else if line[0] == LETTER_F {
        match f_record_of(line) {
            Ok(record) => Ok(RecordView::F(record)),
            Err(error) => Err(error),
        }
    } else if line[0] == LETTER_G {
        match g_record_of(line, ctx.encoding) {
            Ok(record) => Ok(RecordView::G(record)),
            Err(error) => Err(error),
        }
    } else if line[0] == LETTER_H {
        match h_record_of(line, ctx.encoding) {
            Ok(record) => Ok(RecordView::H(record)),
            Err(error) => Err(error),
        }
    } else if line[0] == LETTER_I {
        match declarations_record_of(line, LETTER_I) {
            Ok(record) => Ok(RecordView::I(record)),
            Err(error) => Err(error),
        }
    } else if line[0] == LETTER_J {
        match declarations_record_of(line, LETTER_J) {
            Ok(record) => Ok(RecordView::J(record)),
            Err(error) => Err(error),
        }
    } else if line[0] == LETTER_K {
        match k_record_of(line, ctx.k_additions) {
            Ok(record) => Ok(RecordView::K(record)),
            Err(error) => Err(error),
        }
    } else if line[0] == LETTER_L {
        match l_record_of(line, ctx.encoding) {
            Ok(record) => Ok(RecordView::L(record)),
            Err(error) => Err(error),
        }
    } else {
        Err(ErrorView::UnknownRecordType { tag: line[0] })
    }
}

/// What a stream knows of its encoding after the line `line`, where it
/// knew `mode` before.
pub open spec fn encoding_after_record(line: Seq<u8>, mode: BufEncoding) -> BufEncoding {
    if line.len() == 0 {
        mode
    } else if line[0] == LETTER_C {
        if is_turnpoint(line) {
            turnpoint_encoding(line, mode)
        } else {
            declaration_encoding(line, mode)
        }
    } else if line[0] == LETTER_E {
        e_record_encoding(line, mode)
    } else if line[0] == LETTER_G {
        g_record_encoding(line, mode)
    } else if line[0] == LETTER_H {
        h_record_encoding(line, mode)
    } else if line[0] == LETTER_L {
        l_record_encoding(line, mode)
    } else {
        mode
    }
}

/// What a stream carries after the line `line`, where it carried `ctx`
/// before. An I record that decodes replaces the additions to B records, a
/// J record that decodes those to K records; a line that fails replaces none.
#[verifier::opaque]
pub open spec fn context_after(line: Seq<u8>, ctx: Context) -> Context {
    Context {
        encoding: encoding_after_record(line, ctx.encoding),
        b_additions: match record_of(line, ctx) {
            Ok(RecordView::I(record)) => record.addition_defs,
            _ => ctx.b_additions,
        },
        k_additions: match record_of(line, ctx) {
            Ok(RecordView::J(record)) => record.addition_defs,
            _ => ctx.k_additions,
        },
    }
}

impl CRecord {
    /// Decodes a C record of a stream whose state is `encoding`.
    pub fn parse_with_encoding(line: &[u8], encoding: &mut BufEncoding) -> (r: Result<CRecord, Error>)
        ensures
            outcome(r) == c_record_of(line@, *old(encoding)),
            *final(encoding) == (if is_turnpoint(line@) {
                turnpoint_encoding(line@, *old(encoding))
            } else {
                declaration_encoding(line@, *old(encoding))
            }),
    {
        if line.len() >= 9 && (line[8] == LETTER_N || line[8] == LETTER_S) {
            match CRecordTurnpoint::parse_with_encoding(line, encoding) {
                Ok(record) => Ok(CRecord::Turnpoint(record)),
                Err(e) => Err(e),
            }
        } else {
            match CRecordDeclaration::parse_with_encoding(line, encoding) {
                Ok(record) => Ok(CRecord::Declaration(record)),
                Err(e) => Err(e),
            }
        }
    }
}

impl Record {
    /// Decodes a line by itself: nothing is known of its encoding, and no
    /// additions are declared.
    pub fn parse(bytes: &[u8]) -> (r: Result<Record, Error>)
        ensures
            outcome(r) == record_of(bytes@, Context::initial()),
    {
        let mut encoding = BufEncoding::Auto;
        let none: Vec<AdditionDef> = Vec::new();
        assert(defs_view(none@) =~= Seq::<AdditionDefView>::empty());
        Record::parse_in_stream(bytes, &mut encoding, &none, &none)
    }

    /// Decodes a line of a stream. `encoding` is what the stream knows of
    /// its encoding, and is brought up to date; `b_additions` and
    /// `k_additions` are the additions that the stream has declared for B
    /// and for K records.
    pub fn parse_in_stream(
        bytes: &[u8],
        encoding: &mut BufEncoding,
        b_additions: &Vec<AdditionDef>,
        k_additions: &Vec<AdditionDef>,
    ) -> (r: Result<Record, Error>)
        ensures
            outcome(r) == record_of(
                bytes@,
                Context {
                    encoding: *old(encoding),
                    b_additions: defs_view(b_additions@),
                    k_additions: defs_view(k_additions@),
                },
            ),
            *final(encoding) == encoding_after_record(bytes@, *old(encoding)),
    {
        reveal(record_of);
        if bytes.len() == 0 {
            return Err(Error::invalid_record(bytes));
        }
        let tag = bytes[0];
        if tag == LETTER_A {
            Ok(Record::A)
        } else if tag == LETTER_B {
            match BRecord::parse_with_additions(bytes, b_additions) {
                Ok(record) => Ok(Record::B(record)),
                Err(e) => Err(e),
            }
        } else if tag == LETTER_C {
            match CRecord::parse_with_encoding(bytes, encoding) {
                Ok(record) => Ok(Record::C(record)),
                Err(e) => Err(e),
            }
        } else if tag == LETTER_D {
            match DRecord::parse(bytes) {
                Ok(record) => Ok(Record::D(record)),
                Err(e) => Err(e),
            }
        } else if tag == LETTER_E {
            match ERecord::parse_with_encoding(bytes, encoding) {
                Ok(record) => Ok(Record::E(record)),
                Err(e) => Err(e),
            }
        } else if tag == LETTER_F {
            match FRecord::parse(bytes) {
                Ok(record) => Ok(Record::F(record)),
                Err(e) => Err(e),
            }
        } else if tag == LETTER_G {
            match GRecord::parse_with_encoding(bytes, encoding) {
                Ok(record) => Ok(Record::G(record)),
                Err(e) => Err(e),
            }
        } else if tag == LETTER_H {
            match HRecord::parse_with_encoding(bytes, encoding) {
                Ok(record) => Ok(Record::H(record)),
                Err(e) => Err(e),
            }
        } else if tag == LETTER_I {
            match IRecord::parse(bytes) {
                Ok(record) => Ok(Record::I(record)),
                Err(e) => Err(e),
            }
        } else if tag == LETTER_J {
            match JRecord::parse(bytes) {
                Ok(record) => Ok(Record::J(record)),
                Err(e) => Err(e),
            }
        } else if tag == LETTER_K {
            match KRecord::parse_with_additions(bytes, k_additions) {
                Ok(record) => Ok(Record::K(record)),
                Err(e) => Err(e),
            }
        } else if tag == LETTER_L {
            match LRecord::parse_with_encoding(bytes, encoding) {
                Ok(record) => Ok(Record::L(record)),
                Err(e) => Err(e),
            }
        } else {
            Err(Error::UnknownRecordType { tag })
        }
    }
}

/// A line without a byte is refused, whatever the stream carries, and no
/// line decodes to the empty record.
pub proof fn lemma_empty_line_is_invalid(line: Seq<u8>, ctx: Context)
    ensures
        line.len() == 0 ==> record_of(line, ctx) == Err::<RecordView, ErrorView>(
            ErrorView::InvalidRecord { line },
        ),
        !(record_of(line, ctx) matches Ok(RecordView::Empty)),
{
    reveal(record_of);
}

} // verus!
