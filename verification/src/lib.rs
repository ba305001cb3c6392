//! Decoder for flight logs in the IGC line format.
//!
//! A file is a sequence of lines; the first byte of each line says what the
//! line holds. [`Record::parse`] decodes one line by itself. A [`Reader`]
//! decodes a whole file and carries from line to line what later lines
//! depend on: the encoding of free text, and the additions that I and J
//! records declare for B and K records.

pub mod additions;
pub mod ascii;
pub mod coordinate;
pub mod error;
pub mod events;
pub mod headers;
pub mod lines;
pub mod num;
pub mod reader;
pub mod records;
pub mod text;
pub mod time;

pub use additions::{
    parse_additions,
    parse_from_record_line,
    AdditionCode,
    AdditionDef,
    AdditionSupport,
    AdditionsMap,
    ParseAdditions,
};
pub use coordinate::{
    parse_latitude,
    parse_latitude_unchecked,
    parse_longitude,
    parse_longitude_unchecked,
    Angle,
    Fraction,
};
pub use error::{Error, Expected, Found, Line};
pub use events::EventCode;
pub use headers::{HeaderCode, HeaderSource};
pub use lines::{ByteLines, ByteLinesExt};
pub use num::{parse_int, parse_uint};
pub use reader::{Reader, RecordsIter};
pub use records::{
    b_record,
    parse_altitude,
    parse_validity,
    BRecord,
    CRecord,
    CRecordDeclaration,
    CRecordTurnpoint,
    DRecord,
    ERecord,
    FRecord,
    GPSQualifier,
    GRecord,
    HRecord,
    IRecord,
    JRecord,
    KRecord,
    LRecord,
    LRecordSource,
    Record,
};
pub use text::{as_text, BufEncoding};
pub use time::{parse_date, parse_time, Date, Time};
