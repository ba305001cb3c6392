//! One decoder for each type of record.

pub mod b_record;
pub mod c_record;
pub mod d_record;
pub mod e_record;
pub mod f_record;
pub mod g_record;
pub mod grammar;
pub mod h_record;
pub mod i_record;
pub mod j_record;
pub mod k_record;
pub mod l_record;
pub mod l_source;
pub mod record;

pub use b_record::{b_record, parse_altitude, parse_validity, BRecord};
pub use c_record::{CRecordDeclaration, CRecordTurnpoint};
pub use d_record::{DRecord, GPSQualifier};
pub use e_record::ERecord;
pub use f_record::FRecord;
pub use g_record::GRecord;
pub use h_record::HRecord;
pub use i_record::IRecord;
pub use j_record::JRecord;
pub use k_record::KRecord;
pub use l_record::LRecord;
pub use l_source::LRecordSource;
pub use record::{CRecord, Record};
