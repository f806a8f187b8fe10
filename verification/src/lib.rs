//! Storing received DICOM instances by the values of their tags.
//!
//! An instance is stored below a data directory, in a directory for its
//! patient, study and series that is named after the values of its tags, and
//! records of the patient, the study, the series and the instance are kept
//! below a log directory. This library decides where an instance goes, which
//! records are written and what they hold; reading and writing files is left
//! to its caller, which [`repack`] tells what to do step by step.
pub mod dicom_data;
pub mod helpers;
pub mod log_models;
pub mod log_write;
pub mod ndjson_log;
pub mod numeral;
pub mod pack_path;
pub mod repack;
pub mod serialize_seriesmeta;
pub mod text;

pub use crate::ndjson_log::DicomTagNameAndError;
pub use crate::repack::{repack, RepackOutcome};
