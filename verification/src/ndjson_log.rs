//! The message that reports how the storing of an instance has ended.
#![allow(non_snake_case)]
use crate::dicom_data::{name_of, option_text, standard_alias, DicomTagAndError};
use crate::repack::{RepackOutcome, RepackOutcomeView};
use vstd::prelude::*;

verus! {

/// An attribute that could not be read: its tag as it is written, its name in
/// the standard data dictionary where it has one, and the error in words.
#[derive(Debug)]
pub struct DicomTagNameAndError {
    pub tag: String,
    pub name: Option<String>,
    pub error: String,
}

/// What a [`DicomTagNameAndError`] holds.
pub struct DicomTagNameAndErrorView {
    pub tag: Seq<char>,
    pub name: Option<Seq<char>>,
    pub error: Seq<char>,
}

impl View for DicomTagNameAndError {
    type V = DicomTagNameAndErrorView;

    open spec fn view(&self) -> DicomTagNameAndErrorView {
        DicomTagNameAndErrorView {
            tag: self.tag@,
            name: option_text(self.name),
            error: self.error@,
        }
    }
}

/// The report of an attribute with the name `name`, if it has one, that could
/// not be read.
pub open spec fn named_error_with(
    value: DicomTagAndError,
    name: Option<Seq<char>>,
) -> DicomTagNameAndErrorView {
    DicomTagNameAndErrorView { tag: value.tag.text(), name, error: value.error.message() }
}

/// The report of an attribute that could not be read, with the name that the
/// standard data dictionary gives to its tag.
pub open spec fn named_error(value: DicomTagAndError) -> DicomTagNameAndErrorView {
    named_error_with(value, standard_alias(value.tag.0, value.tag.1))
}

impl DicomTagNameAndError {
    /// The report of an attribute with the name `name`, if it has one, that
    /// could not be read.
    pub fn with_name(value: &DicomTagAndError, name: Option<String>) -> (r: Self)
        ensures
            r@ == named_error_with(*value, option_text(name)),
    {
        Self { tag: value.tag.to_string(), name, error: value.error.to_string() }
    }

    /// The report of an attribute that could not be read.
    pub fn from(value: &DicomTagAndError) -> (r: Self)
        ensures
            r@ == named_error(*value),
    {
        Self::with_name(value, name_of(value.tag))
    }
}

/// How the storing of an instance has ended.
#[derive(Debug)]
pub struct Message {
    /// The file that was received.
    pub src: String,
    /// Where the instance is stored, if it is.
    pub dst: Option<String>,
    /// The size of the stored file in bytes, if it could be had.
    pub size: Option<u64>,
    pub PatientID: Option<String>,
    pub SeriesInstanceUID: Option<String>,
    /// Why the instance was not stored, or why the size could not be had.
    pub error: Option<String>,
    /// The attributes that could not be read.
    pub missing: Vec<DicomTagNameAndError>,
}

/// What a [`Message`] holds.
pub struct MessageView {
    pub src: Seq<char>,
    pub dst: Option<Seq<char>>,
    pub size: Option<u64>,
    pub PatientID: Option<Seq<char>>,
    pub SeriesInstanceUID: Option<Seq<char>>,
    pub error: Option<Seq<char>>,
    pub missing: Seq<DicomTagNameAndErrorView>,
}

/// What each of the reports holds.
pub open spec fn reports_view(reports: Seq<DicomTagNameAndError>) -> Seq<DicomTagNameAndErrorView> {
    Seq::new(reports.len(), |i: int| reports[i]@)
}

impl View for Message {
    type V = MessageView;

    open spec fn view(&self) -> MessageView {
        MessageView {
            src: self.src@,
            dst: option_text(self.dst),
            size: self.size,
            PatientID: option_text(self.PatientID),
            SeriesInstanceUID: option_text(self.SeriesInstanceUID),
            error: option_text(self.error),
            missing: reports_view(self.missing@),
        }
    }
}

/// The reports of the attributes that could not be read, in their order.
pub open spec fn named_errors(missing: Seq<DicomTagAndError>) -> Seq<DicomTagNameAndErrorView> {
    Seq::new(missing.len(), |i: int| named_error(missing[i]))
}

/// The message for an instance that was stored. `stat` is the size of the
/// stored file, or why it could not be had.
pub open spec fn stored_message(
    src: Seq<char>,
    outcome: RepackOutcomeView,
    stat: Result<u64, Seq<char>>,
) -> MessageView {
    MessageView {
        src,
        dst: Some(outcome.dst),
        size: match stat {
            Ok(size) => Some(size),
            Err(e) => None,
        },
        PatientID: Some(outcome.PatientID),
        SeriesInstanceUID: Some(outcome.SeriesInstanceUID),
        error: match stat {
            Ok(size) => None,
            Err(e) => Some(e),
        },
        missing: named_errors(outcome.missing),
    }
}

/// The message for an instance that was not stored.
pub open spec fn failed_message(src: Seq<char>, error: Seq<char>) -> MessageView {
    MessageView {
        src,
        dst: None,
        size: None,
        PatientID: None,
        SeriesInstanceUID: None,
        error: Some(error),
        missing: Seq::empty(),
    }
}

fn name_all(missing: &Vec<DicomTagAndError>) -> (r: Vec<DicomTagNameAndError>)
    ensures
        reports_view(r@) == named_errors(missing@),
{
    let mut r: Vec<DicomTagNameAndError> = Vec::new();
    let mut i: usize = 0;
    while i < missing.len()
        invariant
            i <= missing.len(),
            r@.len() == i,
            forall|k: int| 0 <= k < i ==> (#[trigger] r@[k])@ == named_error(missing@[k]),
        decreases missing.len() - i,
    {
        r.push(DicomTagNameAndError::from(&missing[i]));
        i += 1;
    }
    assert(reports_view(r@) =~= named_errors(missing@));
    r
}

impl Message {
    /// The message about the file `src`. `result` is the outcome of storing
    /// it, or the error in words. `stat` is the size of the stored file, or
    /// why it could not be had; it is read only where the instance was stored.
    pub fn new(src: &str, result: Result<&RepackOutcome, &str>, stat: Result<u64, String>) -> (r:
        Self)
        ensures
            r@ == match result {
                Ok(outcome) => stored_message(
                    src@,
                    outcome@,
                    match stat {
                        Ok(size) => Ok(size),
                        Err(e) => Err(e@),
                    },
                ),
                Err(e) => failed_message(src@, e@),
            },
    {
        match result {
            Ok(outcome) => {
                let (size, error) = match stat {
                    Ok(size) => (Some(size), None),
                    Err(e) => (None, Some(e)),
                };
                Self {
                    src: src.to_owned(),
                    dst: Some(outcome.dst.clone()),
                    size,
                    error,
                    missing: name_all(&outcome.missing),
                    PatientID: Some(outcome.PatientID.clone()),
                    SeriesInstanceUID: Some(outcome.SeriesInstanceUID.clone()),
                }
            },
            Err(e) => {
                let r = Self {
                    src: src.to_owned(),
                    dst: None,
                    size: None,
                    error: Some(e.to_owned()),
                    missing: Vec::new(),
                    PatientID: None,
                    SeriesInstanceUID: None,
                };
                assert(reports_view(r.missing@) =~= Seq::<DicomTagNameAndErrorView>::empty());
                r
            },
        }
    }
}

} // verus!
