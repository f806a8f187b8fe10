//! The records that are kept under the log directory for patients, studies,
//! series and instances.
#![allow(non_snake_case)]
use crate::dicom_data::{
    text_errors, text_or_undefined, Attribute, CommonElements, CommonElementsView,
    DicomTagAndError, DicomObject, MaybeU32, MaybeU32View, TagExtractor, maybe_u32,
};
use vstd::prelude::*;

verus! {

/// The studies seen for a patient: a set of study instance UIDs, held in a
/// `hashbrown::HashSet`.
#[verifier::external_body]
pub struct StudyList {
    inner: hashbrown::HashSet<String>,
}

/// The study instance UIDs that a study list holds.
pub uninterp spec fn study_list_contents(list: StudyList) -> Set<Seq<char>>;

impl View for StudyList {
    type V = Set<Seq<char>>;

    open spec fn view(&self) -> Set<Seq<char>> {
        study_list_contents(*self)
    }
}

/// `hashbrown::HashSet::new` makes a set that holds nothing.
#[verifier::external_body]
fn study_list_new() -> (r: StudyList)
    ensures
        study_list_contents(r) == Set::<Seq<char>>::empty(),
{
    StudyList { inner: hashbrown::HashSet::new() }
}

/// `hashbrown::HashSet::insert` adds the value to the set, and says whether
/// the set did not hold it before; a set that held it is left as it was.
/// Strings are the same value when their characters are the same.
#[verifier::external_body]
fn study_list_insert(list: &mut StudyList, uid: String) -> (added: bool)
    ensures
        study_list_contents(*final(list)) == study_list_contents(*old(list)).insert(uid@),
        added == !study_list_contents(*old(list)).contains(uid@),
{
    list.inner.insert(uid)
}

/// `hashbrown::HashSet::iter` visits each value of the set once, in an order
/// of its own choice; the values are handed out as copies.
#[verifier::external_body]
fn study_list_items(list: &StudyList) -> (r: Vec<String>)
    ensures
        forall|i: int| 0 <= i < r@.len() ==> study_list_contents(*list).contains(#[trigger] r@[i]@),
        forall|uid: Seq<char>| #[trigger]
            study_list_contents(*list).contains(uid) ==> exists|i: int|
                0 <= i < r@.len() && r@[i]@ == uid,
        forall|i: int, j: int| 0 <= i < j < r@.len() ==> r@[i]@ != r@[j]@,
{
    list.inner.iter().cloned().collect()
}

impl StudyList {
    /// A list that holds no study.
    pub fn new() -> (r: Self)
        ensures
            r@ == Set::<Seq<char>>::empty(),
    {
        study_list_new()
    }

    /// Adds a study to the list, and says whether it was new. Adding a study
    /// that the list holds changes nothing.
    pub fn insert(&mut self, uid: String) -> (added: bool)
        ensures
            final(self)@ == old(self)@.insert(uid@),
            added == !old(self)@.contains(uid@),
    {
        study_list_insert(self, uid)
    }

    /// A list of the given studies.
    pub fn from_items(items: &Vec<String>) -> (r: Self)
        ensures
            forall|uid: Seq<char>|
                r@.contains(uid) <==> exists|i: int| 0 <= i < items@.len() && items@[i]@ == uid,
    {
        let mut r = StudyList::new();
        let mut i: usize = 0;
        while i < items.len()
            invariant
                i <= items.len(),
                forall|uid: Seq<char>|
                    r@.contains(uid) <==> exists|k: int| 0 <= k < i && items@[k]@ == uid,
            decreases items.len() - i,
        {
            let ghost before = r@;
            r.insert(items[i].clone());
            assert forall|uid: Seq<char>| r@.contains(uid) <==> exists|k: int|
                0 <= k < i + 1 && items@[k]@ == uid by {
                if uid == items@[i as int]@ {
                    assert(0 <= i < i + 1 && items@[i as int]@ == uid);
                } else if before.contains(uid) {
                    let k = choose|k: int| 0 <= k < i && items@[k]@ == uid;
                    assert(0 <= k < i + 1 && items@[k]@ == uid);
                }
            }
            i += 1;
        }
        r
    }

    /// The studies of the list, each once, in no particular order.
    pub fn items(&self) -> (r: Vec<String>)
        ensures
            forall|i: int| 0 <= i < r@.len() ==> self@.contains(#[trigger] r@[i]@),
            forall|uid: Seq<char>| #[trigger]
                self@.contains(uid) ==> exists|i: int| 0 <= i < r@.len() && r@[i]@ == uid,
            forall|i: int, j: int| 0 <= i < j < r@.len() ==> r@[i]@ != r@[j]@,
    {
        study_list_items(self)
    }
}

/// What is known of a patient.
pub struct PatientData {
    pub PatientID: String,
    pub PatientName: String,
    pub PatientAge: String,
    pub PatientSex: String,
    pub PatientBirthDate: String,
    pub StudyList: StudyList,
}

/// What a [`PatientData`] holds.
pub struct PatientDataView {
    pub PatientID: Seq<char>,
    pub PatientName: Seq<char>,
    pub PatientAge: Seq<char>,
    pub PatientSex: Seq<char>,
    pub PatientBirthDate: Seq<char>,
    pub StudyList: Set<Seq<char>>,
}

impl View for PatientData {
    type V = PatientDataView;

    open spec fn view(&self) -> PatientDataView {
        PatientDataView {
            PatientID: self.PatientID@,
            PatientName: self.PatientName@,
            PatientAge: self.PatientAge@,
            PatientSex: self.PatientSex@,
            PatientBirthDate: self.PatientBirthDate@,
            StudyList: self.StudyList@,
        }
    }
}

/// The record of a patient that no study has been added to yet. Identifier,
/// name and date of birth are those of the projected fields; age and sex are
/// read for the record.
pub open spec fn new_patient(dcm: DicomObject, e: CommonElementsView) -> PatientDataView {
    PatientDataView {
        PatientID: e.PatientID,
        PatientName: e.PatientName,
        PatientAge: text_or_undefined(dcm, Attribute::PatientAge.spec_tag()),
        PatientSex: text_or_undefined(dcm, Attribute::PatientSex.spec_tag()),
        PatientBirthDate: e.PatientBirthDate,
        StudyList: Set::empty(),
    }
}

/// The errors met when the record of a patient is made.
pub open spec fn new_patient_errors(dcm: DicomObject) -> Seq<DicomTagAndError> {
    text_errors(dcm, Attribute::PatientAge.spec_tag()) + text_errors(
        dcm,
        Attribute::PatientSex.spec_tag(),
    )
}

impl PatientData {
    /// The record of a patient, with no study yet.
    ///
    /// What the projection has read is taken from the fields, so that an
    /// attribute that it could not read is recorded once.
    pub fn new(d: &mut TagExtractor, e: &CommonElements) -> (r: Self)
        ensures
            r@ == new_patient(*old(d).dcm, e@),
            *final(d).dcm == *old(d).dcm,
            final(d).errors@ == old(d).errors@ + new_patient_errors(*old(d).dcm),
    {
        let PatientAge = d.get(Attribute::PatientAge.tag());
        let PatientSex = d.get(Attribute::PatientSex.tag());
        proof {
            let e1 = text_errors(*old(d).dcm, Attribute::PatientAge.spec_tag());
            let e2 = text_errors(*old(d).dcm, Attribute::PatientSex.spec_tag());
            assert(old(d).errors@ + e1 + e2 == old(d).errors@ + (e1 + e2));
        }
        Self {
            PatientID: e.PatientID.clone(),
            PatientName: e.PatientName.clone(),
            PatientAge,
            PatientSex,
            PatientBirthDate: e.PatientBirthDate.clone(),
            StudyList: StudyList::new(),
        }
    }
}

/// What is known of a study.
pub struct StudyDataMeta {
    pub PatientID: String,
    pub StudyDescription: String,
    pub StudyDate: String,
    pub StudyInstanceUID: String,
    pub PerformedStationAETitle: String,
}

/// What a [`StudyDataMeta`] holds.
pub struct StudyDataMetaView {
    pub PatientID: Seq<char>,
    pub StudyDescription: Seq<char>,
    pub StudyDate: Seq<char>,
    pub StudyInstanceUID: Seq<char>,
    pub PerformedStationAETitle: Seq<char>,
}

impl View for StudyDataMeta {
    type V = StudyDataMetaView;

    open spec fn view(&self) -> StudyDataMetaView {
        StudyDataMetaView {
            PatientID: self.PatientID@,
            StudyDescription: self.StudyDescription@,
            StudyDate: self.StudyDate@,
            StudyInstanceUID: self.StudyInstanceUID@,
            PerformedStationAETitle: self.PerformedStationAETitle@,
        }
    }
}

/// The record of the study of an instance.
pub open spec fn study_meta(dcm: DicomObject, e: CommonElementsView) -> StudyDataMetaView {
    StudyDataMetaView {
        PatientID: e.PatientID,
        StudyDescription: e.StudyDescription,
        StudyDate: e.StudyDate,
        StudyInstanceUID: e.StudyInstanceUID,
        PerformedStationAETitle: text_or_undefined(
            dcm,
            Attribute::PerformedStationAETitle.spec_tag(),
        ),
    }
}

/// The errors met when the record of a study is made.
pub open spec fn study_meta_errors(dcm: DicomObject) -> Seq<DicomTagAndError> {
    text_errors(dcm, Attribute::PerformedStationAETitle.spec_tag())
}

impl StudyDataMeta {
    /// The record of the study of an instance.
    pub fn new(d: &mut TagExtractor, e: &CommonElements) -> (r: Self)
        ensures
            r@ == study_meta(*old(d).dcm, e@),
            *final(d).dcm == *old(d).dcm,
            final(d).errors@ == old(d).errors@ + study_meta_errors(*old(d).dcm),
    {
        Self {
            PatientID: e.PatientID.clone(),
            StudyDescription: e.StudyDescription.clone(),
            StudyDate: e.StudyDate.clone(),
            StudyInstanceUID: e.StudyInstanceUID.clone(),
            PerformedStationAETitle: d.get(Attribute::PerformedStationAETitle.tag()),
        }
    }
}

/// What is known of a series.
pub struct SeriesDataMeta {
    pub PatientID: String,
    pub StudyInstanceUID: String,
    pub SeriesInstanceUID: String,
    pub SeriesDescription: String,
    pub SeriesNumber: MaybeU32,
    pub SeriesDate: String,
    pub Modality: String,
}

/// What a [`SeriesDataMeta`] holds.
pub struct SeriesDataMetaView {
    pub PatientID: Seq<char>,
    pub StudyInstanceUID: Seq<char>,
    pub SeriesInstanceUID: Seq<char>,
    pub SeriesDescription: Seq<char>,
    pub SeriesNumber: MaybeU32View,
    pub SeriesDate: Seq<char>,
    pub Modality: Seq<char>,
}

impl View for SeriesDataMeta {
    type V = SeriesDataMetaView;

    open spec fn view(&self) -> SeriesDataMetaView {
        SeriesDataMetaView {
            PatientID: self.PatientID@,
            StudyInstanceUID: self.StudyInstanceUID@,
            SeriesInstanceUID: self.SeriesInstanceUID@,
            SeriesDescription: self.SeriesDescription@,
            SeriesNumber: self.SeriesNumber@,
            SeriesDate: self.SeriesDate@,
            Modality: self.Modality@,
        }
    }
}

/// The record of the series of an instance. The date of the series is the
/// date of its study.
pub open spec fn series_meta(dcm: DicomObject, e: CommonElementsView) -> SeriesDataMetaView {
    SeriesDataMetaView {
        PatientID: e.PatientID,
        StudyInstanceUID: e.StudyInstanceUID,
        SeriesInstanceUID: e.SeriesInstanceUID,
        SeriesDescription: e.SeriesDescription,
        SeriesNumber: e.SeriesNumber,
        SeriesDate: e.StudyDate,
        Modality: text_or_undefined(dcm, Attribute::Modality.spec_tag()),
    }
}

/// The errors met when the record of a series is made.
pub open spec fn series_meta_errors(dcm: DicomObject) -> Seq<DicomTagAndError> {
    text_errors(dcm, Attribute::Modality.spec_tag())
}

impl SeriesDataMeta {
    /// The record of the series of an instance.
    pub fn new(d: &mut TagExtractor, e: &CommonElements) -> (r: Self)
        ensures
            r@ == series_meta(*old(d).dcm, e@),
            *final(d).dcm == *old(d).dcm,
            final(d).errors@ == old(d).errors@ + series_meta_errors(*old(d).dcm),
    {
        Self {
            PatientID: e.PatientID.clone(),
            StudyInstanceUID: e.StudyInstanceUID.clone(),
            SeriesInstanceUID: e.SeriesInstanceUID.clone(),
            SeriesDescription: e.SeriesDescription.clone(),
            SeriesNumber: e.SeriesNumber.duplicate(),
            SeriesDate: e.StudyDate.clone(),
            Modality: d.get(Attribute::Modality.tag()),
        }
    }
}

/// Where a stored file is. Readers of the log count these entries to know how
/// many files of a series are stored.
pub struct FileStat {
    pub FSlocation: String,
}

/// What is known of a stored instance.
pub struct InstanceData {
    pub PatientID: String,
    pub StudyInstanceUID: String,
    pub SeriesInstanceUID: String,
    pub SeriesDescription: String,
    pub SeriesNumber: MaybeU32,
    pub SeriesDate: String,
    pub Modality: String,
    pub outputFile: String,
    /// Where the output file is. In the record it is the one entry of the
    /// map of stored files; [`InstanceData::image_obj`] gives it with its key.
    pub imageObj: FileStat,
}

/// What an [`InstanceData`] holds.
pub struct InstanceDataView {
    pub PatientID: Seq<char>,
    pub StudyInstanceUID: Seq<char>,
    pub SeriesInstanceUID: Seq<char>,
    pub SeriesDescription: Seq<char>,
    pub SeriesNumber: MaybeU32View,
    pub SeriesDate: Seq<char>,
    pub Modality: Seq<char>,
    pub outputFile: Seq<char>,
    pub FSlocation: Seq<char>,
}

impl InstanceDataView {
    /// The map of stored files of the record: one entry, the location of the
    /// output file under the name of the output file.
    pub open spec fn image_obj(self) -> Map<Seq<char>, Seq<char>> {
        Map::empty().insert(self.outputFile, self.FSlocation)
    }
}

impl View for InstanceData {
    type V = InstanceDataView;

    open spec fn view(&self) -> InstanceDataView {
        InstanceDataView {
            PatientID: self.PatientID@,
            StudyInstanceUID: self.StudyInstanceUID@,
            SeriesInstanceUID: self.SeriesInstanceUID@,
            SeriesDescription: self.SeriesDescription@,
            SeriesNumber: self.SeriesNumber@,
            SeriesDate: self.SeriesDate@,
            Modality: self.Modality@,
            outputFile: self.outputFile@,
            FSlocation: self.imageObj.FSlocation@,
        }
    }
}

/// The record of an instance stored as `output_file` at `location`. The
/// description of the series is that of the projected fields; number, date
/// and modality are read for the record.
pub open spec fn instance_data(
    dcm: DicomObject,
    e: CommonElementsView,
    output_file: Seq<char>,
    location: Seq<char>,
) -> InstanceDataView {
    InstanceDataView {
        PatientID: e.PatientID,
        StudyInstanceUID: e.StudyInstanceUID,
        SeriesInstanceUID: e.SeriesInstanceUID,
        SeriesDescription: e.SeriesDescription,
        SeriesNumber: maybe_u32(text_or_undefined(dcm, Attribute::SeriesNumber.spec_tag())),
        SeriesDate: text_or_undefined(dcm, Attribute::SeriesDate.spec_tag()),
        Modality: text_or_undefined(dcm, Attribute::Modality.spec_tag()),
        outputFile: output_file,
        FSlocation: location,
    }
}

/// The errors met when the record of an instance is made.
pub open spec fn instance_data_errors(dcm: DicomObject) -> Seq<DicomTagAndError> {
    text_errors(dcm, Attribute::SeriesNumber.spec_tag()) + text_errors(
        dcm,
        Attribute::SeriesDate.spec_tag(),
    ) + text_errors(dcm, Attribute::Modality.spec_tag())
}

impl InstanceData {
    /// The record of an instance stored as `outputFile` at `FSlocation`.
    ///
    /// What the projection has read is taken from the fields, so that an
    /// attribute that it could not read is recorded once.
    pub fn new(d: &mut TagExtractor, e: &CommonElements, outputFile: &str, FSlocation: &str) -> (r:
        Self)
        ensures
            r@ == instance_data(*old(d).dcm, e@, outputFile@, FSlocation@),
            *final(d).dcm == *old(d).dcm,
            final(d).errors@ == old(d).errors@ + instance_data_errors(*old(d).dcm),
    {
        let series_number = d.get(Attribute::SeriesNumber.tag());
        let SeriesDate = d.get(Attribute::SeriesDate.tag());
        let Modality = d.get(Attribute::Modality.tag());
        proof {
            let e1 = text_errors(*old(d).dcm, Attribute::SeriesNumber.spec_tag());
            let e2 = text_errors(*old(d).dcm, Attribute::SeriesDate.spec_tag());
            let e3 = text_errors(*old(d).dcm, Attribute::Modality.spec_tag());
            assert(old(d).errors@ + e1 + e2 + e3 == old(d).errors@ + (e1 + e2 + e3));
        }
        Self {
            PatientID: e.PatientID.clone(),
            StudyInstanceUID: e.StudyInstanceUID.clone(),
            SeriesInstanceUID: e.SeriesInstanceUID.clone(),
            SeriesDescription: e.SeriesDescription.clone(),
            SeriesNumber: MaybeU32::from(series_number.as_str()),
            SeriesDate,
            Modality,
            outputFile: outputFile.to_owned(),
            imageObj: FileStat { FSlocation: FSlocation.to_owned() },
        }
    }

    /// The one entry of the record's map of stored files: the name of the
    /// output file, and under it where the file is.
    pub fn image_obj(&self) -> (r: (String, FileStat))
        ensures
            r.0@ == self@.outputFile,
            r.1.FSlocation@ == self@.FSlocation,
            self@.image_obj() == Map::<Seq<char>, Seq<char>>::empty().insert(
                r.0@,
                r.1.FSlocation@,
            ),
    {
        (self.outputFile.clone(), FileStat { FSlocation: self.imageObj.FSlocation.clone() })
    }
}

/// The marker that a series has at least one stored instance.
#[derive(Clone, Copy, Debug, PartialEq, Eq, Structural)]
pub struct SeriesPack {
    pub seriesPack: bool,
}

/// The marker of a series with a stored instance.
pub fn series_pack() -> (r: SeriesPack)
    ensures
        r == (SeriesPack { seriesPack: true }),
{
    SeriesPack { seriesPack: true }
}

} // verus!
