//! Which records are written under the log directory for an instance, and
//! where.
#![allow(non_snake_case)]
use crate::dicom_data::{
    failure_at, is_optional, is_record_only, is_required, lemma_string_has_text,
    required_failure, text_errors, Attribute, CommonElements, CommonElementsView, DicomObject,
    DicomTagAndError, TagExtractor,
};
use crate::log_models::{
    instance_data, instance_data_errors, new_patient, new_patient_errors, series_meta,
    series_meta_errors, series_pack, study_meta, study_meta_errors, InstanceData,
    InstanceDataView, PatientData, PatientDataView, SeriesDataMeta, SeriesDataMetaView,
    SeriesPack, StudyDataMeta, StudyDataMetaView,
};
use crate::pack_path::{join_path, joined_path, PypxPath, PypxPathView};
use crate::serialize_seriesmeta::{dump_of, StudyDataSeriesMeta, StudyDataSeriesMetaView};
use crate::text::push_str;
use vstd::prelude::*;

verus! {

/// The records of the patients of one log file, by patient ID, held in a
/// `hashbrown::HashMap`.
#[verifier::external_body]
pub struct PatientLog {
    inner: hashbrown::HashMap<String, PatientData>,
}

/// The records that a patient log holds, by patient ID.
pub uninterp spec fn patient_log_contents(log: PatientLog) -> Map<Seq<char>, PatientDataView>;

impl View for PatientLog {
    type V = Map<Seq<char>, PatientDataView>;

    open spec fn view(&self) -> Map<Seq<char>, PatientDataView> {
        patient_log_contents(*self)
    }
}

/// The log of no patient.
pub open spec fn no_patients() -> Map<Seq<char>, PatientDataView> {
    Map::empty()
}

/// `hashbrown::HashMap::new` makes a map that holds nothing.
#[verifier::external_body]
fn patient_log_new() -> (r: PatientLog)
    ensures
        patient_log_contents(r) == no_patients(),
{
    PatientLog { inner: hashbrown::HashMap::new() }
}

/// `hashbrown::HashMap::insert` puts the value under the key; a value that
/// stood under the same key is replaced. Strings are the same key when their
/// characters are the same.
#[verifier::external_body]
fn patient_log_insert(log: &mut PatientLog, key: String, value: PatientData)
    ensures
        patient_log_contents(*final(log)) == patient_log_contents(*old(log)).insert(key@, value@),
{
    log.inner.insert(key, value);
}

/// `hashbrown::HashMap::remove` takes the key out of the map and returns the
/// value that stood under it; a map without the key is left as it was.
#[verifier::external_body]
fn patient_log_remove(log: &mut PatientLog, key: &str) -> (r: Option<PatientData>)
    ensures
        patient_log_contents(*final(log)) == patient_log_contents(*old(log)).remove(key@),
        match r {
            Some(value) => patient_log_contents(*old(log)).contains_pair(key@, value@),
            None => !patient_log_contents(*old(log)).contains_key(key@),
        },
{
    log.inner.remove(key)
}

/// `hashbrown::HashMap::into_iter` hands out each key once with its value, in
/// an order of its own choice.
#[verifier::external_body]
fn patient_log_into_entries(log: PatientLog) -> (r: Vec<(String, PatientData)>)
    ensures
        forall|i: int|
            0 <= i < r@.len() ==> patient_log_contents(log).contains_pair(
                (#[trigger] r@[i]).0@,
                r@[i].1@,
            ),
        forall|key: Seq<char>| #[trigger]
            patient_log_contents(log).contains_key(key) ==> exists|i: int|
                0 <= i < r@.len() && r@[i].0@ == key,
        forall|i: int, j: int| 0 <= i < j < r@.len() ==> r@[i].0@ != r@[j].0@,
{
    log.inner.into_iter().collect()
}

/// The record of the patient `patient_id` after the study `study` was seen:
/// the record that `log` holds for the patient, or `fresh` where it holds
/// none, with the study in its list.
pub open spec fn upserted_record(
    log: Map<Seq<char>, PatientDataView>,
    fresh: PatientDataView,
    patient_id: Seq<char>,
    study: Seq<char>,
) -> PatientDataView {
    let found = if log.contains_key(patient_id) {
        log[patient_id]
    } else {
        fresh
    };
    PatientDataView {
        PatientID: found.PatientID,
        PatientName: found.PatientName,
        PatientAge: found.PatientAge,
        PatientSex: found.PatientSex,
        PatientBirthDate: found.PatientBirthDate,
        StudyList: found.StudyList.insert(study),
    }
}

/// The log after the study `study` of the patient `patient_id` was seen. The
/// records of other patients stay as they are.
pub open spec fn upserted(
    log: Map<Seq<char>, PatientDataView>,
    fresh: PatientDataView,
    patient_id: Seq<char>,
    study: Seq<char>,
) -> Map<Seq<char>, PatientDataView> {
    log.insert(patient_id, upserted_record(log, fresh, patient_id, study))
}

impl PatientLog {
    /// The log of no patient.
    pub fn new() -> (r: Self)
        ensures
            r@ == no_patients(),
    {
        patient_log_new()
    }

    /// Puts the record of a patient into the log, in place of the record that
    /// the log held for the patient.
    pub fn insert(&mut self, patient_id: String, record: PatientData)
        ensures
            final(self)@ == old(self)@.insert(patient_id@, record@),
    {
        patient_log_insert(self, patient_id, record)
    }

    /// Adds a study to the record of a patient. Where the log holds no record
    /// of the patient, `fresh` becomes the record.
    pub fn add_study(&mut self, patient_id: &str, fresh: PatientData, study: String)
        ensures
            final(self)@ == upserted(old(self)@, fresh@, patient_id@, study@),
    {
        let mut record = match patient_log_remove(self, patient_id) {
            Some(record) => record,
            None => fresh,
        };
        record.StudyList.insert(study);
        patient_log_insert(self, patient_id.to_owned(), record);
        assert(self@ =~= upserted(old(self)@, fresh@, patient_id@, study@));
    }

    /// The records of the log with their patient IDs, each once, in no
    /// particular order.
    pub fn into_entries(self) -> (r: Vec<(String, PatientData)>)
        ensures
            forall|i: int|
                0 <= i < r@.len() ==> self@.contains_pair((#[trigger] r@[i]).0@, r@[i].1@),
            forall|key: Seq<char>| #[trigger]
                self@.contains_key(key) ==> exists|i: int| 0 <= i < r@.len() && r@[i].0@ == key,
            forall|i: int, j: int| 0 <= i < j < r@.len() ==> r@[i].0@ != r@[j].0@,
    {
        patient_log_into_entries(self)
    }
}

/// Adding a study twice is the same as adding it once: the list of studies of
/// a patient is a set.
pub proof fn lemma_upsert_is_idempotent(
    log: Map<Seq<char>, PatientDataView>,
    fresh: PatientDataView,
    again: PatientDataView,
    patient_id: Seq<char>,
    study: Seq<char>,
)
    ensures
        upserted(upserted(log, fresh, patient_id, study), again, patient_id, study) == upserted(
            log,
            fresh,
            patient_id,
            study,
        ),
        upserted(log, fresh, patient_id, study)[patient_id].StudyList.contains(study),
{
    let once = upserted(log, fresh, patient_id, study);
    let twice = upserted(once, again, patient_id, study);
    let record = upserted_record(log, fresh, patient_id, study);
    assert(once[patient_id] == record);
    assert(record.StudyList.insert(study) =~= record.StudyList);
    assert(upserted_record(once, again, patient_id, study) == record);
    assert(twice =~= once);
}

/// A study that is added leaves the studies that the patient had.
pub proof fn lemma_upsert_keeps_studies(
    log: Map<Seq<char>, PatientDataView>,
    fresh: PatientDataView,
    patient_id: Seq<char>,
    study: Seq<char>,
    other: Seq<char>,
)
    requires
        log.contains_key(patient_id),
        log[patient_id].StudyList.contains(other),
    ensures
        upserted(log, fresh, patient_id, study)[patient_id].StudyList.contains(other),
{
}

/// `a` followed by `suffix`.
fn with_suffix(a: &str, suffix: &str) -> (r: String)
    ensures
        r@ == a@ + suffix@,
{
    let mut r = String::new();
    push_str(&mut r, a);
    push_str(&mut r, suffix);
    assert(Seq::<char>::empty() + a@ == a@);
    r
}

/// The files of the records of one instance.
#[derive(Debug)]
pub struct LogPaths {
    /// The log of the patient.
    pub patient: String,
    /// The record of the series in the directory of its study.
    pub study_series_meta: String,
    /// The record of the study.
    pub study_meta: String,
    /// The record of the series.
    pub series_meta: String,
    /// The record of the instance.
    pub instance: String,
    /// The marker of the series.
    pub pack: String,
}

/// What a [`LogPaths`] holds.
pub struct LogPathsView {
    pub patient: Seq<char>,
    pub study_series_meta: Seq<char>,
    pub study_meta: Seq<char>,
    pub series_meta: Seq<char>,
    pub instance: Seq<char>,
    pub pack: Seq<char>,
}

impl View for LogPaths {
    type V = LogPathsView;

    open spec fn view(&self) -> LogPathsView {
        LogPathsView {
            patient: self.patient@,
            study_series_meta: self.study_series_meta@,
            study_meta: self.study_meta@,
            series_meta: self.series_meta@,
            instance: self.instance@,
            pack: self.pack@,
        }
    }
}

/// The files of the records of the instance with the fields `e`, stored under
/// the file name `fname`, below the log directory `log_dir`.
pub open spec fn log_paths_of(
    e: CommonElementsView,
    fname: Seq<char>,
    log_dir: Seq<char>,
) -> LogPathsView {
    let patient_data = joined_path(log_dir, "patientData"@);
    let series_data = joined_path(log_dir, "seriesData"@);
    let study_data = joined_path(log_dir, "studyData"@);
    LogPathsView {
        patient: joined_path(patient_data, e.PatientID + ".json"@),
        study_series_meta: joined_path(
            joined_path(study_data, e.StudyInstanceUID + "-series"@),
            e.SeriesInstanceUID + "-meta.json"@,
        ),
        study_meta: joined_path(study_data, e.StudyInstanceUID + "-meta.json"@),
        series_meta: joined_path(series_data, e.SeriesInstanceUID + "-meta.json"@),
        instance: joined_path(
            joined_path(series_data, e.SeriesInstanceUID + "-img"@),
            fname + ".json"@,
        ),
        pack: joined_path(series_data, e.SeriesInstanceUID + "-pack.json"@),
    }
}

/// The files of the records of an instance below the log directory.
pub fn log_paths(common: &CommonElements, unpack: &PypxPath, log_dir: &str) -> (r: LogPaths)
    ensures
        r@ == log_paths_of(common@, unpack@.fname, log_dir@),
{
    let patient_data_dir = join_path(log_dir, "patientData");
    let series_data_dir = join_path(log_dir, "seriesData");
    let study_data_dir = join_path(log_dir, "studyData");
    let study = common.StudyInstanceUID.as_str();
    let series = common.SeriesInstanceUID.as_str();
    let study_series_meta_dir = join_path(
        study_data_dir.as_str(),
        with_suffix(study, "-series").as_str(),
    );
    let img_data_dir = join_path(series_data_dir.as_str(), with_suffix(series, "-img").as_str());
    LogPaths {
        patient: join_path(
            patient_data_dir.as_str(),
            with_suffix(common.PatientID.as_str(), ".json").as_str(),
        ),
        study_series_meta: join_path(
            study_series_meta_dir.as_str(),
            with_suffix(series, "-meta.json").as_str(),
        ),
        study_meta: join_path(
            study_data_dir.as_str(),
            with_suffix(study, "-meta.json").as_str(),
        ),
        series_meta: join_path(
            series_data_dir.as_str(),
            with_suffix(series, "-meta.json").as_str(),
        ),
        instance: join_path(
            img_data_dir.as_str(),
            with_suffix(unpack.fname.as_str(), ".json").as_str(),
        ),
        pack: join_path(series_data_dir.as_str(), with_suffix(series, "-pack.json").as_str()),
    }
}

/// What the log directory holds for an instance before its records are
/// written.
pub struct ExistingLogs {
    /// The log of the patient, where its file could be read; a file that is
    /// missing or cannot be read as a log counts as no log.
    pub patient: Option<PatientLog>,
    /// Whether the record of the series in the directory of its study exists.
    pub study_series_meta: bool,
    /// Whether the record of the study exists.
    pub study_meta: bool,
    /// Whether the record of the series exists.
    pub series_meta: bool,
    /// Whether the marker of the series exists.
    pub pack: bool,
}

/// What an [`ExistingLogs`] holds.
pub struct ExistingLogsView {
    pub patient: Map<Seq<char>, PatientDataView>,
    pub study_series_meta: bool,
    pub study_meta: bool,
    pub series_meta: bool,
    pub pack: bool,
}

impl View for ExistingLogs {
    type V = ExistingLogsView;

    open spec fn view(&self) -> ExistingLogsView {
        ExistingLogsView {
            patient: match self.patient {
                Some(log) => log@,
                None => no_patients(),
            },
            study_series_meta: self.study_series_meta,
            study_meta: self.study_meta,
            series_meta: self.series_meta,
            pack: self.pack,
        }
    }
}

/// A record to write. A record of a study stands in its file under the UID of
/// the study, a record of an instance under the UID of its series.
#[allow(inconsistent_fields)]
pub enum LogRecord {
    Patient(PatientLog),
    StudySeriesMeta { study: String, record: StudyDataSeriesMeta },
    StudyMeta { study: String, record: StudyDataMeta },
    SeriesMeta(SeriesDataMeta),
    Instance { series: String, record: InstanceData },
    SeriesPack(SeriesPack),
}

/// What a [`LogRecord`] holds.
pub enum LogRecordView {
    Patient(Map<Seq<char>, PatientDataView>),
    StudySeriesMeta { study: Seq<char>, series_record: StudyDataSeriesMetaView },
    StudyMeta { study: Seq<char>, study_record: StudyDataMetaView },
    SeriesMeta(SeriesDataMetaView),
    Instance { series: Seq<char>, instance_record: InstanceDataView },
    SeriesPack(SeriesPack),
}

impl View for LogRecord {
    type V = LogRecordView;

    open spec fn view(&self) -> LogRecordView {
        match self {
            LogRecord::Patient(log) => LogRecordView::Patient(log@),
            LogRecord::StudySeriesMeta { study, record } => LogRecordView::StudySeriesMeta {
                study: study@,
                series_record: record@,
            },
            LogRecord::StudyMeta { study, record } => LogRecordView::StudyMeta {
                study: study@,
                study_record: record@,
            },
            LogRecord::SeriesMeta(record) => LogRecordView::SeriesMeta(record@),
            LogRecord::Instance { series, record } => LogRecordView::Instance {
                series: series@,
                instance_record: record@,
            },
            LogRecord::SeriesPack(marker) => LogRecordView::SeriesPack(*marker),
        }
    }
}

/// A file to write, and the record that it is to hold. Directories above the
/// file are made as needed.
pub struct LogWrite {
    pub path: String,
    pub record: LogRecord,
}

/// What a [`LogWrite`] holds.
pub struct LogWriteView {
    pub path: Seq<char>,
    pub record: LogRecordView,
}

impl View for LogWrite {
    type V = LogWriteView;

    open spec fn view(&self) -> LogWriteView {
        LogWriteView { path: self.path@, record: self.record@ }
    }
}

/// What each of the writes holds.
pub open spec fn writes_view(writes: Seq<LogWrite>) -> Seq<LogWriteView> {
    Seq::new(writes.len(), |i: int| writes[i]@)
}

/// `write` where `wanted` holds, nothing where it does not.
pub open spec fn write_if(wanted: bool, write: LogWriteView) -> Seq<LogWriteView> {
    if wanted {
        seq![write]
    } else {
        Seq::empty()
    }
}

/// `errors` where `wanted` holds, none where it does not.
pub open spec fn errors_if(wanted: bool, errors: Seq<DicomTagAndError>) -> Seq<DicomTagAndError> {
    if wanted {
        errors
    } else {
        Seq::empty()
    }
}

/// The write of the log of the patient, with the study of the instance in the
/// record of the patient.
pub open spec fn patient_write(
    dcm: DicomObject,
    e: CommonElementsView,
    paths: LogPathsView,
    existing: ExistingLogsView,
) -> LogWriteView {
    LogWriteView {
        path: paths.patient,
        record: LogRecordView::Patient(
            upserted(existing.patient, new_patient(dcm, e), e.PatientID, e.StudyInstanceUID),
        ),
    }
}

/// The write of the record of the series in the directory of its study.
pub open spec fn study_series_meta_write(
    dcm: DicomObject,
    e: CommonElementsView,
    unpack: PypxPathView,
    paths: LogPathsView,
) -> LogWriteView {
    LogWriteView {
        path: paths.study_series_meta,
        record: LogRecordView::StudySeriesMeta {
            study: e.StudyInstanceUID,
            series_record: StudyDataSeriesMetaView {
                SeriesInstanceUID: e.SeriesInstanceUID,
                SeriesBaseDir: unpack.dir,
                DICOM: dump_of(dcm.elements@),
            },
        },
    }
}

/// The write of the record of the study.
pub open spec fn study_meta_write(
    dcm: DicomObject,
    e: CommonElementsView,
    paths: LogPathsView,
) -> LogWriteView {
    LogWriteView {
        path: paths.study_meta,
        record: LogRecordView::StudyMeta {
            study: e.StudyInstanceUID,
            study_record: study_meta(dcm, e),
        },
    }
}

/// The write of the record of the series.
pub open spec fn series_meta_write(
    dcm: DicomObject,
    e: CommonElementsView,
    paths: LogPathsView,
) -> LogWriteView {
    LogWriteView { path: paths.series_meta, record: LogRecordView::SeriesMeta(series_meta(dcm, e)) }
}

/// The write of the record of the instance.
pub open spec fn instance_write(
    dcm: DicomObject,
    e: CommonElementsView,
    unpack: PypxPathView,
    paths: LogPathsView,
) -> LogWriteView {
    LogWriteView {
        path: paths.instance,
        record: LogRecordView::Instance {
            series: e.SeriesInstanceUID,
            instance_record: instance_data(dcm, e, unpack.fname, unpack.path),
        },
    }
}

/// The write of the marker of the series.
pub open spec fn pack_write(paths: LogPathsView) -> LogWriteView {
    LogWriteView {
        path: paths.pack,
        record: LogRecordView::SeriesPack(SeriesPack { seriesPack: true }),
    }
}

/// The writes for an instance, in the order in which they are made. The log
/// of the patient and the record of the instance are always written; each of
/// the other records is written only where it does not exist yet.
pub open spec fn planned_writes(
    dcm: DicomObject,
    e: CommonElementsView,
    unpack: PypxPathView,
    log_dir: Seq<char>,
    existing: ExistingLogsView,
) -> Seq<LogWriteView> {
    let paths = log_paths_of(e, unpack.fname, log_dir);
    seq![patient_write(dcm, e, paths, existing)] + write_if(
        !existing.study_series_meta,
        study_series_meta_write(dcm, e, unpack, paths),
    ) + write_if(!existing.study_meta, study_meta_write(dcm, e, paths)) + write_if(
        !existing.series_meta,
        series_meta_write(dcm, e, paths),
    ) + seq![instance_write(dcm, e, unpack, paths)] + write_if(!existing.pack, pack_write(paths))
}

/// The errors met when the records of an instance are made, in the order in
/// which they are met. A record that is not made meets none: the record of a
/// patient is made only where the log holds none for the patient.
pub open spec fn planned_errors(
    dcm: DicomObject,
    e: CommonElementsView,
    existing: ExistingLogsView,
) -> Seq<DicomTagAndError> {
    errors_if(!existing.patient.contains_key(e.PatientID), new_patient_errors(dcm)) + errors_if(
        !existing.study_meta,
        study_meta_errors(dcm),
    ) + errors_if(!existing.series_meta, series_meta_errors(dcm)) + instance_data_errors(dcm)
}

/// The log of the patient with the study of the instance added.
fn upsert_patient(d: &mut TagExtractor, common: &CommonElements, existing: Option<PatientLog>) -> (r:
    PatientLog)
    ensures
        *final(d).dcm == *old(d).dcm,
        r@ == upserted(
            match existing {
                Some(log) => log@,
                None => no_patients(),
            },
            new_patient(*old(d).dcm, common@),
            common@.PatientID,
            common@.StudyInstanceUID,
        ),
        final(d).errors@ == old(d).errors@ + errors_if(
            !(match existing {
                Some(log) => log@,
                None => no_patients(),
            }).contains_key(common@.PatientID),
            new_patient_errors(*old(d).dcm),
        ),
{
    let mut log = match existing {
        Some(log) => log,
        None => PatientLog::new(),
    };
    let ghost before = log@;
    let patient_id = common.PatientID.as_str();
    let mut record = match patient_log_remove(&mut log, patient_id) {
        Some(record) => {
            assert(d.errors@ + Seq::<DicomTagAndError>::empty() == d.errors@);
            record
        },
        None => PatientData::new(d, common),
    };
    record.StudyList.insert(common.StudyInstanceUID.clone());
    patient_log_insert(&mut log, common.PatientID.clone(), record);
    assert(log@ =~= upserted(
        before,
        new_patient(*old(d).dcm, common@),
        common@.PatientID,
        common@.StudyInstanceUID,
    ));
    log
}

/// Decides which records are written for an instance that was stored at
/// `unpack`, and makes them. `existing` says what the log directory holds.
///
/// Returns the writes in the order in which they are to be made, and the
/// errors met when the records were made.
pub fn write_logs(
    dcm: &DicomObject,
    common: &CommonElements,
    unpack: &PypxPath,
    log_dir: &str,
    existing: ExistingLogs,
) -> (r: (Vec<LogWrite>, Vec<DicomTagAndError>))
    ensures
        writes_view(r.0@) == planned_writes(*dcm, common@, unpack@, log_dir@, existing@),
        r.1@ == planned_errors(*dcm, common@, existing@),
{
    let ghost e = common@;
    let ghost was = existing@;
    let ghost paths_view = log_paths_of(e, unpack@.fname, log_dir@);
    let mut dcmtags = TagExtractor::new(dcm);
    let paths = log_paths(common, unpack, log_dir);
    let mut writes: Vec<LogWrite> = Vec::new();

    let study_series_meta_exists = existing.study_series_meta;
    let study_meta_exists = existing.study_meta;
    let series_meta_exists = existing.series_meta;
    let pack_exists = existing.pack;

    let patient_data = upsert_patient(&mut dcmtags, common, existing.patient);
    writes.push(LogWrite { path: paths.patient, record: LogRecord::Patient(patient_data) });
    let ghost w1 = seq![patient_write(*dcm, e, paths_view, was)];
    let ghost e1 = errors_if(!was.patient.contains_key(e.PatientID), new_patient_errors(*dcm));
    assert(writes_view(writes@) =~= w1);
    assert(dcmtags.errors@ =~= e1);

    if !study_series_meta_exists {
        let record = StudyDataSeriesMeta::new(
            common.SeriesInstanceUID.as_str(),
            unpack.dir.as_str(),
            dcm,
        );
        writes.push(
            LogWrite {
                path: paths.study_series_meta,
                record: LogRecord::StudySeriesMeta {
                    study: common.StudyInstanceUID.clone(),
                    record,
                },
            },
        );
    }
    let ghost w2 = w1 + write_if(
        !was.study_series_meta,
        study_series_meta_write(*dcm, e, unpack@, paths_view),
    );
    assert(writes_view(writes@) =~= w2);

    if !study_meta_exists {
        let record = StudyDataMeta::new(&mut dcmtags, common);
        writes.push(
            LogWrite {
                path: paths.study_meta,
                record: LogRecord::StudyMeta { study: common.StudyInstanceUID.clone(), record },
            },
        );
    }
    let ghost w3 = w2 + write_if(!was.study_meta, study_meta_write(*dcm, e, paths_view));
    let ghost e3 = e1 + errors_if(!was.study_meta, study_meta_errors(*dcm));
    assert(writes_view(writes@) =~= w3);
    assert(dcmtags.errors@ =~= e3);

    if !series_meta_exists {
        let record = SeriesDataMeta::new(&mut dcmtags, common);
        writes.push(LogWrite { path: paths.series_meta, record: LogRecord::SeriesMeta(record) });
    }
    let ghost w4 = w3 + write_if(!was.series_meta, series_meta_write(*dcm, e, paths_view));
    let ghost e4 = e3 + errors_if(!was.series_meta, series_meta_errors(*dcm));
    assert(writes_view(writes@) =~= w4);
    assert(dcmtags.errors@ =~= e4);

    let record = InstanceData::new(
        &mut dcmtags,
        common,
        unpack.fname.as_str(),
        unpack.path.as_str(),
    );
    writes.push(
        LogWrite {
            path: paths.instance,
            record: LogRecord::Instance { series: common.SeriesInstanceUID.clone(), record },
        },
    );
    let ghost w5 = w4 + seq![instance_write(*dcm, e, unpack@, paths_view)];
    let ghost e5 = e4 + instance_data_errors(*dcm);
    assert(writes_view(writes@) =~= w5);
    assert(dcmtags.errors@ =~= e5);

    if !pack_exists {
        writes.push(LogWrite { path: paths.pack, record: LogRecord::SeriesPack(series_pack()) });
    }
    let ghost w6 = w5 + write_if(!was.pack, pack_write(paths_view));
    assert(writes_view(writes@) =~= w6);

    (writes, dcmtags.errors)
}

/// Which of the records of an instance are written once and left alone
/// afterwards.
pub open spec fn is_write_once(record: LogRecordView) -> bool {
    !(record is Patient) && !(record is Instance)
}

/// Whether the log directory holds the file of a write-once record already.
pub open spec fn exists_already(record: LogRecordView, existing: ExistingLogsView) -> bool {
    match record {
        LogRecordView::StudySeriesMeta { study, series_record } => existing.study_series_meta,
        LogRecordView::StudyMeta { study, study_record } => existing.study_meta,
        LogRecordView::SeriesMeta(r) => existing.series_meta,
        LogRecordView::SeriesPack(r) => existing.pack,
        _ => false,
    }
}

/// What the log directory holds once the writes for an instance are made:
/// the log of the patient that was written, and every write-once record.
pub open spec fn after_writes(patient: Map<Seq<char>, PatientDataView>) -> ExistingLogsView {
    ExistingLogsView {
        patient,
        study_series_meta: true,
        study_meta: true,
        series_meta: true,
        pack: true,
    }
}

/// A write-once record that exists is never written again, and one that does
/// not exist is written: the log of the patient and the record of the
/// instance are always written.
pub proof fn lemma_write_once(
    dcm: DicomObject,
    e: CommonElementsView,
    unpack: PypxPathView,
    log_dir: Seq<char>,
    existing: ExistingLogsView,
)
    ensures
        forall|i: int|
            #![trigger planned_writes(dcm, e, unpack, log_dir, existing)[i]]
            0 <= i < planned_writes(dcm, e, unpack, log_dir, existing).len() ==> !exists_already(
                planned_writes(dcm, e, unpack, log_dir, existing)[i].record,
                existing,
            ),
        planned_writes(dcm, e, unpack, log_dir, existing).len() == 2 + (if existing.study_series_meta {
            0int
        } else {
            1int
        }) + (if existing.study_meta {
            0int
        } else {
            1int
        }) + (if existing.series_meta {
            0int
        } else {
            1int
        }) + (if existing.pack {
            0int
        } else {
            1int
        }),
        planned_writes(dcm, e, unpack, log_dir, existing)[0].record is Patient,
{
}

/// Storing the same instance again writes no write-once record a second
/// time: the writes of the second run are the log of the patient, which holds
/// the same studies as after the first run, and the record of the instance.
pub proof fn lemma_second_run_rewrites_nothing(
    dcm: DicomObject,
    e: CommonElementsView,
    unpack: PypxPathView,
    log_dir: Seq<char>,
    existing: ExistingLogsView,
)
    ensures
        ({
            let first = planned_writes(dcm, e, unpack, log_dir, existing);
            let log = first[0].record->Patient_0;
            let second = planned_writes(dcm, e, unpack, log_dir, after_writes(log));
            &&& first[0].record is Patient
            &&& second.len() == 2
            &&& second[0].record == LogRecordView::Patient(log)
            &&& second[0].path == first[0].path
            &&& second[1] == instance_write(
                dcm,
                e,
                unpack,
                log_paths_of(e, unpack.fname, log_dir),
            )
            &&& forall|i: int| 0 <= i < second.len() ==> !is_write_once(#[trigger] second[i].record)
        }),
{
    let first = planned_writes(dcm, e, unpack, log_dir, existing);
    let log = first[0].record->Patient_0;
    lemma_upsert_is_idempotent(
        existing.patient,
        new_patient(dcm, e),
        new_patient(dcm, e),
        e.PatientID,
        e.StudyInstanceUID,
    );
}


/// Making the records meets errors only on attributes that are read for
/// records alone: what the projection has read is taken from the fields, so
/// no attribute that the projection could not read is recorded a second time.
pub proof fn lemma_records_read_other_tags(
    dcm: DicomObject,
    e: CommonElementsView,
    existing: ExistingLogsView,
)
    requires
        required_failure(dcm) is None,
    ensures
        forall|i: int|
            0 <= i < planned_errors(dcm, e, existing).len() ==> exists|a: Attribute|
                is_record_only(a) && a.spec_tag() == (#[trigger] planned_errors(
                    dcm,
                    e,
                    existing,
                )[i]).tag,
        forall|i: int, a: Attribute|
            0 <= i < planned_errors(dcm, e, existing).len() && (is_optional(a) || is_required(a))
                ==> (#[trigger] planned_errors(dcm, e, existing)[i]).tag != #[trigger] a.spec_tag(),
{
    assert(failure_at(dcm, Attribute::SeriesNumber) is None);
    lemma_string_has_text(dcm, Attribute::SeriesNumber.spec_tag());
    let all = planned_errors(dcm, e, existing);
    assert forall|i: int| 0 <= i < all.len() implies exists|a: Attribute|
        is_record_only(a) && a.spec_tag() == (#[trigger] all[i]).tag by {
        let age = text_errors(dcm, Attribute::PatientAge.spec_tag());
        let sex = text_errors(dcm, Attribute::PatientSex.spec_tag());
        let title = text_errors(dcm, Attribute::PerformedStationAETitle.spec_tag());
        let modality = text_errors(dcm, Attribute::Modality.spec_tag());
        let date = text_errors(dcm, Attribute::SeriesDate.spec_tag());
        let t = all[i].tag;
        assert(t == Attribute::PatientAge.spec_tag() || t == Attribute::PatientSex.spec_tag() || t
            == Attribute::PerformedStationAETitle.spec_tag() || t
            == Attribute::Modality.spec_tag() || t == Attribute::SeriesDate.spec_tag());
        if t == Attribute::PatientAge.spec_tag() {
            assert(is_record_only(Attribute::PatientAge));
        } else if t == Attribute::PatientSex.spec_tag() {
            assert(is_record_only(Attribute::PatientSex));
        } else if t == Attribute::PerformedStationAETitle.spec_tag() {
            assert(is_record_only(Attribute::PerformedStationAETitle));
        } else if t == Attribute::Modality.spec_tag() {
            assert(is_record_only(Attribute::Modality));
        } else {
            assert(is_record_only(Attribute::SeriesDate));
        }
    }
    assert forall|i: int, a: Attribute|
        0 <= i < all.len() && (is_optional(a) || is_required(a)) implies (#[trigger] all[i]).tag
        != #[trigger] a.spec_tag() by {
        let b = choose|b: Attribute| is_record_only(b) && b.spec_tag() == all[i].tag;
        assert(b.spec_tag() != a.spec_tag());
    }
}

/// Where every attribute that is read for records alone can be rendered,
/// making the records meets no error at all.
pub proof fn lemma_no_record_errors(
    dcm: DicomObject,
    e: CommonElementsView,
    existing: ExistingLogsView,
)
    requires
        required_failure(dcm) is None,
        forall|a: Attribute| is_record_only(a) ==> (#[trigger] dcm.text_at(a.spec_tag())) is Ok,
    ensures
        planned_errors(dcm, e, existing) == Seq::<DicomTagAndError>::empty(),
{
    assert(failure_at(dcm, Attribute::SeriesNumber) is None);
    lemma_string_has_text(dcm, Attribute::SeriesNumber.spec_tag());
    assert(is_record_only(Attribute::PatientAge));
    assert(is_record_only(Attribute::PatientSex));
    assert(is_record_only(Attribute::PerformedStationAETitle));
    assert(is_record_only(Attribute::Modality));
    assert(is_record_only(Attribute::SeriesDate));
    assert(planned_errors(dcm, e, existing) =~= Seq::<DicomTagAndError>::empty());
}


} // verus!
