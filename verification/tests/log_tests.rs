use rx_repack::dicom_data::{
    Attribute, CommonElements, DicomObject, DicomTagAndError, DicomTagError, Element,
    ElementValue, MaybeU32, PrimitiveValue, TagExtractor,
};
use rx_repack::log_models::{
    series_pack, InstanceData, PatientData, SeriesDataMeta, StudyDataMeta, StudyList,
};
use rx_repack::log_write::{log_paths, write_logs, ExistingLogs, LogRecord, PatientLog};
use rx_repack::pack_path::PypxPath;

fn text_element(a: Attribute, value: &str) -> Element {
    Element {
        tag: a.tag(),
        vr: "LO".to_string(),
        value: ElementValue::Primitive(PrimitiveValue::Strs {
            items: vec![value.to_string()],
            text: value.to_string(),
        }),
    }
}

fn complete() -> Vec<Element> {
    vec![
        text_element(Attribute::SOPInstanceUID, "9.9.9"),
        text_element(Attribute::StudyDate, "20230101"),
        text_element(Attribute::SeriesDate, "20230102"),
        text_element(Attribute::AccessionNumber, "ACC1"),
        text_element(Attribute::Modality, "MR"),
        text_element(Attribute::StudyDescription, "Brain MRI"),
        text_element(Attribute::SeriesDescription, "T1"),
        text_element(Attribute::PatientName, "DOE^JOHN"),
        text_element(Attribute::PatientID, "MRN100"),
        text_element(Attribute::PatientBirthDate, "19700101"),
        text_element(Attribute::PatientSex, "M"),
        text_element(Attribute::PatientAge, "053Y"),
        text_element(Attribute::StudyInstanceUID, "1.2"),
        text_element(Attribute::SeriesInstanceUID, "1.2.3"),
        text_element(Attribute::SeriesNumber, "3"),
        text_element(Attribute::InstanceNumber, "7"),
        text_element(Attribute::PerformedStationAETitle, "SCANNER1"),
    ]
}

fn without(elements: Vec<Element>, a: Attribute) -> Vec<Element> {
    elements.into_iter().filter(|e| e.tag != a.tag()).collect()
}

fn project(dcm: &DicomObject) -> CommonElements {
    let mut errors = Vec::new();
    CommonElements::try_from(dcm, &mut errors).unwrap()
}

fn nothing_exists() -> ExistingLogs {
    ExistingLogs {
        patient: None,
        study_series_meta: false,
        study_meta: false,
        series_meta: false,
        pack: false,
    }
}

fn sorted(mut items: Vec<String>) -> Vec<String> {
    items.sort();
    items
}

fn access(a: Attribute) -> DicomTagAndError {
    DicomTagAndError { tag: a.tag(), error: DicomTagError::Access }
}

fn kinds(writes: &[rx_repack::log_write::LogWrite]) -> Vec<&'static str> {
    writes
        .iter()
        .map(|w| match &w.record {
            LogRecord::Patient(_) => "patient",
            LogRecord::StudySeriesMeta { .. } => "study-series-meta",
            LogRecord::StudyMeta { .. } => "study-meta",
            LogRecord::SeriesMeta(_) => "series-meta",
            LogRecord::Instance { .. } => "instance",
            LogRecord::SeriesPack(_) => "pack",
        })
        .collect()
}

#[test]
fn study_list_is_a_set() {
    let mut list = StudyList::new();
    assert!(list.items().is_empty());
    assert!(list.insert("1.2".to_string()));
    assert!(!list.insert("1.2".to_string()));
    assert!(list.insert("1.3".to_string()));
    assert!(!list.insert("1.2".to_string()));
    assert_eq!(sorted(list.items()), vec!["1.2", "1.3"]);
    let from = StudyList::from_items(&vec![
        "b".to_string(),
        "a".to_string(),
        "b".to_string(),
        "a".to_string(),
    ]);
    assert_eq!(sorted(from.items()), vec!["a", "b"]);
    assert!(StudyList::from_items(&vec![]).items().is_empty());
}

#[test]
fn patient_record_is_made_of_fields_and_tags() {
    let dcm = DicomObject { elements: without(complete(), Attribute::PatientAge) };
    let fields = project(&dcm);
    let mut d = TagExtractor::new(&dcm);
    let record = PatientData::new(&mut d, &fields);
    assert_eq!(record.PatientID, "MRN100");
    assert_eq!(record.PatientName, "DOE^JOHN");
    assert_eq!(record.PatientAge, "Not defined");
    assert_eq!(record.PatientSex, "M");
    assert_eq!(record.PatientBirthDate, "19700101");
    assert!(record.StudyList.items().is_empty());
    assert_eq!(d.errors, vec![access(Attribute::PatientAge)]);
}

#[test]
fn study_record_is_made_of_fields_and_tags() {
    let dcm = DicomObject { elements: complete() };
    let fields = project(&dcm);
    let mut d = TagExtractor::new(&dcm);
    let record = StudyDataMeta::new(&mut d, &fields);
    assert_eq!(record.PatientID, "MRN100");
    assert_eq!(record.StudyDescription, "Brain MRI");
    assert_eq!(record.StudyDate, "20230101");
    assert_eq!(record.StudyInstanceUID, "1.2");
    assert_eq!(record.PerformedStationAETitle, "SCANNER1");
    assert!(d.errors.is_empty());

    let dcm = DicomObject { elements: without(complete(), Attribute::PerformedStationAETitle) };
    let mut d = TagExtractor::new(&dcm);
    let record = StudyDataMeta::new(&mut d, &fields);
    assert_eq!(record.PerformedStationAETitle, "Not defined");
    assert_eq!(d.errors, vec![access(Attribute::PerformedStationAETitle)]);
}

#[test]
fn series_record_is_made_of_fields_and_tags() {
    let dcm = DicomObject { elements: complete() };
    let fields = project(&dcm);
    let mut d = TagExtractor::new(&dcm);
    let record = SeriesDataMeta::new(&mut d, &fields);
    assert_eq!(record.PatientID, "MRN100");
    assert_eq!(record.StudyInstanceUID, "1.2");
    assert_eq!(record.SeriesInstanceUID, "1.2.3");
    assert_eq!(record.SeriesDescription, "T1");
    assert!(matches!(record.SeriesNumber, MaybeU32::U32(3)));
    assert_eq!(record.SeriesDate, "20230101");
    assert_eq!(record.Modality, "MR");
    assert!(d.errors.is_empty());
}

#[test]
fn instance_record_is_made_of_fields_and_tags() {
    let dcm = DicomObject { elements: without(complete(), Attribute::SeriesDate) };
    let fields = project(&dcm);
    let mut d = TagExtractor::new(&dcm);
    let record = InstanceData::new(&mut d, &fields, "0007-9.9.9.dcm", "/data/x/0007-9.9.9.dcm");
    assert_eq!(record.PatientID, "MRN100");
    assert_eq!(record.StudyInstanceUID, "1.2");
    assert_eq!(record.SeriesInstanceUID, "1.2.3");
    assert_eq!(record.SeriesDescription, "T1");
    assert!(matches!(record.SeriesNumber, MaybeU32::U32(3)));
    assert_eq!(record.SeriesDate, "Not defined");
    assert_eq!(record.Modality, "MR");
    assert_eq!(record.outputFile, "0007-9.9.9.dcm");
    assert_eq!(record.imageObj.FSlocation, "/data/x/0007-9.9.9.dcm");
    assert_eq!(d.errors, vec![access(Attribute::SeriesDate)]);
}

#[test]
fn stored_file_stands_under_the_name_of_the_output_file() {
    let dcm = DicomObject { elements: complete() };
    let fields = project(&dcm);
    let mut d = TagExtractor::new(&dcm);
    let record = InstanceData::new(&mut d, &fields, "0007-9.9.9.dcm", "/data/x/0007-9.9.9.dcm");
    let (key, stat) = record.image_obj();
    assert_eq!(key, "0007-9.9.9.dcm");
    assert_eq!(key, record.outputFile);
    assert_eq!(stat.FSlocation, "/data/x/0007-9.9.9.dcm");
}

#[test]
fn records_take_from_the_fields_what_the_projection_has_read() {
    let mut elements = without(complete(), Attribute::PatientName);
    elements = without(elements, Attribute::SeriesDescription);
    let dcm = DicomObject { elements };
    let mut errors = Vec::new();
    let fields = CommonElements::try_from(&dcm, &mut errors).unwrap();
    assert_eq!(errors.len(), 2);
    let mut d = TagExtractor::new(&dcm);
    let patient = PatientData::new(&mut d, &fields);
    assert_eq!(patient.PatientName, "PatientName");
    let instance = InstanceData::new(&mut d, &fields, "f.dcm", "/data/f.dcm");
    assert_eq!(instance.SeriesDescription, "SeriesDescription");
    let series = SeriesDataMeta::new(&mut d, &fields);
    assert_eq!(series.SeriesDescription, "SeriesDescription");
    assert!(d.errors.is_empty());
}

#[test]
fn absent_fields_are_not_recorded_again_when_records_are_made() {
    let mut elements = without(complete(), Attribute::PatientName);
    elements = without(elements, Attribute::SeriesDescription);
    let dcm = DicomObject { elements };
    let fields = project(&dcm);
    let unpack = PypxPath::new(&fields, "/data");
    let (writes, errors) = write_logs(&dcm, &fields, &unpack, "/log", nothing_exists());
    assert!(errors.is_empty());
    assert_eq!(writes.len(), 6);
}

#[test]
fn series_marker_is_set() {
    assert!(series_pack().seriesPack);
}

#[test]
fn log_files_are_laid_out_by_patient_study_and_series() {
    let dcm = DicomObject { elements: complete() };
    let fields = project(&dcm);
    let unpack = PypxPath::new(&fields, "/data");
    let paths = log_paths(&fields, &unpack, "/log");
    assert_eq!(paths.patient, "/log/patientData/MRN100.json");
    assert_eq!(paths.study_series_meta, "/log/studyData/1.2-series/1.2.3-meta.json");
    assert_eq!(paths.study_meta, "/log/studyData/1.2-meta.json");
    assert_eq!(paths.series_meta, "/log/seriesData/1.2.3-meta.json");
    assert_eq!(paths.instance, "/log/seriesData/1.2.3-img/0007-9.9.9.dcm.json");
    assert_eq!(paths.pack, "/log/seriesData/1.2.3-pack.json");
}

#[test]
fn everything_is_written_for_the_first_instance() {
    let dcm = DicomObject { elements: complete() };
    let fields = project(&dcm);
    let unpack = PypxPath::new(&fields, "/data");
    let (writes, errors) = write_logs(&dcm, &fields, &unpack, "/log", nothing_exists());
    assert!(errors.is_empty());
    assert_eq!(
        kinds(&writes),
        vec!["patient", "study-series-meta", "study-meta", "series-meta", "instance", "pack"]
    );
    let paths = log_paths(&fields, &unpack, "/log");
    let written: Vec<String> = writes.iter().map(|w| w.path.clone()).collect();
    assert_eq!(
        written,
        vec![
            paths.patient,
            paths.study_series_meta,
            paths.study_meta,
            paths.series_meta,
            paths.instance,
            paths.pack
        ]
    );
    for write in writes {
        match write.record {
            LogRecord::Patient(log) => {
                let mut entries = log.into_entries();
                assert_eq!(entries.len(), 1);
                let (key, record) = entries.pop().unwrap();
                assert_eq!(key, "MRN100");
                assert_eq!(record.PatientID, "MRN100");
                assert_eq!(record.PatientName, "DOE^JOHN");
                assert_eq!(record.PatientAge, "053Y");
                assert_eq!(record.PatientSex, "M");
                assert_eq!(record.StudyList.items(), vec!["1.2"]);
            }
            LogRecord::StudySeriesMeta { study, record } => {
                assert_eq!(study, "1.2");
                assert_eq!(record.SeriesInstanceUID, "1.2.3");
                assert_eq!(record.SeriesBaseDir, unpack.dir);
                assert_eq!(record.DICOM.entries().len(), 17);
            }
            LogRecord::StudyMeta { study, record } => {
                assert_eq!(study, "1.2");
                assert_eq!(record.StudyInstanceUID, "1.2");
                assert_eq!(record.PerformedStationAETitle, "SCANNER1");
            }
            LogRecord::SeriesMeta(record) => {
                assert_eq!(record.SeriesInstanceUID, "1.2.3");
                assert_eq!(record.Modality, "MR");
            }
            LogRecord::Instance { series, record } => {
                assert_eq!(series, "1.2.3");
                assert_eq!(record.outputFile, unpack.fname);
                assert_eq!(record.imageObj.FSlocation, unpack.path);
                assert_eq!(record.SeriesDate, "20230102");
            }
            LogRecord::SeriesPack(marker) => assert!(marker.seriesPack),
        }
    }
}

#[test]
fn records_that_exist_are_not_written_again() {
    let dcm = DicomObject { elements: complete() };
    let fields = project(&dcm);
    let unpack = PypxPath::new(&fields, "/data");
    let (first, _) = write_logs(&dcm, &fields, &unpack, "/log", nothing_exists());
    let log = match first.into_iter().next().unwrap().record {
        LogRecord::Patient(log) => log,
        _ => panic!("the log of the patient comes first"),
    };
    let existing = ExistingLogs {
        patient: Some(log),
        study_series_meta: true,
        study_meta: true,
        series_meta: true,
        pack: true,
    };
    let (second, errors) = write_logs(&dcm, &fields, &unpack, "/log", existing);
    assert!(errors.is_empty());
    assert_eq!(kinds(&second), vec!["patient", "instance"]);
    match second.into_iter().next().unwrap().record {
        LogRecord::Patient(log) => {
            let mut entries = log.into_entries();
            assert_eq!(entries.len(), 1);
            let (key, record) = entries.pop().unwrap();
            assert_eq!(key, "MRN100");
            assert_eq!(record.StudyList.items(), vec!["1.2"]);
        }
        _ => panic!("the log of the patient comes first"),
    }
}

#[test]
fn each_write_once_record_is_guarded_on_its_own() {
    let dcm = DicomObject { elements: complete() };
    let fields = project(&dcm);
    let unpack = PypxPath::new(&fields, "/data");
    let mut existing = nothing_exists();
    existing.study_meta = true;
    existing.pack = true;
    let (writes, _) = write_logs(&dcm, &fields, &unpack, "/log", existing);
    assert_eq!(kinds(&writes), vec!["patient", "study-series-meta", "series-meta", "instance"]);
    let mut existing = nothing_exists();
    existing.study_series_meta = true;
    existing.series_meta = true;
    let (writes, _) = write_logs(&dcm, &fields, &unpack, "/log", existing);
    assert_eq!(kinds(&writes), vec!["patient", "study-meta", "instance", "pack"]);
}

#[test]
fn another_study_is_added_to_the_record_of_the_patient() {
    let dcm = DicomObject { elements: complete() };
    let fields = project(&dcm);
    let unpack = PypxPath::new(&fields, "/data");
    let mut log = PatientLog::new();
    let mut d = TagExtractor::new(&dcm);
    let mut known = PatientData::new(&mut d, &fields);
    known.PatientName = "NAME ON FILE".to_string();
    known.StudyList.insert("0.9".to_string());
    log.insert("MRN100".to_string(), known);
    let mut other = PatientData::new(&mut d, &fields);
    other.PatientID = "MRN200".to_string();
    log.insert("MRN200".to_string(), other);
    let mut existing = nothing_exists();
    existing.patient = Some(log);
    let (writes, errors) = write_logs(&dcm, &fields, &unpack, "/log", existing);
    assert!(errors.is_empty());
    match writes.into_iter().next().unwrap().record {
        LogRecord::Patient(log) => {
            let mut entries = log.into_entries();
            entries.sort_by(|a, b| a.0.cmp(&b.0));
            assert_eq!(entries.len(), 2);
            assert_eq!(entries[0].0, "MRN100");
            assert_eq!(entries[0].1.PatientName, "NAME ON FILE");
            assert_eq!(sorted(entries[0].1.StudyList.items()), vec!["0.9", "1.2"]);
            assert_eq!(entries[1].0, "MRN200");
            assert!(entries[1].1.StudyList.items().is_empty());
        }
        _ => panic!("the log of the patient comes first"),
    }
}

#[test]
fn errors_are_met_only_for_records_that_are_made() {
    let mut elements = without(complete(), Attribute::PatientSex);
    elements = without(elements, Attribute::PerformedStationAETitle);
    elements = without(elements, Attribute::Modality);
    let dcm = DicomObject { elements };
    let fields = project(&dcm);
    let unpack = PypxPath::new(&fields, "/data");
    let (_, errors) = write_logs(&dcm, &fields, &unpack, "/log", nothing_exists());
    assert_eq!(
        errors,
        vec![
            access(Attribute::PatientSex),
            access(Attribute::PerformedStationAETitle),
            access(Attribute::Modality),
            access(Attribute::Modality),
        ]
    );
    let mut log = PatientLog::new();
    let mut d = TagExtractor::new(&dcm);
    log.insert("MRN100".to_string(), PatientData::new(&mut d, &fields));
    let existing = ExistingLogs {
        patient: Some(log),
        study_series_meta: true,
        study_meta: true,
        series_meta: true,
        pack: true,
    };
    let (_, errors) = write_logs(&dcm, &fields, &unpack, "/log", existing);
    assert_eq!(errors, vec![access(Attribute::Modality)]);
}

#[test]
fn patient_log_holds_one_record_per_patient() {
    let dcm = DicomObject { elements: complete() };
    let fields = project(&dcm);
    let mut d = TagExtractor::new(&dcm);
    let mut log = PatientLog::new();
    log.add_study("MRN100", PatientData::new(&mut d, &fields), "1.2".to_string());
    let mut fresh = PatientData::new(&mut d, &fields);
    fresh.PatientName = "IGNORED".to_string();
    log.add_study("MRN100", fresh, "1.2".to_string());
    log.add_study("MRN100", PatientData::new(&mut d, &fields), "1.3".to_string());
    let mut replaced = PatientData::new(&mut d, &fields);
    replaced.PatientSex = "F".to_string();
    log.insert("MRN300".to_string(), PatientData::new(&mut d, &fields));
    log.insert("MRN300".to_string(), replaced);
    let mut entries = log.into_entries();
    entries.sort_by(|a, b| a.0.cmp(&b.0));
    assert_eq!(entries.len(), 2);
    assert_eq!(entries[0].0, "MRN100");
    assert_eq!(entries[0].1.PatientName, "DOE^JOHN");
    assert_eq!(sorted(entries[0].1.StudyList.items()), vec!["1.2", "1.3"]);
    assert_eq!(entries[1].0, "MRN300");
    assert_eq!(entries[1].1.PatientSex, "F");
    assert!(PatientLog::new().into_entries().is_empty());
}
