use dicom::dictionary_std::tags;
use dicom::object::mem::{InMemDicomObject, InMemElement};
use rx_repack::dicom_data::{
    tt, CommonElements, DicomObject, DicomTagError, Element, ElementValue, MaybeU32,
    NestedElement, PrimitiveValue as Primitive, Tag, TagExtractor,
};
use rx_repack::serialize_seriesmeta::StudyDataSeriesMeta;

type DataElement = dicom::core::DataElement<InMemDicomObject, dicom::object::mem::InMemFragment>;
type DataSetSequence = dicom::core::value::DataSetSequence<InMemDicomObject>;
type PixelFragmentSequence =
    dicom::core::value::PixelFragmentSequence<dicom::object::mem::InMemFragment>;
type PrimitiveValue = dicom::core::value::PrimitiveValue;
type Value = dicom::core::value::Value<InMemDicomObject, dicom::object::mem::InMemFragment>;
type VR = dicom::core::VR;

fn convert(dcm: &InMemDicomObject) -> DicomObject {
    DicomObject {
        elements: dcm.iter().map(convert_element).collect(),
    }
}

fn convert_tag(tag: dicom::core::Tag) -> Tag {
    Tag(tag.0, tag.1)
}

fn convert_element(ele: &InMemElement) -> Element {
    let value = match ele.value() {
        Value::Primitive(value) => ElementValue::Primitive(convert_primitive(value)),
        Value::Sequence(seq) => {
            ElementValue::Sequence(seq.items().iter().map(convert_data_set).collect())
        }
        Value::PixelSequence(_) => ElementValue::PixelSequence,
    };
    Element {
        tag: convert_tag(ele.header().tag),
        vr: ele.vr().to_string().to_owned(),
        value,
    }
}

fn convert_data_set(dcm: &InMemDicomObject) -> Vec<NestedElement> {
    dcm.iter()
        .map(|ele| NestedElement {
            tag: convert_tag(ele.header().tag),
            vr: ele.vr().to_string().to_owned(),
            text: ele.to_str().ok().map(|text| text.to_string()),
        })
        .collect()
}

fn rendered<T: std::fmt::Display>(numbers: &[T]) -> Vec<String> {
    numbers.iter().map(|n| n.to_string()).collect()
}

fn convert_primitive(value: &PrimitiveValue) -> Primitive {
    let text = value.to_str().to_string();
    let numbers = match value {
        PrimitiveValue::Str(s) => {
            return Primitive::Strs {
                items: vec![s.clone()],
                text,
            }
        }
        PrimitiveValue::Strs(strs) => {
            return Primitive::Strs {
                items: strs.to_vec(),
                text,
            }
        }
        PrimitiveValue::U8(nums) => rendered(nums),
        PrimitiveValue::I16(nums) => rendered(nums),
        PrimitiveValue::U16(nums) => rendered(nums),
        PrimitiveValue::I32(nums) => rendered(nums),
        PrimitiveValue::U32(nums) => rendered(nums),
        PrimitiveValue::I64(nums) => rendered(nums),
        PrimitiveValue::U64(nums) => rendered(nums),
        PrimitiveValue::F32(nums) => rendered(nums),
        PrimitiveValue::F64(nums) => rendered(nums),
        _ => return Primitive::Other { text },
    };
    Primitive::Numbers { numbers, text }
}

fn text(tag: dicom::core::Tag, vr: VR, value: &str) -> InMemElement {
    DataElement::new(tag, vr, PrimitiveValue::from(value))
}

fn texts(tag: dicom::core::Tag, vr: VR, values: &[&str]) -> InMemElement {
    let strs: Vec<String> = values.iter().map(|s| s.to_string()).collect();
    DataElement::new(tag, vr, PrimitiveValue::Strs(strs.into()))
}

fn example() -> InMemDicomObject {
    let step = InMemDicomObject::from_element_iter([
        text(tags::SCHEDULED_PROCEDURE_STEP_DESCRIPTION, VR::LO, "MR Brain"),
        text(tags::SCHEDULED_PROCEDURE_STEP_ID, VR::SH, "4101374"),
    ]);
    InMemDicomObject::from_element_iter([
        text(tags::SOP_INSTANCE_UID, VR::UI, "9.9.9\0"),
        texts(tags::IMAGE_TYPE, VR::CS, &["ORIGINAL", "PRIMARY"]),
        text(tags::STUDY_DATE, VR::DA, "20230101"),
        text(tags::ACCESSION_NUMBER, VR::SH, "ACC1 "),
        text(tags::MODALITY, VR::CS, "MR"),
        text(tags::STUDY_DESCRIPTION, VR::LO, "Brain MRI"),
        text(tags::SERIES_DESCRIPTION, VR::LO, " T1 "),
        text(tags::PATIENT_NAME, VR::PN, "DOE^JOHN"),
        text(tags::PATIENT_ID, VR::LO, "MRN100"),
        text(tags::PATIENT_BIRTH_DATE, VR::DA, "19700101"),
        DataElement::new(tags::PATIENT_AGE, VR::AS, PrimitiveValue::Empty),
        text(tags::STUDY_INSTANCE_UID, VR::UI, "1.2"),
        text(tags::SERIES_INSTANCE_UID, VR::UI, "1.2.3"),
        text(tags::SERIES_NUMBER, VR::IS, "3"),
        text(tags::INSTANCE_NUMBER, VR::IS, "7 "),
        texts(tags::IMAGE_POSITION_PATIENT, VR::DS, &["-124.5", "0.25", "3"]),
        DataElement::new(tags::ROWS, VR::US, PrimitiveValue::from(512u16)),
        DataElement::new(
            tags::SMALLEST_IMAGE_PIXEL_VALUE,
            VR::US,
            PrimitiveValue::U16(vec![1u16, 2, 3].into()),
        ),
        DataElement::new(
            tags::REQUEST_ATTRIBUTES_SEQUENCE,
            VR::SQ,
            Value::from(DataSetSequence::from(vec![step])),
        ),
        DataElement::new(
            tags::PIXEL_DATA,
            VR::OB,
            Value::PixelSequence(PixelFragmentSequence::new_fragments(vec![vec![0u8, 1]])),
        ),
    ])
}

fn dicom_string(dcm: &InMemDicomObject, tag: dicom::core::Tag) -> Option<String> {
    dcm.element(tag)
        .ok()
        .and_then(|e| e.string().ok().map(|s| s.trim().to_string()))
}

#[test]
fn strings_are_read_as_the_decoder_reads_them() {
    let decoded = example();
    let dcm = convert(&decoded);
    let all = [
        tags::SOP_INSTANCE_UID,
        tags::IMAGE_TYPE,
        tags::ACCESSION_NUMBER,
        tags::SERIES_DESCRIPTION,
        tags::PATIENT_AGE,
        tags::PATIENT_SEX,
        tags::INSTANCE_NUMBER,
        tags::ROWS,
        tags::REQUEST_ATTRIBUTES_SEQUENCE,
        tags::PIXEL_DATA,
    ];
    for tag in all {
        assert_eq!(tt(&dcm, convert_tag(tag)).ok(), dicom_string(&decoded, tag), "{}", tag);
    }
    assert_eq!(tt(&dcm, convert_tag(tags::IMAGE_TYPE)), Ok("ORIGINAL".to_string()));
    assert_eq!(tt(&dcm, convert_tag(tags::PATIENT_SEX)), Err(DicomTagError::Access));
    assert_eq!(tt(&dcm, convert_tag(tags::PATIENT_AGE)), Err(DicomTagError::CastValue));
    assert_eq!(tt(&dcm, convert_tag(tags::ROWS)), Err(DicomTagError::CastValue));
    assert_eq!(tt(&dcm, convert_tag(tags::PIXEL_DATA)), Err(DicomTagError::CastValue));
}

#[test]
fn values_are_rendered_as_the_decoder_renders_them() {
    let decoded = example();
    let dcm = convert(&decoded);
    let mut d = TagExtractor::new(&dcm);
    let all = [
        tags::SOP_INSTANCE_UID,
        tags::IMAGE_TYPE,
        tags::ACCESSION_NUMBER,
        tags::PATIENT_AGE,
        tags::ROWS,
        tags::SMALLEST_IMAGE_PIXEL_VALUE,
        tags::IMAGE_POSITION_PATIENT,
    ];
    for tag in all {
        let expected = decoded.element(tag).unwrap().to_str().unwrap().to_string();
        assert_eq!(d.get(convert_tag(tag)), expected, "{}", tag);
    }
    assert!(d.errors.is_empty());
    assert_eq!(d.get(convert_tag(tags::REQUEST_ATTRIBUTES_SEQUENCE)), "Not defined");
    assert_eq!(d.get(convert_tag(tags::PIXEL_DATA)), "Not defined");
    assert_eq!(d.get(convert_tag(tags::PATIENT_SEX)), "Not defined");
    let errors: Vec<DicomTagError> = d.errors.iter().map(|e| e.error).collect();
    assert_eq!(
        errors,
        vec![DicomTagError::ConvertValue, DicomTagError::ConvertValue, DicomTagError::Access]
    );
}

#[test]
fn fields_of_a_decoded_data_set() {
    let dcm = convert(&example());
    let mut errors = Vec::new();
    let fields = CommonElements::try_from(&dcm, &mut errors).unwrap();
    assert!(errors.is_empty());
    assert_eq!(fields.SOPInstanceUID, "9.9.9");
    assert_eq!(fields.AccessionNumber, "ACC1");
    assert_eq!(fields.SeriesDescription, "T1");
    assert_eq!(fields.InstanceNumber, "7");
    assert!(matches!(fields.SeriesNumber, MaybeU32::U32(3)));
}

#[test]
fn record_of_a_decoded_series() {
    let dcm = convert(&example());
    let record = StudyDataSeriesMeta::new("1.2.3", "/data/x", &dcm);
    let mut entries = record.DICOM.entries();
    entries.sort_by(|a, b| a.0.cmp(&b.0));
    let found: Vec<(String, String)> =
        entries.into_iter().map(|(key, v)| (key, v.value)).collect();
    let expected = [
        ("AccessionNumber", "ACC1"),
        ("ImagePositionPatient", "[-124.5, 0.25, 3]"),
        ("ImageType", "[\"ORIGINAL\",\"PRIMARY\"]"),
        ("InstanceNumber", "7"),
        ("Modality", "MR"),
        ("PatientAge", ""),
        ("PatientBirthDate", "19700101"),
        ("PatientID", "MRN100"),
        ("PatientName", "DOE^JOHN"),
        (
            "RequestAttributesSequence",
            "[(0040,0007) ScheduledProcedureStepDescription LO: MR Brain\n\
             (0040,0009) ScheduledProcedureStepID SH: 4101374]",
        ),
        ("Rows", "512"),
        ("SOPInstanceUID", "9.9.9"),
        ("SeriesDescription", " T1"),
        ("SeriesInstanceUID", "1.2.3"),
        ("SeriesNumber", "3"),
        ("SmallestImagePixelValue", "[1, 2, 3]"),
        ("StudyDate", "20230101"),
        ("StudyDescription", "Brain MRI"),
        ("StudyInstanceUID", "1.2"),
    ];
    let expected: Vec<(String, String)> =
        expected.iter().map(|(k, v)| (k.to_string(), v.to_string())).collect();
    assert_eq!(found, expected);
}
