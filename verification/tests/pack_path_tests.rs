use rx_repack::dicom_data::{CommonElements, MaybeU32};
use rx_repack::pack_path::{hash, take_prefix, PypxPath};

const EXPECTED: &str = "a27cf06";
const EXAMPLE_UID: &str = "1.3.12.2.1107.5.2.19.45152.2013030808061520200285270.0.0.0";

fn example_fields() -> CommonElements {
    CommonElements {
        InstanceNumber: "7".to_string(),
        SOPInstanceUID: "9.9.9".to_string(),
        PatientID: "MRN100".to_string(),
        PatientName: "DOE^JOHN".to_string(),
        PatientBirthDate: "19700101".to_string(),
        StudyDescription: "Brain MRI".to_string(),
        AccessionNumber: "ACC1".to_string(),
        StudyDate: "20230101".to_string(),
        SeriesNumber: MaybeU32::U32(3),
        SeriesDescription: "T1".to_string(),
        StudyInstanceUID: "1.2".to_string(),
        SeriesInstanceUID: "1.2.3".to_string(),
    }
}

#[test]
fn test_seahash_stability() {
    assert!(
        hash(EXAMPLE_UID).starts_with(EXPECTED),
        "Hash algorithm was changed from what was originally used by Jennings on 2023-08-06"
    )
}

#[test]
fn hash_is_the_lower_hex_of_seahash() {
    for text in ["", "1.2.3", EXAMPLE_UID, "series \u{e9}"] {
        assert_eq!(hash(text), format!("{:x}", seahash::hash(text.as_bytes())));
    }
}

#[test]
fn example_instance_resolves_to_expected_path() {
    let fields = example_fields();
    let resolved = PypxPath::new(&fields, "/data");
    let hash7 = take_prefix(&format!("{:x}", seahash::hash(b"1.2.3")), 7);
    assert_eq!(hash7.len(), 7);
    let dir = format!(
        "/data/MRN100-DOE_JOHN-19700101/Brain_MRI-ACC1-20230101/00003-T1-{}",
        hash7
    );
    assert_eq!(resolved.fname, "0007-9.9.9.dcm");
    assert_eq!(resolved.dir, dir);
    assert_eq!(resolved.path, format!("{}/0007-9.9.9.dcm", dir));
}

fn hash7(uid: &str) -> String {
    let hex = format!("{:x}", seahash::hash(uid.as_bytes()));
    hex.chars().take(7).collect()
}

#[test]
fn same_fields_resolve_to_the_same_path() {
    let a = PypxPath::new(&example_fields(), "/data");
    let b = PypxPath::new(&example_fields(), "/data");
    assert_eq!(a.path, b.path);
    assert_eq!(a.dir, b.dir);
    assert_eq!(a.fname, b.fname);
}

#[test]
fn path_is_joined_as_camino_joins() {
    let fields = example_fields();
    for data_dir in ["/data", "/data/", "relative/dir", "", "/"] {
        let resolved = PypxPath::new(&fields, data_dir);
        let dir = camino::Utf8Path::new(data_dir)
            .join("MRN100-DOE_JOHN-19700101")
            .join("Brain_MRI-ACC1-20230101")
            .join(format!("00003-T1-{}", hash7("1.2.3")));
        assert_eq!(resolved.dir, dir.as_str());
        assert_eq!(resolved.path, dir.join("0007-9.9.9.dcm").as_str());
        assert_ne!(resolved.path, resolved.dir);
        assert_ne!(resolved.dir, data_dir);
    }
}

#[test]
fn numeric_series_numbers_are_padded_to_five_digits() {
    for (n, text) in [(0u32, "00000"), (3, "00003"), (42, "00042"), (99999, "99999"), (100000, "100000")] {
        let mut fields = example_fields();
        fields.SeriesNumber = MaybeU32::U32(n);
        let resolved = PypxPath::new(&fields, "/data");
        let series = resolved.dir.rsplit('/').next().unwrap().to_string();
        assert_eq!(series, format!("{}-T1-{}", text, hash7("1.2.3")));
    }
}

#[test]
fn series_number_that_is_text_is_not_padded() {
    let mut fields = example_fields();
    fields.SeriesNumber = MaybeU32::Str("3A".to_string());
    let resolved = PypxPath::new(&fields, "/data");
    let series = resolved.dir.rsplit('/').next().unwrap().to_string();
    assert_eq!(series, format!("3A-T1-{}", hash7("1.2.3")));
}

#[test]
fn instance_numbers_are_padded_to_four_digits() {
    for (number, name) in [
        ("0", "0000-9.9.9.dcm"),
        ("7", "0007-9.9.9.dcm"),
        ("07", "0007-9.9.9.dcm"),
        ("007", "0007-9.9.9.dcm"),
        ("0007", "0007-9.9.9.dcm"),
        ("00007", "00007-9.9.9.dcm"),
        ("42", "0042-9.9.9.dcm"),
        ("9999", "9999-9.9.9.dcm"),
        ("12345", "12345-9.9.9.dcm"),
        ("InstanceNumber", "InstanceNumber-9.9.9.dcm"),
        ("", "0000-9.9.9.dcm"),
    ] {
        let mut fields = example_fields();
        fields.InstanceNumber = number.to_string();
        assert_eq!(PypxPath::new(&fields, "/data").fname, name);
    }
}

#[test]
fn placeholder_of_a_missing_name_stands_in_the_patient_directory() {
    let mut fields = example_fields();
    fields.PatientName = "PatientName".to_string();
    let resolved = PypxPath::new(&fields, "/data");
    assert!(resolved.dir.starts_with("/data/MRN100-PatientName-19700101/"));
}

#[test]
fn separators_in_values_do_not_reach_the_path() {
    let mut fields = example_fields();
    fields.PatientID = "../../etc".to_string();
    fields.StudyDescription = "a/b\\c".to_string();
    fields.SOPInstanceUID = "1/2\0".to_string();
    let resolved = PypxPath::new(&fields, "/data");
    assert_eq!(
        resolved.dir,
        format!(
            "/data/.._.._etc-DOE_JOHN-19700101/a_b_c-ACC1-20230101/00003-T1-{}",
            hash7("1.2.3")
        )
    );
    assert_eq!(resolved.fname, "0007-1_2.dcm");
}

#[test]
fn series_with_one_number_and_description_differ_by_their_hash() {
    let a = example_fields();
    let mut b = example_fields();
    b.SeriesInstanceUID = "1.2.4".to_string();
    assert_ne!(hash7("1.2.3"), hash7("1.2.4"));
    assert_ne!(PypxPath::new(&a, "/data").dir, PypxPath::new(&b, "/data").dir);
}

#[test]
fn take_prefix_takes_at_most_n_characters() {
    assert_eq!(take_prefix("a27cf06b9d", 7), "a27cf06");
    assert_eq!(take_prefix("abc", 7), "abc");
    assert_eq!(take_prefix("abcdefg", 7), "abcdefg");
    assert_eq!(take_prefix("", 7), "");
    assert_eq!(take_prefix("abc", 0), "");
    assert_eq!(take_prefix("\u{e9}\u{e9}\u{e9}", 2), "\u{e9}\u{e9}");
}
