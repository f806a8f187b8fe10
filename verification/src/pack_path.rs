//! Where a received instance is stored: the directory and file name derived
//! from its fields.
use crate::dicom_data::{CommonElements, CommonElementsView, MaybeU32, MaybeU32View};
use crate::helpers::{
    is_kept, lemma_sanitized_around_kept, lemma_sanitized_of_kept, sanitize, sanitized,
};
use crate::numeral::{
    all_decimal_digits, decimal, digits_value, is_decimal_digit, is_hex_digit,
    lemma_decimal_digits, lemma_decimal_len, lemma_decimal_value, lemma_lower_hex_digits,
    lemma_zero_padding_keeps_value, lower_hex, pow10, u32_to_decimal, u64_to_hex,
};
use crate::text::{chars_of, left_padded, pad_left, push_str, string_of};
use vstd::prelude::*;
use vstd::utf8::encode_utf8;

verus! {

/// The SeaHash of a sequence of bytes, with the seed that the `seahash` crate
/// has chosen.
pub uninterp spec fn seahash_of(bytes: Seq<u8>) -> u64;

/// `seahash::hash` computes a hash from the bytes of the buffer alone: it reads
/// nothing else and is the same on every machine.
pub assume_specification[ seahash::hash ](buf: &[u8]) -> (h: u64)
    ensures
        h == seahash_of(buf@),
;

/// What adjoining `part` to the path `base` gives, by the rule of
/// `std::path::Path::join` for the platform that the library is built for.
///
/// On Unix the rule is this: a `part` that begins with `/` takes the place of
/// `base`; any other `part` follows `base`, with a `/` between them unless
/// `base` is empty or ends with one. On Windows drive prefixes and both kinds
/// of separator come in, which is why the result is named here and not
/// written out.
pub uninterp spec fn joined_path(base: Seq<char>, part: Seq<char>) -> Seq<char>;

/// Adjoins `part` to `base` with `camino::Utf8Path::join`, which hands both to
/// `std::path::Path::join`. The result is computed from the two texts alone.
#[verifier::external_body]
pub(crate) fn join_path(base: &str, part: &str) -> (r: String)
    ensures
        r@ == joined_path(base@, part@),
{
    camino::Utf8Path::new(base).join(part).into_string()
}

/// The hash of `data` as a lower-case hexadecimal numeral.
pub open spec fn hash_text(data: Seq<char>) -> Seq<char> {
    lower_hex(seahash_of(encode_utf8(data)) as nat)
}

/// The first `n` characters of `s`, or all of `s` where it has fewer.
pub open spec fn prefix(s: Seq<char>, n: nat) -> Seq<char> {
    if s.len() <= n {
        s
    } else {
        s.take(n as int)
    }
}

/// The number of hexadecimal digits of the series hash that a path holds.
pub const HASH_DIGITS: usize = 7;

/// Width to which a numeric series number is padded with zeros.
pub const SERIES_NUMBER_WIDTH: usize = 5;

/// Width to which the instance number is padded with zeros.
pub const INSTANCE_NUMBER_WIDTH: usize = 4;

/// Three texts with a hyphen between them.
pub open spec fn dashed(a: Seq<char>, b: Seq<char>, c: Seq<char>) -> Seq<char> {
    a + seq!['-'] + b + seq!['-'] + c
}

/// The series number as it stands in a path: a number is padded with zeros
/// to five digits, any other text stands as it is.
pub open spec fn series_number_text(n: MaybeU32View) -> Seq<char> {
    match n {
        MaybeU32View::U32(v) => left_padded(decimal(v as nat), SERIES_NUMBER_WIDTH as nat, '0'),
        MaybeU32View::Str(s) => s,
    }
}

/// The directory of the patient.
pub open spec fn root_segment(f: CommonElementsView) -> Seq<char> {
    sanitized(dashed(f.PatientID, f.PatientName, f.PatientBirthDate))
}

/// The directory of the study, below that of the patient.
pub open spec fn study_segment(f: CommonElementsView) -> Seq<char> {
    sanitized(dashed(f.StudyDescription, f.AccessionNumber, f.StudyDate))
}

/// The directory of the series, below that of the study. The hash digits
/// tell apart series that share a number and a description.
pub open spec fn series_segment(f: CommonElementsView) -> Seq<char> {
    sanitized(
        dashed(
            series_number_text(f.SeriesNumber),
            f.SeriesDescription,
            prefix(hash_text(f.SeriesInstanceUID), HASH_DIGITS as nat),
        ),
    )
}

/// The file name of the instance.
pub open spec fn file_name(f: CommonElementsView) -> Seq<char> {
    sanitized(
        left_padded(f.InstanceNumber, INSTANCE_NUMBER_WIDTH as nat, '0') + seq!['-']
            + f.SOPInstanceUID + ".dcm"@,
    )
}

/// Destination directory and file name of an instance.
#[derive(Debug)]
pub struct PypxPath {
    /// The full path of the file: `dir` with `fname` adjoined.
    pub path: String,
    /// The directory that holds the file: the data directory with the
    /// patient, study and series directories adjoined.
    pub dir: String,
    /// The file name.
    pub fname: String,
}

/// What a [`PypxPath`] holds.
pub struct PypxPathView {
    pub path: Seq<char>,
    pub dir: Seq<char>,
    pub fname: Seq<char>,
}

impl View for PypxPath {
    type V = PypxPathView;

    open spec fn view(&self) -> PypxPathView {
        PypxPathView { path: self.path@, dir: self.dir@, fname: self.fname@ }
    }
}

/// The directory of an instance relative to the data directory.
pub open spec fn relative_dir(f: CommonElementsView) -> Seq<char> {
    joined_path(joined_path(root_segment(f), study_segment(f)), series_segment(f))
}

/// The destination of the instance with the fields `f` under `data_dir`.
pub open spec fn resolved(f: CommonElementsView, data_dir: Seq<char>) -> PypxPathView {
    let dir = joined_path(data_dir, relative_dir(f));
    PypxPathView { path: joined_path(dir, file_name(f)), dir, fname: file_name(f) }
}

/// The hash of `data` as a lower-case hexadecimal numeral.
pub fn hash(data: &str) -> (r: String)
    ensures
        r@ == hash_text(data@),
{
    u64_to_hex(seahash::hash(data.as_bytes()))
}

/// The first `n` characters of `s`, or all of `s` where it has fewer.
pub fn take_prefix(s: &str, n: usize) -> (r: String)
    ensures
        r@ == prefix(s@, n as nat),
{
    let cs = chars_of(s);
    if cs.len() <= n {
        assert(cs@.subrange(0, cs.len() as int) == cs@);
        string_of(&cs, 0, cs.len())
    } else {
        string_of(&cs, 0, n)
    }
}

/// `a`, `b` and `c` with a hyphen between them.
fn dash_join(a: &str, b: &str, c: &str) -> (r: String)
    ensures
        r@ == dashed(a@, b@, c@),
{
    let mut r = String::new();
    push_str(&mut r, a);
    r.push('-');
    push_str(&mut r, b);
    r.push('-');
    push_str(&mut r, c);
    assert(r@ == dashed(a@, b@, c@)) by {
        assert(Seq::<char>::empty() + a@ == a@);
        assert(a@.push('-') == a@ + seq!['-']);
        assert((a@ + seq!['-'] + b@).push('-') == a@ + seq!['-'] + b@ + seq!['-']);
    }
    r
}

impl PypxPath {
    /// Resolves the destination of an instance under `data_dir`.
    ///
    /// The same fields and the same data directory give the same paths.
    pub fn new(dcm: &CommonElements, data_dir: &str) -> (r: Self)
        ensures
            r@ == resolved(dcm@, data_dir@),
    {
        let root_dir = sanitize(
            dash_join(
                dcm.PatientID.as_str(),
                dcm.PatientName.as_str(),
                dcm.PatientBirthDate.as_str(),
            ).as_str(),
        );
        let study_dir = sanitize(
            dash_join(
                dcm.StudyDescription.as_str(),
                dcm.AccessionNumber.as_str(),
                dcm.StudyDate.as_str(),
            ).as_str(),
        );
        let series_number = series_number_in_path(dcm);
        let series_hash = take_prefix(hash(dcm.SeriesInstanceUID.as_str()).as_str(), HASH_DIGITS);
        let series_dir = sanitize(
            dash_join(
                series_number.as_str(),
                dcm.SeriesDescription.as_str(),
                series_hash.as_str(),
            ).as_str(),
        );
        let fname = sanitize(raw_file_name(dcm).as_str());
        let pack_dir_rel = join_path(
            join_path(root_dir.as_str(), study_dir.as_str()).as_str(),
            series_dir.as_str(),
        );
        let dir = join_path(data_dir, pack_dir_rel.as_str());
        let path = join_path(dir.as_str(), fname.as_str());
        Self { path, dir, fname }
    }
}

/// The series number as it stands in a path.
fn series_number_in_path(dcm: &CommonElements) -> (r: String)
    ensures
        r@ == series_number_text(dcm@.SeriesNumber),
{
    match &dcm.SeriesNumber {
        MaybeU32::U32(n) => pad_left(
            u32_to_decimal(*n).as_str(),
            SERIES_NUMBER_WIDTH,
            '0',
        ),
        MaybeU32::Str(s) => s.clone(),
    }
}

/// The file name of an instance before it is sanitized.
fn raw_file_name(dcm: &CommonElements) -> (r: String)
    ensures
        r@ == left_padded(dcm@.InstanceNumber, INSTANCE_NUMBER_WIDTH as nat, '0') + seq!['-']
            + dcm@.SOPInstanceUID + ".dcm"@,
{
    let mut r = pad_left(dcm.InstanceNumber.as_str(), INSTANCE_NUMBER_WIDTH, '0');
    r.push('-');
    push_str(&mut r, dcm.SOPInstanceUID.as_str());
    push_str(&mut r, ".dcm");
    assert(r@ == left_padded(dcm@.InstanceNumber, INSTANCE_NUMBER_WIDTH as nat, '0') + seq!['-']
        + dcm@.SOPInstanceUID + ".dcm"@) by {
        let p = left_padded(dcm@.InstanceNumber, INSTANCE_NUMBER_WIDTH as nat, '0');
        assert(p.push('-') == p + seq!['-']);
    }
    r
}

/// Path determinism: the same fields under the same data directory resolve to
/// the same directory, file name and path, character for character.
pub proof fn lemma_resolved_is_deterministic(
    a: CommonElements,
    b: CommonElements,
    data_dir_a: Seq<char>,
    data_dir_b: Seq<char>,
)
    requires
        a@ == b@,
        data_dir_a == data_dir_b,
    ensures
        resolved(a@, data_dir_a) == resolved(b@, data_dir_b),
{
}

/// Hyphens keep the three parts of a directory name apart: each part is
/// sanitized on its own.
pub proof fn lemma_sanitized_dashed(a: Seq<char>, b: Seq<char>, c: Seq<char>)
    ensures
        sanitized(dashed(a, b, c)) == dashed(sanitized(a), sanitized(b), sanitized(c)),
{
    lemma_sanitized_around_kept(a + seq!['-'] + b, '-', c);
    lemma_sanitized_around_kept(a, '-', b);
}

/// A zero-padded decimal numeral is its own segment.
proof fn lemma_padded_numeral(n: nat, width: nat)
    ensures
        all_decimal_digits(left_padded(decimal(n), width, '0')),
        digits_value(left_padded(decimal(n), width, '0')) == n,
        sanitized(left_padded(decimal(n), width, '0')) == left_padded(decimal(n), width, '0'),
        left_padded(decimal(n), width, '0').len() == if decimal(n).len() >= width {
            decimal(n).len()
        } else {
            width
        },
{
    lemma_decimal_digits(n);
    lemma_decimal_value(n);
    lemma_zero_padding_keeps_value(decimal(n), width);
    let t = left_padded(decimal(n), width, '0');
    assert forall|i: int| 0 <= i < t.len() implies is_kept(#[trigger] t[i]) by {
        assert(is_decimal_digit(t[i]));
    }
    lemma_sanitized_of_kept(t);
}

/// Zero-padding of the series number: a number below 100000 stands in the
/// directory of its series as exactly five decimal digits with the value of
/// the number, followed by a hyphen.
pub proof fn lemma_series_number_padding(f: CommonElementsView, n: u32)
    requires
        f.SeriesNumber == MaybeU32View::U32(n),
        n < 100000,
    ensures
        series_number_text(f.SeriesNumber).len() == 5,
        all_decimal_digits(series_number_text(f.SeriesNumber)),
        digits_value(series_number_text(f.SeriesNumber)) == n,
        series_segment(f).len() > 5,
        series_segment(f).subrange(0, 5) == series_number_text(f.SeriesNumber),
        series_segment(f)[5] == '-',
{
    let t = series_number_text(f.SeriesNumber);
    assert(pow10(5) == 100000) by {
        reveal_with_fuel(pow10, 6);
    }
    lemma_decimal_len(n as nat, 5);
    lemma_padded_numeral(n as nat, 5);
    lemma_sanitized_dashed(t, f.SeriesDescription, prefix(hash_text(f.SeriesInstanceUID), 7));
    let rest = seq!['-'] + sanitized(f.SeriesDescription) + seq!['-'] + sanitized(
        prefix(hash_text(f.SeriesInstanceUID), 7),
    );
    assert(series_segment(f) == t + rest);
    assert((t + rest).subrange(0, 5) == t);
    assert((t + rest)[5] == rest[0]);
}

/// Zero-padding of the instance number: an instance number of at most four
/// decimal digits, such as `7`, `07` or `0007`, stands in the file name as
/// exactly four decimal digits with the same value, followed by a hyphen.
pub proof fn lemma_instance_number_padding(f: CommonElementsView)
    requires
        all_decimal_digits(f.InstanceNumber),
        f.InstanceNumber.len() <= 4,
    ensures
        left_padded(f.InstanceNumber, 4, '0').len() == 4,
        all_decimal_digits(left_padded(f.InstanceNumber, 4, '0')),
        digits_value(left_padded(f.InstanceNumber, 4, '0')) == digits_value(f.InstanceNumber),
        file_name(f).len() > 4,
        file_name(f).subrange(0, 4) == left_padded(f.InstanceNumber, 4, '0'),
        file_name(f)[4] == '-',
{
    let t = left_padded(f.InstanceNumber, 4, '0');
    lemma_zero_padding_keeps_value(f.InstanceNumber, 4);
    assert forall|i: int| 0 <= i < t.len() implies is_kept(#[trigger] t[i]) by {
        assert(is_decimal_digit(t[i]));
    }
    lemma_sanitized_of_kept(t);
    lemma_file_name_parts(f);
    let rest = seq!['-'] + sanitized(f.SOPInstanceUID) + ".dcm"@;
    assert(file_name(f) == t + rest);
    assert((t + rest).subrange(0, 4) == t);
    assert((t + rest)[4] == rest[0]);
}

/// An instance number below 10000, written as its decimal numeral, stands in
/// the file name as exactly four decimal digits with the value of the number.
pub proof fn lemma_instance_number_below_10000(f: CommonElementsView, n: nat)
    requires
        f.InstanceNumber == decimal(n),
        n < 10000,
    ensures
        left_padded(f.InstanceNumber, 4, '0').len() == 4,
        all_decimal_digits(left_padded(f.InstanceNumber, 4, '0')),
        digits_value(left_padded(f.InstanceNumber, 4, '0')) == n,
        file_name(f).subrange(0, 4) == left_padded(f.InstanceNumber, 4, '0'),
        file_name(f)[4] == '-',
{
    assert(pow10(4) == 10000) by {
        reveal_with_fuel(pow10, 5);
    }
    lemma_decimal_len(n, 4);
    lemma_decimal_digits(n);
    lemma_decimal_value(n);
    lemma_instance_number_padding(f);
}

/// The file name is made of the sanitized instance number and the sanitized
/// instance UID, with a hyphen between them and the extension behind them.
pub proof fn lemma_file_name_parts(f: CommonElementsView)
    ensures
        file_name(f) == sanitized(left_padded(f.InstanceNumber, INSTANCE_NUMBER_WIDTH as nat, '0'))
            + seq!['-'] + sanitized(f.SOPInstanceUID) + ".dcm"@,
{
    let p = left_padded(f.InstanceNumber, INSTANCE_NUMBER_WIDTH as nat, '0');
    let sop = f.SOPInstanceUID;
    reveal_strlit(".dcm");
    let ext = seq!['d', 'c', 'm'];
    assert(".dcm"@ =~= seq!['.'] + ext);
    assert(p + seq!['-'] + sop + ".dcm"@ =~= (p + seq!['-'] + sop) + seq!['.'] + ext);
    lemma_sanitized_around_kept(p + seq!['-'] + sop, '.', ext);
    lemma_sanitized_around_kept(p, '-', sop);
    lemma_sanitized_of_kept(ext);
    assert(sanitized(p) + seq!['-'] + sanitized(sop) + seq!['.'] + ext =~= sanitized(p) + seq!['-']
        + sanitized(sop) + ".dcm"@);
}

/// The directory of a series is made of the sanitized series number and the
/// sanitized description, followed by the digits of the hash as they are,
/// with hyphens between them.
pub proof fn lemma_series_segment_parts(f: CommonElementsView)
    ensures
        series_segment(f) == dashed(
            sanitized(series_number_text(f.SeriesNumber)),
            sanitized(f.SeriesDescription),
            prefix(hash_text(f.SeriesInstanceUID), HASH_DIGITS as nat),
        ),
        prefix(hash_text(f.SeriesInstanceUID), HASH_DIGITS as nat).len() >= 1,
        prefix(hash_text(f.SeriesInstanceUID), HASH_DIGITS as nat).len() <= 7,
{
    let digits = hash_text(f.SeriesInstanceUID);
    let kept = prefix(digits, HASH_DIGITS as nat);
    lemma_lower_hex_digits(seahash_of(encode_utf8(f.SeriesInstanceUID)) as nat);
    assert forall|i: int| 0 <= i < kept.len() implies is_kept(#[trigger] kept[i]) by {
        assert(kept[i] == digits[i]);
        assert(is_hex_digit(digits[i]));
    }
    lemma_sanitized_of_kept(kept);
    lemma_sanitized_dashed(series_number_text(f.SeriesNumber), f.SeriesDescription, kept);
}


} // verus!
