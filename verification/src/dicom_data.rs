//! The decoded metadata of one instance, and the projection of the fields that
//! paths and log records are made of.
#![allow(non_snake_case)]
use crate::helpers::lemma_without_nul_has_none;
use crate::numeral::{
    decimal, parse_u32, parsed_u32, push_upper_hex4, u32_to_decimal, upper_hex4,
};
use crate::text::{strip_nul, trim, trimmed, without_nul};
use vstd::prelude::*;

verus! {

/// Text that stands for a value that could not be read for a log record.
pub const NOT_DEFINED: &'static str = "Not defined";

/// The identifier of an attribute: group number, then element number.
#[derive(Clone, Copy, Debug, PartialEq, Eq, Hash, Structural)]
pub struct Tag(pub u16, pub u16);

impl Tag {
    /// The tag as it is written: both numbers in four upper-case hexadecimal
    /// digits, in round brackets with a comma between them.
    pub open spec fn text(self) -> Seq<char> {
        seq!['('] + upper_hex4(self.0) + seq![','] + upper_hex4(self.1) + seq![')']
    }

    /// The tag as it is written, such as `(0010,0020)`.
    pub fn to_string(&self) -> (r: String)
        ensures
            r@ == self.text(),
    {
        let mut r = String::new();
        r.push('(');
        push_upper_hex4(&mut r, self.0);
        r.push(',');
        push_upper_hex4(&mut r, self.1);
        r.push(')');
        assert(r@ == self.text()) by {
            let a = Seq::<char>::empty().push('(');
            assert(a == seq!['(']);
            assert((a + upper_hex4(self.0)).push(',') == a + upper_hex4(self.0) + seq![',']);
            assert((a + upper_hex4(self.0) + seq![','] + upper_hex4(self.1)).push(')') == a
                + upper_hex4(self.0) + seq![','] + upper_hex4(self.1) + seq![')']);
        }
        r
    }
}

/// Why the value of an attribute could not be read.
#[derive(Clone, Copy, Debug, PartialEq, Eq, Structural)]
pub enum DicomTagError {
    /// The data set holds no element with that tag.
    Access,
    /// The element's value is not a character string.
    CastValue,
    /// The element's value cannot be rendered as text.
    ConvertValue,
}

impl DicomTagError {
    /// The error in words.
    pub open spec fn message(self) -> Seq<char> {
        match self {
            DicomTagError::Access => "No such data element"@,
            DicomTagError::CastValue => "Value is not a character string"@,
            DicomTagError::ConvertValue => "Value has no rendering as a string"@,
        }
    }

    /// The error in words.
    pub fn to_string(&self) -> (r: String)
        ensures
            r@ == self.message(),
    {
        match self {
            DicomTagError::Access => "No such data element".to_owned(),
            DicomTagError::CastValue => "Value is not a character string".to_owned(),
            DicomTagError::ConvertValue => "Value has no rendering as a string".to_owned(),
        }
    }
}

/// A tag, and the error met when its value was read.
#[derive(Clone, Copy, Debug, PartialEq, Eq, Structural)]
pub struct DicomTagAndError {
    pub tag: Tag,
    pub error: DicomTagError,
}

/// One element of a data set nested in a sequence.
pub struct NestedElement {
    pub tag: Tag,
    /// The two-letter code of the value representation.
    pub vr: String,
    /// The value as one string, if it has such a rendering.
    pub text: Option<String>,
}

/// A primitive value of a decoded element. `text` is the rendering of the
/// whole value as one string, as the decoder gives it.
pub enum PrimitiveValue {
    /// One or more character strings.
    Strs { items: Vec<String>, text: String },
    /// A list of numbers, each rendered on its own.
    Numbers { numbers: Vec<String>, text: String },
    /// Any other primitive value.
    Other { text: String },
}

/// The value of a decoded element.
pub enum ElementValue {
    /// A primitive value.
    Primitive(PrimitiveValue),
    /// A sequence of nested data sets.
    Sequence(Vec<Vec<NestedElement>>),
    /// Encapsulated pixel data.
    PixelSequence,
}

/// A decoded element.
pub struct Element {
    pub tag: Tag,
    /// The two-letter code of the value representation.
    pub vr: String,
    pub value: ElementValue,
}

/// The decoded data set of one instance. Where a tag occurs twice, the first
/// element is the one that is found.
pub struct DicomObject {
    pub elements: Vec<Element>,
}

/// The attributes that paths and log records are made of.
#[derive(Clone, Copy, Debug, PartialEq, Eq, Structural)]
pub enum Attribute {
    InstanceNumber,
    SOPInstanceUID,
    PatientID,
    PatientName,
    PatientBirthDate,
    StudyDescription,
    AccessionNumber,
    StudyDate,
    SeriesNumber,
    SeriesDescription,
    StudyInstanceUID,
    SeriesInstanceUID,
    PatientAge,
    PatientSex,
    PerformedStationAETitle,
    Modality,
    SeriesDate,
    PixelData,
}

impl Attribute {
    /// The tag of the attribute in the standard data dictionary.
    pub open spec fn spec_tag(self) -> Tag {
        match self {
            Attribute::InstanceNumber => Tag(0x0020, 0x0013),
            Attribute::SOPInstanceUID => Tag(0x0008, 0x0018),
            Attribute::PatientID => Tag(0x0010, 0x0020),
            Attribute::PatientName => Tag(0x0010, 0x0010),
            Attribute::PatientBirthDate => Tag(0x0010, 0x0030),
            Attribute::StudyDescription => Tag(0x0008, 0x1030),
            Attribute::AccessionNumber => Tag(0x0008, 0x0050),
            Attribute::StudyDate => Tag(0x0008, 0x0020),
            Attribute::SeriesNumber => Tag(0x0020, 0x0011),
            Attribute::SeriesDescription => Tag(0x0008, 0x103E),
            Attribute::StudyInstanceUID => Tag(0x0020, 0x000D),
            Attribute::SeriesInstanceUID => Tag(0x0020, 0x000E),
            Attribute::PatientAge => Tag(0x0010, 0x1010),
            Attribute::PatientSex => Tag(0x0010, 0x0040),
            Attribute::PerformedStationAETitle => Tag(0x0040, 0x0241),
            Attribute::Modality => Tag(0x0008, 0x0060),
            Attribute::SeriesDate => Tag(0x0008, 0x0021),
            Attribute::PixelData => Tag(0x7FE0, 0x0010),
        }
    }

    /// The tag of the attribute in the standard data dictionary.
    #[verifier::when_used_as_spec(spec_tag)]
    pub fn tag(self) -> (t: Tag)
        ensures
            t == self.spec_tag(),
    {
        match self {
            Attribute::InstanceNumber => Tag(0x0020, 0x0013),
            Attribute::SOPInstanceUID => Tag(0x0008, 0x0018),
            Attribute::PatientID => Tag(0x0010, 0x0020),
            Attribute::PatientName => Tag(0x0010, 0x0010),
            Attribute::PatientBirthDate => Tag(0x0010, 0x0030),
            Attribute::StudyDescription => Tag(0x0008, 0x1030),
            Attribute::AccessionNumber => Tag(0x0008, 0x0050),
            Attribute::StudyDate => Tag(0x0008, 0x0020),
            Attribute::SeriesNumber => Tag(0x0020, 0x0011),
            Attribute::SeriesDescription => Tag(0x0008, 0x103E),
            Attribute::StudyInstanceUID => Tag(0x0020, 0x000D),
            Attribute::SeriesInstanceUID => Tag(0x0020, 0x000E),
            Attribute::PatientAge => Tag(0x0010, 0x1010),
            Attribute::PatientSex => Tag(0x0010, 0x0040),
            Attribute::PerformedStationAETitle => Tag(0x0040, 0x0241),
            Attribute::Modality => Tag(0x0008, 0x0060),
            Attribute::SeriesDate => Tag(0x0008, 0x0021),
            Attribute::PixelData => Tag(0x7FE0, 0x0010),
        }
    }

    /// The name of the attribute. It stands in for the value of an optional
    /// attribute that cannot be read.
    pub open spec fn spec_name(self) -> Seq<char> {
        match self {
            Attribute::InstanceNumber => "InstanceNumber"@,
            Attribute::SOPInstanceUID => "SOPInstanceUID"@,
            Attribute::PatientID => "PatientID"@,
            Attribute::PatientName => "PatientName"@,
            Attribute::PatientBirthDate => "PatientBirthDate"@,
            Attribute::StudyDescription => "StudyDescription"@,
            Attribute::AccessionNumber => "AccessionNumber"@,
            Attribute::StudyDate => "StudyDate"@,
            Attribute::SeriesNumber => "SeriesNumber"@,
            Attribute::SeriesDescription => "SeriesDescription"@,
            Attribute::StudyInstanceUID => "StudyInstanceUID"@,
            Attribute::SeriesInstanceUID => "SeriesInstanceUID"@,
            Attribute::PatientAge => "PatientAge"@,
            Attribute::PatientSex => "PatientSex"@,
            Attribute::PerformedStationAETitle => "PerformedStationAETitle"@,
            Attribute::Modality => "Modality"@,
            Attribute::SeriesDate => "SeriesDate"@,
            Attribute::PixelData => "PixelData"@,
        }
    }

    /// The name of the attribute.
    pub fn name(self) -> (s: &'static str)
        ensures
            s@ == self.spec_name(),
    {
        match self {
            Attribute::InstanceNumber => "InstanceNumber",
            Attribute::SOPInstanceUID => "SOPInstanceUID",
            Attribute::PatientID => "PatientID",
            Attribute::PatientName => "PatientName",
            Attribute::PatientBirthDate => "PatientBirthDate",
            Attribute::StudyDescription => "StudyDescription",
            Attribute::AccessionNumber => "AccessionNumber",
            Attribute::StudyDate => "StudyDate",
            Attribute::SeriesNumber => "SeriesNumber",
            Attribute::SeriesDescription => "SeriesDescription",
            Attribute::StudyInstanceUID => "StudyInstanceUID",
            Attribute::SeriesInstanceUID => "SeriesInstanceUID",
            Attribute::PatientAge => "PatientAge",
            Attribute::PatientSex => "PatientSex",
            Attribute::PerformedStationAETitle => "PerformedStationAETitle",
            Attribute::Modality => "Modality",
            Attribute::SeriesDate => "SeriesDate",
            Attribute::PixelData => "PixelData",
        }
    }
}

/// The first element of `elements` with the given tag.
pub open spec fn first_with_tag(elements: Seq<Element>, tag: Tag) -> Option<Element>
    decreases elements.len(),
{
    if elements.len() == 0 {
        None
    } else if elements[0].tag == tag {
        Some(elements[0])
    } else {
        first_with_tag(elements.drop_first(), tag)
    }
}

impl PrimitiveValue {
    /// The value as a single character string, without conversion: the first
    /// string of a string value, nothing for any other value.
    pub open spec fn spec_string(self) -> Option<Seq<char>> {
        match self {
            PrimitiveValue::Strs { items, text } => if items@.len() > 0 {
                Some(items@[0]@)
            } else {
                None
            },
            _ => None,
        }
    }

    /// The value rendered as one string.
    pub open spec fn spec_text(self) -> Seq<char> {
        match self {
            PrimitiveValue::Strs { items, text } => text@,
            PrimitiveValue::Numbers { numbers, text } => text@,
            PrimitiveValue::Other { text } => text@,
        }
    }

    /// The value as a single character string, without conversion.
    pub fn string(&self) -> (r: Option<String>)
        ensures
            option_text(r) == self.spec_string(),
    {
        match self {
            PrimitiveValue::Strs { items, text } => {
                if items.len() > 0 {
                    Some(items[0].clone())
                } else {
                    None
                }
            },
            _ => None,
        }
    }

    /// The value rendered as one string.
    pub fn to_str(&self) -> (r: String)
        ensures
            r@ == self.spec_text(),
    {
        match self {
            PrimitiveValue::Strs { items, text } => text.clone(),
            PrimitiveValue::Numbers { numbers, text } => text.clone(),
            PrimitiveValue::Other { text } => text.clone(),
        }
    }
}

impl ElementValue {
    /// The value as a single character string, without conversion: only a
    /// primitive value can be one.
    pub open spec fn spec_string(self) -> Option<Seq<char>> {
        match self {
            ElementValue::Primitive(p) => p.spec_string(),
            _ => None,
        }
    }

    /// The value rendered as one string: every primitive value has such a
    /// rendering, a sequence has none.
    pub open spec fn spec_text(self) -> Option<Seq<char>> {
        match self {
            ElementValue::Primitive(p) => Some(p.spec_text()),
            _ => None,
        }
    }

    /// The value as a single character string, without conversion.
    pub fn string(&self) -> (r: Option<String>)
        ensures
            option_text(r) == self.spec_string(),
    {
        match self {
            ElementValue::Primitive(p) => p.string(),
            _ => None,
        }
    }

    /// The value rendered as one string.
    pub fn to_str(&self) -> (r: Option<String>)
        ensures
            option_text(r) == self.spec_text(),
    {
        match self {
            ElementValue::Primitive(p) => Some(p.to_str()),
            _ => None,
        }
    }
}

/// The characters of an optional string.
pub open spec fn option_text(o: Option<String>) -> Option<Seq<char>> {
    match o {
        Some(s) => Some(s@),
        None => None,
    }
}

/// The characters of a string that was read, or the error.
pub open spec fn result_text<E>(r: Result<String, E>) -> Result<Seq<char>, E> {
    match r {
        Ok(s) => Ok(s@),
        Err(e) => Err(e),
    }
}

/// A value as it is used: trimmed of surrounding whitespace, then freed of NUL
/// characters.
pub open spec fn cleaned(raw: Seq<char>) -> Seq<char> {
    without_nul(trimmed(raw))
}

impl DicomObject {
    /// The element with the given tag.
    pub open spec fn spec_element(self, tag: Tag) -> Option<Element> {
        first_with_tag(self.elements@, tag)
    }

    /// The character string stored under `tag`, as it is stored.
    pub open spec fn string_at(self, tag: Tag) -> Result<Seq<char>, DicomTagError> {
        match self.spec_element(tag) {
            None => Err(DicomTagError::Access),
            Some(e) => match e.value.spec_string() {
                None => Err(DicomTagError::CastValue),
                Some(s) => Ok(s),
            },
        }
    }

    /// The value stored under `tag`, rendered as one string.
    pub open spec fn text_at(self, tag: Tag) -> Result<Seq<char>, DicomTagError> {
        match self.spec_element(tag) {
            None => Err(DicomTagError::Access),
            Some(e) => match e.value.spec_text() {
                None => Err(DicomTagError::ConvertValue),
                Some(s) => Ok(s),
            },
        }
    }

    /// The character string stored under `tag`, cleaned for use.
    pub open spec fn cleaned_at(self, tag: Tag) -> Result<Seq<char>, DicomTagError> {
        match self.string_at(tag) {
            Ok(s) => Ok(cleaned(s)),
            Err(e) => Err(e),
        }
    }

    /// Looks up the element with the given tag.
    pub fn element(&self, tag: Tag) -> (r: Option<&Element>)
        ensures
            match r {
                Some(e) => self.spec_element(tag) == Some(*e),
                None => self.spec_element(tag) is None,
            },
    {
        let mut i: usize = 0;
        assert(self.elements@.skip(0) == self.elements@);
        while i < self.elements.len()
            invariant
                i <= self.elements.len(),
                first_with_tag(self.elements@, tag) == first_with_tag(
                    self.elements@.skip(i as int),
                    tag,
                ),
            decreases self.elements.len() - i,
        {
            let ghost rest = self.elements@.skip(i as int);
            assert(rest[0] == self.elements@[i as int]);
            if self.elements[i].tag == tag {
                return Some(&self.elements[i]);
            }
            assert(rest.drop_first() == self.elements@.skip(i + 1));
            i += 1;
        }
        None
    }
}

/// Reads the character string stored under `tag`, trimmed of surrounding
/// whitespace.
pub fn tt(dcm: &DicomObject, tag: Tag) -> (r: Result<String, DicomTagError>)
    ensures
        result_text(r) == match dcm.string_at(tag) {
            Ok(s) => Ok(trimmed(s)),
            Err(e) => Err(e),
        },
{
    match dcm.element(tag) {
        None => Err(DicomTagError::Access),
        Some(e) => match e.value.string() {
            None => Err(DicomTagError::CastValue),
            Some(s) => Ok(trim(s.as_str())),
        },
    }
}

/// Reads the character string stored under `tag`, trimmed and without NUL
/// characters.
pub fn tts(dcm: &DicomObject, tag: Tag) -> (r: Result<String, DicomTagError>)
    ensures
        result_text(r) == dcm.cleaned_at(tag),
{
    match tt(dcm, tag) {
        Ok(s) => Ok(strip_nul(s.as_str())),
        Err(e) => Err(e),
    }
}

/// A number, or the text that could not be read as one.
#[derive(Debug)]
pub enum MaybeU32 {
    U32(u32),
    Str(String),
}

/// What a [`MaybeU32`] holds.
pub enum MaybeU32View {
    U32(u32),
    Str(Seq<char>),
}

impl MaybeU32View {
    /// The text of the value: the decimal numeral of a number, or the text as
    /// it stands.
    pub open spec fn text(self) -> Seq<char> {
        match self {
            MaybeU32View::U32(n) => decimal(n as nat),
            MaybeU32View::Str(s) => s,
        }
    }
}

impl View for MaybeU32 {
    type V = MaybeU32View;

    open spec fn view(&self) -> MaybeU32View {
        match self {
            MaybeU32::U32(n) => MaybeU32View::U32(*n),
            MaybeU32::Str(s) => MaybeU32View::Str(s@),
        }
    }
}

/// `s` read as a number where it is the numeral of a `u32`, and kept as text
/// where it is not.
pub open spec fn maybe_u32(s: Seq<char>) -> MaybeU32View {
    match parsed_u32(s) {
        Some(n) => MaybeU32View::U32(n),
        None => MaybeU32View::Str(s),
    }
}

impl MaybeU32 {
    /// Reads `value` as a number, and keeps the text where it is none.
    pub fn from(value: &str) -> (r: Self)
        ensures
            r@ == maybe_u32(value@),
    {
        match parse_u32(value) {
            Some(n) => MaybeU32::U32(n),
            None => MaybeU32::Str(value.to_owned()),
        }
    }

    /// The text of the value.
    pub fn to_string(&self) -> (s: String)
        ensures
            s@ == self@.text(),
    {
        match self {
            MaybeU32::U32(n) => u32_to_decimal(*n),
            MaybeU32::Str(s) => s.clone(),
        }
    }

    /// A copy of the value.
    pub fn duplicate(&self) -> (r: Self)
        ensures
            r@ == self@,
    {
        match self {
            MaybeU32::U32(n) => MaybeU32::U32(*n),
            MaybeU32::Str(s) => MaybeU32::Str(s.clone()),
        }
    }
}

/// The fields of an instance that its path and its log records are made of.
#[derive(Debug)]
pub struct CommonElements {
    pub InstanceNumber: String,
    pub SOPInstanceUID: String,
    pub PatientID: String,
    pub PatientName: String,
    pub PatientBirthDate: String,
    pub StudyDescription: String,
    pub AccessionNumber: String,
    pub StudyDate: String,
    pub SeriesNumber: MaybeU32,
    pub SeriesDescription: String,
    pub StudyInstanceUID: String,
    pub SeriesInstanceUID: String,
}

/// What a [`CommonElements`] holds.
pub struct CommonElementsView {
    pub InstanceNumber: Seq<char>,
    pub SOPInstanceUID: Seq<char>,
    pub PatientID: Seq<char>,
    pub PatientName: Seq<char>,
    pub PatientBirthDate: Seq<char>,
    pub StudyDescription: Seq<char>,
    pub AccessionNumber: Seq<char>,
    pub StudyDate: Seq<char>,
    pub SeriesNumber: MaybeU32View,
    pub SeriesDescription: Seq<char>,
    pub StudyInstanceUID: Seq<char>,
    pub SeriesInstanceUID: Seq<char>,
}

impl View for CommonElements {
    type V = CommonElementsView;

    open spec fn view(&self) -> CommonElementsView {
        CommonElementsView {
            InstanceNumber: self.InstanceNumber@,
            SOPInstanceUID: self.SOPInstanceUID@,
            PatientID: self.PatientID@,
            PatientName: self.PatientName@,
            PatientBirthDate: self.PatientBirthDate@,
            StudyDescription: self.StudyDescription@,
            AccessionNumber: self.AccessionNumber@,
            StudyDate: self.StudyDate@,
            SeriesNumber: self.SeriesNumber@,
            SeriesDescription: self.SeriesDescription@,
            StudyInstanceUID: self.StudyInstanceUID@,
            SeriesInstanceUID: self.SeriesInstanceUID@,
        }
    }
}

/// Whether an instance cannot be stored without the attribute.
pub open spec fn is_required(a: Attribute) -> bool {
    ||| a == Attribute::SOPInstanceUID
    ||| a == Attribute::PatientID
    ||| a == Attribute::AccessionNumber
    ||| a == Attribute::SeriesNumber
    ||| a == Attribute::StudyInstanceUID
    ||| a == Attribute::SeriesInstanceUID
}

/// Whether the attribute is replaced by its name where it cannot be read.
pub open spec fn is_optional(a: Attribute) -> bool {
    ||| a == Attribute::InstanceNumber
    ||| a == Attribute::PatientName
    ||| a == Attribute::PatientBirthDate
    ||| a == Attribute::StudyDescription
    ||| a == Attribute::StudyDate
    ||| a == Attribute::SeriesDescription
}

/// The error of reading the attribute `a`, if it cannot be read.
pub open spec fn failure_at(dcm: DicomObject, a: Attribute) -> Option<DicomTagAndError> {
    match dcm.cleaned_at(a.spec_tag()) {
        Ok(s) => None,
        Err(e) => Some(DicomTagAndError { tag: a.spec_tag(), error: e }),
    }
}

/// `first` if it is an error, otherwise `second`.
pub open spec fn or_else(
    first: Option<DicomTagAndError>,
    second: Option<DicomTagAndError>,
) -> Option<DicomTagAndError> {
    if first is Some {
        first
    } else {
        second
    }
}

/// The first required attribute that cannot be read, in the order in which
/// they are read, with the error.
pub open spec fn required_failure(dcm: DicomObject) -> Option<DicomTagAndError> {
    or_else(
        failure_at(dcm, Attribute::SOPInstanceUID),
        or_else(
            failure_at(dcm, Attribute::PatientID),
            or_else(
                failure_at(dcm, Attribute::AccessionNumber),
                or_else(
                    failure_at(dcm, Attribute::SeriesNumber),
                    or_else(
                        failure_at(dcm, Attribute::StudyInstanceUID),
                        failure_at(dcm, Attribute::SeriesInstanceUID),
                    ),
                ),
            ),
        ),
    )
}

/// The value of the attribute `a` where it can be read, and the attribute's
/// name where it cannot.
pub open spec fn value_or_name(dcm: DicomObject, a: Attribute) -> Seq<char> {
    match dcm.cleaned_at(a.spec_tag()) {
        Ok(s) => s,
        Err(e) => a.spec_name(),
    }
}

/// The errors of reading the attribute `a`: none or one.
pub open spec fn errors_at(dcm: DicomObject, a: Attribute) -> Seq<DicomTagAndError> {
    match failure_at(dcm, a) {
        Some(e) => seq![e],
        None => Seq::empty(),
    }
}

/// The errors of reading the optional attributes, in the order in which they
/// are read.
pub open spec fn optional_errors(dcm: DicomObject) -> Seq<DicomTagAndError> {
    errors_at(dcm, Attribute::InstanceNumber) + errors_at(dcm, Attribute::PatientName)
        + errors_at(dcm, Attribute::PatientBirthDate) + errors_at(
        dcm,
        Attribute::StudyDescription,
    ) + errors_at(dcm, Attribute::StudyDate) + errors_at(dcm, Attribute::SeriesDescription)
}

/// The fields of a data set whose required attributes can all be read.
pub open spec fn projected(dcm: DicomObject) -> CommonElementsView {
    CommonElementsView {
        InstanceNumber: value_or_name(dcm, Attribute::InstanceNumber),
        SOPInstanceUID: value_or_name(dcm, Attribute::SOPInstanceUID),
        PatientID: value_or_name(dcm, Attribute::PatientID),
        PatientName: value_or_name(dcm, Attribute::PatientName),
        PatientBirthDate: value_or_name(dcm, Attribute::PatientBirthDate),
        StudyDescription: value_or_name(dcm, Attribute::StudyDescription),
        AccessionNumber: value_or_name(dcm, Attribute::AccessionNumber),
        StudyDate: value_or_name(dcm, Attribute::StudyDate),
        SeriesNumber: maybe_u32(value_or_name(dcm, Attribute::SeriesNumber)),
        SeriesDescription: value_or_name(dcm, Attribute::SeriesDescription),
        StudyInstanceUID: value_or_name(dcm, Attribute::StudyInstanceUID),
        SeriesInstanceUID: value_or_name(dcm, Attribute::SeriesInstanceUID),
    }
}

/// A value that was read holds no NUL character once it is cleaned, and the
/// value of an attribute that could be read is such a value.
pub proof fn lemma_read_values_are_clean(dcm: DicomObject, a: Attribute)
    requires
        failure_at(dcm, a) is None,
    ensures
        !value_or_name(dcm, a).contains('\0'),
        value_or_name(dcm, a) == cleaned(dcm.string_at(a.spec_tag())->Ok_0),
{
    lemma_without_nul_has_none(trimmed(dcm.string_at(a.spec_tag())->Ok_0));
}

/// The projection fails exactly when a required attribute cannot be read,
/// and the error that it reports is that of such an attribute.
pub proof fn lemma_required_failure(dcm: DicomObject)
    ensures
        required_failure(dcm) is Some <==> exists|a: Attribute|
            is_required(a) && (#[trigger] failure_at(dcm, a)) is Some,
        required_failure(dcm) matches Some(e) ==> exists|a: Attribute|
            is_required(a) && #[trigger] failure_at(dcm, a) == Some(e),
{
    if required_failure(dcm) is Some {
        let e = required_failure(dcm);
        if failure_at(dcm, Attribute::SOPInstanceUID) is Some {
            assert(is_required(Attribute::SOPInstanceUID));
        } else if failure_at(dcm, Attribute::PatientID) is Some {
            assert(is_required(Attribute::PatientID));
        } else if failure_at(dcm, Attribute::AccessionNumber) is Some {
            assert(is_required(Attribute::AccessionNumber));
        } else if failure_at(dcm, Attribute::SeriesNumber) is Some {
            assert(is_required(Attribute::SeriesNumber));
        } else if failure_at(dcm, Attribute::StudyInstanceUID) is Some {
            assert(is_required(Attribute::StudyInstanceUID));
        } else {
            assert(failure_at(dcm, Attribute::SeriesInstanceUID) == e);
            assert(is_required(Attribute::SeriesInstanceUID));
        }
    }
}

/// An optional attribute that cannot be read is replaced by its own name, and
/// one that can be read by its cleaned value; the error of the one is among
/// the errors that are recorded.
pub proof fn lemma_optional_field(dcm: DicomObject, a: Attribute)
    requires
        is_optional(a),
    ensures
        failure_at(dcm, a) is Some ==> value_or_name(dcm, a) == a.spec_name(),
        failure_at(dcm, a) matches Some(e) ==> optional_errors(dcm).contains(e),
        failure_at(dcm, a) is None ==> dcm.cleaned_at(a.spec_tag()) == Ok::<
            Seq<char>,
            DicomTagError,
        >(value_or_name(dcm, a)),
{
    if failure_at(dcm, a) is Some {
        let e = failure_at(dcm, a)->0;
        let e1 = errors_at(dcm, Attribute::InstanceNumber);
        let e2 = errors_at(dcm, Attribute::PatientName);
        let e3 = errors_at(dcm, Attribute::PatientBirthDate);
        let e4 = errors_at(dcm, Attribute::StudyDescription);
        let e5 = errors_at(dcm, Attribute::StudyDate);
        let e6 = errors_at(dcm, Attribute::SeriesDescription);
        let all = optional_errors(dcm);
        assert(errors_at(dcm, a) == seq![e]);
        assert(errors_at(dcm, a)[0] == e);
        if a == Attribute::InstanceNumber {
            assert(all[0] == e);
        } else if a == Attribute::PatientName {
            assert(all[e1.len() as int] == e);
        } else if a == Attribute::PatientBirthDate {
            assert(all[(e1.len() + e2.len()) as int] == e);
        } else if a == Attribute::StudyDescription {
            assert(all[(e1.len() + e2.len() + e3.len()) as int] == e);
        } else if a == Attribute::StudyDate {
            assert(all[(e1.len() + e2.len() + e3.len() + e4.len()) as int] == e);
        } else {
            assert(all[(e1.len() + e2.len() + e3.len() + e4.len() + e5.len()) as int] == e);
        }
    }
}

/// Reads a required attribute.
fn required(dcm: &DicomObject, a: Attribute) -> (r: Result<String, DicomTagAndError>)
    ensures
        match r {
            Ok(s) => failure_at(*dcm, a) is None && s@ == value_or_name(*dcm, a),
            Err(e) => failure_at(*dcm, a) == Some(e),
        },
{
    match tts(dcm, a.tag()) {
        Ok(s) => Ok(s),
        Err(error) => Err(DicomTagAndError { tag: a.tag(), error }),
    }
}

/// Reads an optional attribute: where it cannot be read, the error is
/// recorded and the attribute's name stands for the value.
fn optional(dcm: &DicomObject, a: Attribute, errors: &mut Vec<DicomTagAndError>) -> (r: String)
    ensures
        r@ == value_or_name(*dcm, a),
        final(errors)@ == old(errors)@ + errors_at(*dcm, a),
{
    match tts(dcm, a.tag()) {
        Ok(s) => {
            assert(errors@ + Seq::<DicomTagAndError>::empty() == errors@);
            s
        },
        Err(error) => {
            let e = DicomTagAndError { tag: a.tag(), error };
            errors.push(e);
            assert(old(errors)@.push(e) == old(errors)@ + seq![e]);
            a.name().to_owned()
        },
    }
}

/// The values of the required attributes, in the order in which they are
/// read.
struct RequiredValues {
    sop_instance_uid: String,
    patient_id: String,
    accession_number: String,
    series_number: String,
    study_instance_uid: String,
    series_instance_uid: String,
}

/// The values of the optional attributes, in the order in which they are
/// read.
struct OptionalValues {
    instance_number: String,
    patient_name: String,
    patient_birth_date: String,
    study_description: String,
    study_date: String,
    series_description: String,
}

/// Reads the required attributes, up to the first that cannot be read.
fn read_required(dcm: &DicomObject) -> (r: Result<RequiredValues, DicomTagAndError>)
    ensures
        match r {
            Ok(v) => {
                &&& required_failure(*dcm) is None
                &&& v.sop_instance_uid@ == value_or_name(*dcm, Attribute::SOPInstanceUID)
                &&& v.patient_id@ == value_or_name(*dcm, Attribute::PatientID)
                &&& v.accession_number@ == value_or_name(*dcm, Attribute::AccessionNumber)
                &&& v.series_number@ == value_or_name(*dcm, Attribute::SeriesNumber)
                &&& v.study_instance_uid@ == value_or_name(*dcm, Attribute::StudyInstanceUID)
                &&& v.series_instance_uid@ == value_or_name(*dcm, Attribute::SeriesInstanceUID)
            },
            Err(e) => required_failure(*dcm) == Some(e),
        },
{
    let sop_instance_uid = match required(dcm, Attribute::SOPInstanceUID) {
        Ok(s) => s,
        Err(e) => {
            return Err(e);
        },
    };
    let patient_id = match required(dcm, Attribute::PatientID) {
        Ok(s) => s,
        Err(e) => {
            return Err(e);
        },
    };
    let accession_number = match required(dcm, Attribute::AccessionNumber) {
        Ok(s) => s,
        Err(e) => {
            return Err(e);
        },
    };
    let series_number = match required(dcm, Attribute::SeriesNumber) {
        Ok(s) => s,
        Err(e) => {
            return Err(e);
        },
    };
    let study_instance_uid = match required(dcm, Attribute::StudyInstanceUID) {
        Ok(s) => s,
        Err(e) => {
            return Err(e);
        },
    };
    let series_instance_uid = match required(dcm, Attribute::SeriesInstanceUID) {
        Ok(s) => s,
        Err(e) => {
            return Err(e);
        },
    };
    Ok(
        RequiredValues {
            sop_instance_uid,
            patient_id,
            accession_number,
            series_number,
            study_instance_uid,
            series_instance_uid,
        },
    )
}

/// Reads the optional attributes and records the errors met.
fn read_optional(dcm: &DicomObject, errors: &mut Vec<DicomTagAndError>) -> (v: OptionalValues)
    ensures
        v.instance_number@ == value_or_name(*dcm, Attribute::InstanceNumber),
        v.patient_name@ == value_or_name(*dcm, Attribute::PatientName),
        v.patient_birth_date@ == value_or_name(*dcm, Attribute::PatientBirthDate),
        v.study_description@ == value_or_name(*dcm, Attribute::StudyDescription),
        v.study_date@ == value_or_name(*dcm, Attribute::StudyDate),
        v.series_description@ == value_or_name(*dcm, Attribute::SeriesDescription),
        final(errors)@ == old(errors)@ + optional_errors(*dcm),
{
    let instance_number = optional(dcm, Attribute::InstanceNumber, errors);
    let patient_name = optional(dcm, Attribute::PatientName, errors);
    let patient_birth_date = optional(dcm, Attribute::PatientBirthDate, errors);
    let study_description = optional(dcm, Attribute::StudyDescription, errors);
    let study_date = optional(dcm, Attribute::StudyDate, errors);
    let series_description = optional(dcm, Attribute::SeriesDescription, errors);
    proof {
        let e1 = errors_at(*dcm, Attribute::InstanceNumber);
        let e2 = errors_at(*dcm, Attribute::PatientName);
        let e3 = errors_at(*dcm, Attribute::PatientBirthDate);
        let e4 = errors_at(*dcm, Attribute::StudyDescription);
        let e5 = errors_at(*dcm, Attribute::StudyDate);
        let e6 = errors_at(*dcm, Attribute::SeriesDescription);
        assert(old(errors)@ + e1 + e2 + e3 + e4 + e5 + e6 == old(errors)@ + (e1 + e2 + e3 + e4 + e5
            + e6));
    }
    OptionalValues {
        instance_number,
        patient_name,
        patient_birth_date,
        study_description,
        study_date,
        series_description,
    }
}

impl CommonElements {
    /// Projects the fields out of a decoded data set.
    ///
    /// A required attribute that cannot be read ends the projection with its
    /// tag and error, and `errors` is left as it was. An optional attribute
    /// that cannot be read is replaced by its own name, and the error is
    /// appended to `errors`.
    pub fn try_from(dcm: &DicomObject, errors: &mut Vec<DicomTagAndError>) -> (r: Result<
        CommonElements,
        DicomTagAndError,
    >)
        ensures
            match r {
                Ok(fields) => {
                    &&& required_failure(*dcm) is None
                    &&& fields@ == projected(*dcm)
                    &&& final(errors)@ == old(errors)@ + optional_errors(*dcm)
                },
                Err(e) => {
                    &&& required_failure(*dcm) == Some(e)
                    &&& final(errors)@ == old(errors)@
                },
            },
    {
        let required = match read_required(dcm) {
            Ok(v) => v,
            Err(e) => {
                return Err(e);
            },
        };
        let optional = read_optional(dcm, errors);
        Ok(
            CommonElements {
                InstanceNumber: optional.instance_number,
                SOPInstanceUID: required.sop_instance_uid,
                PatientID: required.patient_id,
                PatientName: optional.patient_name,
                PatientBirthDate: optional.patient_birth_date,
                StudyDescription: optional.study_description,
                AccessionNumber: required.accession_number,
                StudyDate: optional.study_date,
                SeriesNumber: MaybeU32::from(required.series_number.as_str()),
                SeriesDescription: optional.series_description,
                StudyInstanceUID: required.study_instance_uid,
                SeriesInstanceUID: required.series_instance_uid,
            },
        )
    }
}

/// The value stored under `tag` rendered as one string, or [`NOT_DEFINED`]
/// where there is none.
pub open spec fn text_or_undefined(dcm: DicomObject, tag: Tag) -> Seq<char> {
    match dcm.text_at(tag) {
        Ok(s) => s,
        Err(e) => NOT_DEFINED@,
    }
}

/// The errors of rendering the value stored under `tag`: none or one.
pub open spec fn text_errors(dcm: DicomObject, tag: Tag) -> Seq<DicomTagAndError> {
    match dcm.text_at(tag) {
        Ok(s) => Seq::empty(),
        Err(error) => seq![DicomTagAndError { tag, error }],
    }
}

/// A character string that can be read as it is stored can be rendered as
/// text: reading it for a record meets no error.
pub proof fn lemma_string_has_text(dcm: DicomObject, tag: Tag)
    requires
        dcm.string_at(tag) is Ok,
    ensures
        dcm.text_at(tag) is Ok,
        text_errors(dcm, tag) == Seq::<DicomTagAndError>::empty(),
{
}

/// Whether the attribute is read for records only, not for the fields.
pub open spec fn is_record_only(a: Attribute) -> bool {
    ||| a == Attribute::PatientAge
    ||| a == Attribute::PatientSex
    ||| a == Attribute::PerformedStationAETitle
    ||| a == Attribute::Modality
    ||| a == Attribute::SeriesDate
}

/// Reads values for log records out of a data set. A value that cannot be
/// read is replaced by [`NOT_DEFINED`], and the error is recorded in `errors`.
pub struct TagExtractor<'a> {
    pub dcm: &'a DicomObject,
    pub errors: Vec<DicomTagAndError>,
}

impl<'a> TagExtractor<'a> {
    /// A reader of `dcm` that has met no error yet.
    pub fn new(dcm: &'a DicomObject) -> (r: Self)
        ensures
            *r.dcm == *dcm,
            r.errors@ == Seq::<DicomTagAndError>::empty(),
    {
        Self { dcm, errors: Vec::new() }
    }

    /// The value stored under `tag`, rendered as one string. Where there is
    /// none, the error is recorded and [`NOT_DEFINED`] is returned.
    pub fn get(&mut self, tag: Tag) -> (r: String)
        ensures
            *final(self).dcm == *old(self).dcm,
            r@ == text_or_undefined(*old(self).dcm, tag),
            final(self).errors@ == old(self).errors@ + text_errors(*old(self).dcm, tag),
    {
        let found = match self.dcm.element(tag) {
            None => Err(DicomTagError::Access),
            Some(e) => match e.value.to_str() {
                None => Err(DicomTagError::ConvertValue),
                Some(s) => Ok(s),
            },
        };
        match found {
            Ok(s) => {
                assert(self.errors@ + Seq::<DicomTagAndError>::empty() == self.errors@);
                s
            },
            Err(error) => {
                let e = DicomTagAndError { tag, error };
                self.errors.push(e);
                assert(old(self).errors@.push(e) == old(self).errors@ + seq![e]);
                NOT_DEFINED.to_owned()
            },
        }
    }
}

/// The alias that the standard data dictionary gives to a tag, if it knows the
/// tag.
pub uninterp spec fn standard_alias(group: u16, element: u16) -> Option<Seq<char>>;

/// Looks a tag up in the standard data dictionary of the `dicom` crate
/// (`StandardDataDictionary::by_tag`) and returns the alias of its entry. The
/// dictionary is a fixed table, so the alias depends on the tag alone.
#[verifier::external_body]
pub(crate) fn name_of(tag: Tag) -> (r: Option<String>)
    ensures
        option_text(r) == standard_alias(tag.0, tag.1),
{
    dicom::core::DataDictionary::by_tag(
        &dicom::dictionary_std::StandardDataDictionary,
        dicom::core::Tag(tag.0, tag.1),
    ).map(|entry| entry.alias.to_string())
}

} // verus!
