//! The record that holds every element of the first instance of a series, by
//! the name of its attribute.
#![allow(non_snake_case)]
use crate::dicom_data::{
    name_of, option_text, standard_alias, Attribute, DicomObject, Element, ElementValue,
    NestedElement, PrimitiveValue, Tag,
};
use crate::text::{push_str, same_text, texts};
use vstd::prelude::*;

verus! {

/// The error type of `serde_json`.
#[verifier::external_type_specification]
#[verifier::external_body]
pub struct ExJsonError(serde_json::Error);

/// Why an element has no entry in the record of its series.
#[derive(Clone, Copy, Debug, PartialEq, Eq, Structural)]
pub enum ElementSerializationError {
    /// The standard data dictionary does not know the tag.
    UnknownTagError(Tag),
    /// Encapsulated pixel data is left out.
    Excluded(Tag),
}

/// Text that stands for a part of a nested element that could not be had.
pub const REPACK_ERROR: &'static str = "RX_REPACK_ERROR";

/// The items with `sep` before each of them.
pub open spec fn each_after(items: Seq<Seq<char>>, sep: Seq<char>) -> Seq<char>
    decreases items.len(),
{
    if items.len() == 0 {
        Seq::empty()
    } else {
        sep + items[0] + each_after(items.drop_first(), sep)
    }
}

/// The items one after the other, with `sep` between them.
pub open spec fn separated(items: Seq<Seq<char>>, sep: Seq<char>) -> Seq<char> {
    if items.len() == 0 {
        Seq::empty()
    } else {
        items[0] + each_after(items.drop_first(), sep)
    }
}

/// `itertools::Itertools::join` writes the first item, then for each further
/// item the separator and the item; of no items it makes the empty string. A
/// string is written as it stands.
#[verifier::external_body]
fn join_strings(items: &Vec<String>, sep: &str) -> (r: String)
    ensures
        r@ == separated(texts(items@), sep@),
{
    itertools::Itertools::join(&mut items.iter(), sep)
}

/// The JSON text that `serde_json` makes of a list of strings, where it makes
/// one.
pub uninterp spec fn json_string_array(items: Seq<Seq<char>>) -> Option<Seq<char>>;

/// `serde_json::to_string` on a slice of strings: the JSON array of the
/// strings, or the error that `serde_json` reports. The text depends on the
/// strings alone.
#[verifier::external_body]
fn json_of_strings(items: &Vec<String>) -> (r: Result<String, serde_json::Error>)
    ensures
        match r {
            Ok(json) => json_string_array(texts(items@)) == Some(json@),
            Err(e) => json_string_array(texts(items@)) is None,
        },
{
    serde_json::to_string(items.as_slice())
}

/// Whether a value representation holds numbers written as text: integer
/// string, signed short or decimal string.
pub open spec fn is_number_vr(vr: Seq<char>) -> bool {
    vr == "IS"@ || vr == "SS"@ || vr == "DS"@
}

/// The text of a list of numbers: a single number as the decoder renders it,
/// any other list in square brackets with a comma and a space between the
/// numbers.
pub open spec fn numbers_text(items: Seq<Seq<char>>, text: Seq<char>) -> Seq<char> {
    if items.len() == 1 {
        text
    } else {
        seq!['['] + separated(items, ", "@) + seq![']']
    }
}

/// The text of a list of strings: the JSON array that was made of it, or the
/// decoder's rendering where none was made.
pub open spec fn array_or_text(json: Option<Seq<char>>, text: Seq<char>) -> Seq<char> {
    match json {
        Some(j) => j,
        None => text,
    }
}

/// The text of a primitive value with the value representation `vr`, in the
/// record of a series.
pub open spec fn primitive_text(value: PrimitiveValue, vr: Seq<char>) -> Seq<char> {
    match value {
        PrimitiveValue::Strs { items, text } => if is_number_vr(vr) {
            numbers_text(texts(items@), text@)
        } else if items@.len() > 1 {
            array_or_text(json_string_array(texts(items@)), text@)
        } else {
            text@
        },
        PrimitiveValue::Numbers { numbers, text } => numbers_text(texts(numbers@), text@),
        PrimitiveValue::Other { text } => text@,
    }
}

/// The text of a list of numbers.
pub fn serialize_nums(items: &Vec<String>, text: &String) -> (r: String)
    ensures
        r@ == numbers_text(texts(items@), text@),
{
    if items.len() == 1 {
        return text.clone();
    }
    let mut r = String::new();
    r.push('[');
    push_str(&mut r, join_strings(items, ", ").as_str());
    r.push(']');
    assert(r@ == seq!['['] + separated(texts(items@), ", "@) + seq![']']) by {
        let a = Seq::<char>::empty().push('[');
        assert(a == seq!['[']);
        let m = separated(texts(items@), ", "@);
        assert((a + m).push(']') == a + m + seq![']']);
    }
    r
}

/// The text of a list of several strings, given what `serde_json` made of it.
pub fn serialize_strings(json: Result<String, serde_json::Error>, text: &String) -> (r: String)
    ensures
        r@ == match json {
            Ok(j) => j@,
            Err(e) => text@,
        },
{
    match json {
        Ok(j) => j,
        Err(_) => text.clone(),
    }
}

/// The text of a primitive value in the record of a series.
///
/// Lists of numbers are not left to the decoder's rendering, which writes
/// them as one string.
pub fn serialize_primitive(value: &PrimitiveValue, vr: &str) -> (r: String)
    ensures
        r@ == primitive_text(*value, vr@),
{
    match value {
        PrimitiveValue::Strs { items, text } => {
            if same_text(vr, "IS") || same_text(vr, "SS") || same_text(vr, "DS") {
                serialize_nums(items, text)
            } else if items.len() > 1 {
                serialize_strings(json_of_strings(items), text)
            } else {
                text.clone()
            }
        },
        PrimitiveValue::Numbers { numbers, text } => serialize_nums(numbers, text),
        PrimitiveValue::Other { text } => text.clone(),
    }
}

/// The line of a nested element whose attribute has the name `label`, if it
/// has one: tag, name, value representation and value.
pub open spec fn nested_line_with(ele: NestedElement, label: Option<Seq<char>>) -> Seq<char> {
    ele.tag.text() + seq![' '] + array_or_text(label, REPACK_ERROR@) + seq![' '] + ele.vr@ + ": "@
        + array_or_text(option_text(ele.text), REPACK_ERROR@)
}

/// The line of a nested element, with the name that the standard data
/// dictionary gives to its tag.
pub open spec fn nested_line(ele: NestedElement) -> Seq<char> {
    nested_line_with(ele, standard_alias(ele.tag.0, ele.tag.1))
}

/// The line of a nested element whose attribute has the name `label`. A name
/// or a value that is missing is replaced by [`REPACK_ERROR`].
pub fn nested_line_of(ele: &NestedElement, label: Option<String>) -> (r: String)
    ensures
        r@ == nested_line_with(*ele, option_text(label)),
{
    let mut r = ele.tag.to_string();
    r.push(' ');
    match &label {
        Some(label) => push_str(&mut r, label.as_str()),
        None => push_str(&mut r, REPACK_ERROR),
    }
    r.push(' ');
    push_str(&mut r, ele.vr.as_str());
    push_str(&mut r, ": ");
    match &ele.text {
        Some(value) => push_str(&mut r, value.as_str()),
        None => push_str(&mut r, REPACK_ERROR),
    }
    assert(r@ == nested_line_with(*ele, option_text(label))) by {
        let t = ele.tag.text();
        let l = array_or_text(option_text(label), REPACK_ERROR@);
        assert(t.push(' ') == t + seq![' ']);
        assert((t + seq![' '] + l).push(' ') == t + seq![' '] + l + seq![' ']);
    }
    r
}

/// The line of a nested element.
pub fn serialize_subdicom_element(ele: &NestedElement) -> (r: String)
    ensures
        r@ == nested_line(*ele),
{
    nested_line_of(ele, name_of(ele.tag))
}

/// The lines of the elements of one data set.
pub open spec fn data_set_lines(elements: Seq<NestedElement>) -> Seq<Seq<char>> {
    Seq::new(elements.len(), |i: int| nested_line(elements[i]))
}

/// The lines of the elements of all data sets, one data set after the other.
pub open spec fn sequence_lines(data_sets: Seq<Vec<NestedElement>>) -> Seq<Seq<char>>
    decreases data_sets.len(),
{
    if data_sets.len() == 0 {
        Seq::empty()
    } else {
        sequence_lines(data_sets.drop_last()) + data_set_lines(data_sets.last()@)
    }
}

/// The text of a sequence: the lines of its elements in square brackets, one
/// line per element.
pub open spec fn sequence_text(data_sets: Seq<Vec<NestedElement>>) -> Seq<char> {
    seq!['['] + separated(sequence_lines(data_sets), seq!['\n']) + seq![']']
}

/// The lines of the elements of one data set.
pub fn serialize_subdicom(dcm: &Vec<NestedElement>) -> (r: Vec<String>)
    ensures
        texts(r@) == data_set_lines(dcm@),
{
    let mut r: Vec<String> = Vec::new();
    let mut i: usize = 0;
    while i < dcm.len()
        invariant
            i <= dcm.len(),
            r@.len() == i,
            forall|k: int| 0 <= k < i ==> r@[k]@ == nested_line(dcm@[k]),
        decreases dcm.len() - i,
    {
        r.push(serialize_subdicom_element(&dcm[i]));
        i += 1;
    }
    assert(texts(r@) =~= data_set_lines(dcm@));
    r
}

/// The text of a sequence of nested data sets.
pub fn serialize_sequence(seq: &Vec<Vec<NestedElement>>) -> (r: String)
    ensures
        r@ == sequence_text(seq@),
{
    let mut lines: Vec<String> = Vec::new();
    let mut i: usize = 0;
    while i < seq.len()
        invariant
            i <= seq.len(),
            texts(lines@) == sequence_lines(seq@.take(i as int)),
        decreases seq.len() - i,
    {
        let mut part = serialize_subdicom(&seq[i]);
        let ghost before = lines@;
        let ghost added = part@;
        lines.append(&mut part);
        proof {
            assert(seq@.take(i + 1).drop_last() == seq@.take(i as int));
            assert(seq@.take(i + 1).last() == seq@[i as int]);
            assert(lines@ == before + added);
            assert(texts(before + added) =~= texts(before) + texts(added));
        }
        i += 1;
    }
    assert(seq@.take(seq.len() as int) == seq@);
    let mut r = String::new();
    r.push('[');
    push_str(&mut r, join_strings(&lines, "\n").as_str());
    r.push(']');
    assert(r@ == sequence_text(seq@)) by {
        reveal_strlit("\n");
        assert("\n"@ =~= seq!['\n']);
        let a = Seq::<char>::empty().push('[');
        assert(a == seq!['[']);
        let m = separated(sequence_lines(seq@), seq!['\n']);
        assert((a + m).push(']') == a + m + seq![']']);
    }
    r
}

/// The value of an element, with the name of its attribute.
#[derive(Debug)]
pub struct ValueAndLabel {
    pub value: String,
    pub label: String,
}

/// What a [`ValueAndLabel`] holds.
pub struct ValueAndLabelView {
    pub value: Seq<char>,
    pub label: Seq<char>,
}

impl View for ValueAndLabel {
    type V = ValueAndLabelView;

    open spec fn view(&self) -> ValueAndLabelView {
        ValueAndLabelView { value: self.value@, label: self.label@ }
    }
}

/// The text of the value of an element in the record of a series, where it
/// has one.
pub open spec fn value_text(ele: Element) -> Option<Seq<char>> {
    match ele.value {
        ElementValue::Primitive(value) => Some(primitive_text(value, ele.vr@)),
        ElementValue::Sequence(data_sets) => Some(sequence_text(data_sets@)),
        ElementValue::PixelSequence => None,
    }
}

/// The entry of an element whose attribute has the name `label`, if it has
/// one, or why the element has no entry: an attribute without a name is
/// unknown, and an element without a value text is left out.
pub open spec fn value_and_label_with(ele: Element, label: Option<Seq<char>>) -> Result<
    ValueAndLabelView,
    ElementSerializationError,
> {
    match label {
        None => Err(ElementSerializationError::UnknownTagError(ele.tag)),
        Some(label) => match value_text(ele) {
            None => Err(ElementSerializationError::Excluded(ele.tag)),
            Some(value) => Ok(ValueAndLabelView { value, label }),
        },
    }
}

/// The entry of an element in the record of a series, or why it has none,
/// with the name that the standard data dictionary gives to its tag.
pub open spec fn value_and_label(ele: Element) -> Result<
    ValueAndLabelView,
    ElementSerializationError,
> {
    value_and_label_with(ele, standard_alias(ele.tag.0, ele.tag.1))
}

/// The entry of an element whose attribute has the name `label`, if it has
/// one.
///
/// Without a name the tag is unknown. With a name, encapsulated pixel data is
/// left out, and every other element has an entry with that name and the
/// text of its value.
pub fn entry_with(ele: &Element, label: Option<String>) -> (r: Result<
    ValueAndLabel,
    ElementSerializationError,
>)
    ensures
        label is None ==> r == Err::<ValueAndLabel, ElementSerializationError>(
            ElementSerializationError::UnknownTagError(ele.tag),
        ),
        label is Some && value_text(*ele) is None ==> r == Err::<
            ValueAndLabel,
            ElementSerializationError,
        >(ElementSerializationError::Excluded(ele.tag)),
        label is Some && value_text(*ele) is Some ==> r is Ok && r->Ok_0@ == (ValueAndLabelView {
            value: value_text(*ele)->0,
            label: label->0@,
        }),
        match r {
            Ok(v) => value_and_label_with(*ele, option_text(label)) == Ok::<
                ValueAndLabelView,
                ElementSerializationError,
            >(v@),
            Err(e) => value_and_label_with(*ele, option_text(label)) == Err::<
                ValueAndLabelView,
                ElementSerializationError,
            >(e),
        },
{
    let label = match label {
        Some(label) => label,
        None => {
            return Err(ElementSerializationError::UnknownTagError(ele.tag));
        },
    };
    let value = match &ele.value {
        ElementValue::Primitive(value) => serialize_primitive(value, ele.vr.as_str()),
        ElementValue::Sequence(data_sets) => serialize_sequence(data_sets),
        ElementValue::PixelSequence => {
            return Err(ElementSerializationError::Excluded(ele.tag));
        },
    };
    Ok(ValueAndLabel { value, label })
}

impl ValueAndLabel {
    /// The entry of an element in the record of a series. An element whose
    /// tag the standard data dictionary does not know has none, nor has
    /// encapsulated pixel data.
    pub fn try_from(ele: &Element) -> (r: Result<Self, ElementSerializationError>)
        ensures
            match r {
                Ok(v) => value_and_label(*ele) == Ok::<
                    ValueAndLabelView,
                    ElementSerializationError,
                >(v@),
                Err(e) => value_and_label(*ele) == Err::<
                    ValueAndLabelView,
                    ElementSerializationError,
                >(e),
            },
    {
        entry_with(ele, name_of(ele.tag))
    }
}

/// The elements of a series by the name of their attribute, held in a
/// `hashbrown::HashMap`.
#[verifier::external_body]
pub struct DicomDump {
    inner: hashbrown::HashMap<String, ValueAndLabel>,
}

/// The entries that a dump holds, by the name of the attribute.
pub uninterp spec fn dump_contents(dump: DicomDump) -> Map<Seq<char>, ValueAndLabelView>;

impl View for DicomDump {
    type V = Map<Seq<char>, ValueAndLabelView>;

    open spec fn view(&self) -> Map<Seq<char>, ValueAndLabelView> {
        dump_contents(*self)
    }
}

/// The dump of no element.
pub open spec fn no_entries() -> Map<Seq<char>, ValueAndLabelView> {
    Map::empty()
}

/// `hashbrown::HashMap::new` makes a map that holds nothing.
#[verifier::external_body]
fn dump_new() -> (r: DicomDump)
    ensures
        dump_contents(r) == no_entries(),
{
    DicomDump { inner: hashbrown::HashMap::new() }
}

/// `hashbrown::HashMap::insert` puts the value under the key; a value that
/// stood under the same key is replaced. Strings are the same key when their
/// characters are the same.
#[verifier::external_body]
fn dump_insert(dump: &mut DicomDump, key: String, value: ValueAndLabel)
    ensures
        dump_contents(*final(dump)) == dump_contents(*old(dump)).insert(key@, value@),
{
    dump.inner.insert(key, value);
}

/// `hashbrown::HashMap::iter` visits each key once with its value, in an
/// order of its own choice; keys and values are handed out as copies.
#[verifier::external_body]
fn dump_entries(dump: &DicomDump) -> (r: Vec<(String, ValueAndLabel)>)
    ensures
        forall|i: int|
            0 <= i < r@.len() ==> dump_contents(*dump).contains_pair(
                (#[trigger] r@[i]).0@,
                r@[i].1@,
            ),
        forall|key: Seq<char>| #[trigger]
            dump_contents(*dump).contains_key(key) ==> exists|i: int|
                0 <= i < r@.len() && r@[i].0@ == key,
        forall|i: int, j: int| 0 <= i < j < r@.len() ==> r@[i].0@ != r@[j].0@,
{
    dump.inner.iter().map(
        |(key, v)| (key.clone(), ValueAndLabel { value: v.value.clone(), label: v.label.clone() }),
    ).collect()
}

/// The entries of the elements of a data set, by the name of the attribute.
/// Pixel data is left out, and so is every element that has no entry; of two
/// elements with one name the later one stays.
pub open spec fn dump_of(elements: Seq<Element>) -> Map<Seq<char>, ValueAndLabelView>
    decreases elements.len(),
{
    if elements.len() == 0 {
        Map::empty()
    } else {
        let before = dump_of(elements.drop_last());
        let ele = elements.last();
        if ele.tag == Attribute::PixelData.spec_tag() {
            before
        } else {
            match value_and_label(ele) {
                Ok(v) => before.insert(v.label, v),
                Err(e) => before,
            }
        }
    }
}

impl DicomDump {
    /// The entries of the elements of a data set.
    pub fn of(dcm: &DicomObject) -> (r: Self)
        ensures
            r@ == dump_of(dcm.elements@),
    {
        let mut r = dump_new();
        let mut i: usize = 0;
        while i < dcm.elements.len()
            invariant
                i <= dcm.elements.len(),
                dump_contents(r) == dump_of(dcm.elements@.take(i as int)),
            decreases dcm.elements.len() - i,
        {
            let ele = &dcm.elements[i];
            proof {
                assert(dcm.elements@.take(i + 1).drop_last() == dcm.elements@.take(i as int));
                assert(dcm.elements@.take(i + 1).last() == *ele);
            }
            if ele.tag != Attribute::PixelData.tag() {
                match ValueAndLabel::try_from(ele) {
                    Ok(v) => {
                        dump_insert(&mut r, v.label.clone(), v);
                    },
                    Err(_) => {},
                }
            }
            i += 1;
        }
        assert(dcm.elements@.take(dcm.elements.len() as int) == dcm.elements@);
        r
    }

    /// The entries of the dump with their keys, each once, in no particular
    /// order.
    pub fn entries(&self) -> (r: Vec<(String, ValueAndLabel)>)
        ensures
            forall|i: int|
                0 <= i < r@.len() ==> self@.contains_pair((#[trigger] r@[i]).0@, r@[i].1@),
            forall|key: Seq<char>| #[trigger]
                self@.contains_key(key) ==> exists|i: int| 0 <= i < r@.len() && r@[i].0@ == key,
            forall|i: int, j: int| 0 <= i < j < r@.len() ==> r@[i].0@ != r@[j].0@,
    {
        dump_entries(self)
    }
}

/// The record of a series in the directory of its study: where the series is
/// stored, and the elements of its first instance.
pub struct StudyDataSeriesMeta {
    pub SeriesInstanceUID: String,
    pub SeriesBaseDir: String,
    pub DICOM: DicomDump,
}

/// What a [`StudyDataSeriesMeta`] holds.
pub struct StudyDataSeriesMetaView {
    pub SeriesInstanceUID: Seq<char>,
    pub SeriesBaseDir: Seq<char>,
    pub DICOM: Map<Seq<char>, ValueAndLabelView>,
}

impl View for StudyDataSeriesMeta {
    type V = StudyDataSeriesMetaView;

    open spec fn view(&self) -> StudyDataSeriesMetaView {
        StudyDataSeriesMetaView {
            SeriesInstanceUID: self.SeriesInstanceUID@,
            SeriesBaseDir: self.SeriesBaseDir@,
            DICOM: self.DICOM@,
        }
    }
}

impl StudyDataSeriesMeta {
    /// The record of the series with the given UID, stored under
    /// `SeriesBaseDir`, whose first instance is `dcm`.
    pub fn new(SeriesInstanceUID: &str, SeriesBaseDir: &str, dcm: &DicomObject) -> (r: Self)
        ensures
            r@ == (StudyDataSeriesMetaView {
                SeriesInstanceUID: SeriesInstanceUID@,
                SeriesBaseDir: SeriesBaseDir@,
                DICOM: dump_of(dcm.elements@),
            }),
    {
        let DICOM = DicomDump::of(dcm);
        Self {
            SeriesInstanceUID: SeriesInstanceUID.to_owned(),
            SeriesBaseDir: SeriesBaseDir.to_owned(),
            DICOM,
        }
    }
}

} // verus!
