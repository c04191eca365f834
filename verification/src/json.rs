//! The little of JSON that the callback needs: the top-level fields of an
//! object, as text or as a list of numbers, and the quoting of one string.
//! Reading and writing JSON itself is left to `serde_json`.
use vstd::prelude::*;

verus! {

/// `serde_json`'s error, carried through as an opaque value.
#[verifier::external_type_specification]
#[verifier::external_body]
pub struct ExJsonError(serde_json::Error);

/// What a field of a JSON object holds, as far as this crate reads it.
#[derive(Debug, Clone, PartialEq, Eq)]
pub enum JsonField {
    /// A string.
    Text(String),
    /// An array; each item that is an integer in `0..=u64::MAX` is given
    /// as such, every other item as `None`.
    Items(Vec<Option<u64>>),
    /// Anything else.
    Other,
}

/// The mathematical content of a `JsonField`.
pub ghost enum FieldView {
    Text(Seq<char>),
    Items(Seq<Option<u64>>),
    Other,
}

impl View for JsonField {
    type V = FieldView;

    open spec fn view(&self) -> FieldView {
        match self {
            JsonField::Text(text) => FieldView::Text(text@),
            JsonField::Items(items) => FieldView::Items(items@),
            JsonField::Other => FieldView::Other,
        }
    }
}

impl DeepView for JsonField {
    type V = FieldView;

    open spec fn deep_view(&self) -> FieldView {
        self@
    }
}

/// One field of a JSON object: its name, what it holds, and its value
/// written out as JSON.
#[derive(Debug, Clone, PartialEq, Eq)]
pub struct JsonEntry {
    pub name: String,
    pub value: JsonField,
    pub json: String,
}

/// The mathematical content of a `JsonEntry`.
pub ghost struct EntryView {
    pub name: Seq<char>,
    pub value: FieldView,
    pub json: Seq<char>,
}

impl View for JsonEntry {
    type V = EntryView;

    open spec fn view(&self) -> EntryView {
        EntryView { name: self.name@, value: self.value@, json: self.json@ }
    }
}

impl DeepView for JsonEntry {
    type V = EntryView;

    open spec fn deep_view(&self) -> EntryView {
        self@
    }
}

/// The fields of the JSON object that `bytes` spell, in the order in which
/// `serde_json` keeps them; `None` where `bytes` are no JSON object.
pub uninterp spec fn json_object(bytes: Seq<u8>) -> Option<Seq<EntryView>>;

/// A string as a JSON string literal, quotes and escapes included, as
/// `serde_json` writes it.
pub uninterp spec fn json_string(text: Seq<char>) -> Seq<char>;

/// Parses `bytes` with `serde_json::from_slice` as a map from names to
/// values and hands out each entry with its value written out by
/// `Value`'s `Display`: a string as `Text`, an array as `Items` with each
/// item put through `Value::as_u64`, and the rest as `Other`. The contract
/// names the outcome and says that an error means no object.
#[verifier::external_body]
pub(crate) fn parse_json_object(bytes: &[u8]) -> (r: Result<Vec<JsonEntry>, serde_json::Error>)
    ensures
        match r {
            Ok(fields) => json_object(bytes@) == Some(fields.deep_view()),
            Err(_) => json_object(bytes@) is None,
        },
{
    let object: serde_json::Map<String, serde_json::Value> = serde_json::from_slice(bytes)?;
    Ok(object.into_iter().map(|(name, value)| JsonEntry {
        name,
        json: value.to_string(),
        value: match value {
            serde_json::Value::String(text) => JsonField::Text(text),
            serde_json::Value::Array(items) => JsonField::Items(items.iter().map(|item| item.as_u64()).collect()),
            serde_json::Value::Null => JsonField::Other,
            serde_json::Value::Bool(_) => JsonField::Other,
            serde_json::Value::Number(_) => JsonField::Other,
            serde_json::Value::Object(_) => JsonField::Other,
        },
    }).collect())
}

/// Writes `text` as a JSON string literal, by the `Display` of a
/// `serde_json::Value` that holds it. The contract names the outcome.
#[verifier::external_body]
pub(crate) fn quote_json(text: &str) -> (quoted: String)
    ensures
        quoted@ == json_string(text@),
{
    serde_json::Value::from(text).to_string()
}

/// The first field called `name`.
pub open spec fn field_of(fields: Seq<EntryView>, name: Seq<char>) -> Option<FieldView>
    decreases fields.len(),
{
    if fields.len() == 0 {
        None
    } else if fields[0].name == name {
        Some(fields[0].value)
    } else {
        field_of(fields.drop_first(), name)
    }
}

/// The field `name` where it is a string.
pub open spec fn text_of(fields: Seq<EntryView>, name: Seq<char>) -> Option<Seq<char>> {
    match field_of(fields, name) {
        Some(FieldView::Text(text)) => Some(text),
        _ => None,
    }
}

/// Whether every item is an integer that fits a byte.
pub open spec fn all_bytes(items: Seq<Option<u64>>) -> bool {
    forall|i: int| 0 <= i < items.len() ==> (#[trigger] items[i]) is Some && items[i].unwrap() <= 255
}

/// The items as bytes, where each is one.
pub open spec fn bytes_of_items(items: Seq<Option<u64>>) -> Option<Seq<u8>> {
    if all_bytes(items) {
        Some(Seq::new(items.len(), |i: int| items[i].unwrap() as u8))
    } else {
        None
    }
}

/// The field `name` where it is an array of bytes.
pub open spec fn bytes_of(fields: Seq<EntryView>, name: Seq<char>) -> Option<Seq<u8>> {
    match field_of(fields, name) {
        Some(FieldView::Items(items)) => bytes_of_items(items),
        _ => None,
    }
}

/// Position of the first field called `name`.
fn find_field(fields: &Vec<JsonEntry>, name: &str) -> (at: Option<usize>)
    ensures
        match at {
            Some(i) => i < fields.len() && field_of(fields.deep_view(), name@) == Some(
                fields@[i as int].value@,
            ),
            None => field_of(fields.deep_view(), name@) is None,
        },
{
    let ghost all = fields.deep_view();
    let mut i: usize = 0;
    assert(all.skip(0) =~= all);
    while i < fields.len()
        invariant
            i <= fields.len(),
            all == fields.deep_view(),
            field_of(all, name@) == field_of(all.skip(i as int), name@),
        decreases fields.len() - i,
    {
        proof {
            assert(all.skip(i as int).drop_first() =~= all.skip(i as int + 1));
        }
        if crate::text::str_eq(fields[i].name.as_str(), name) {
            return Some(i);
        }
        i += 1;
    }
    None
}

/// The string in the field `name`.
pub fn text_field(fields: &Vec<JsonEntry>, name: &str) -> (r: Option<String>)
    ensures
        match r {
            Some(text) => text_of(fields.deep_view(), name@) == Some(text@),
            None => text_of(fields.deep_view(), name@) is None,
        },
{
    match find_field(fields, name) {
        Some(i) => match &fields[i].value {
            JsonField::Text(text) => Some(text.clone()),
            _ => None,
        },
        None => None,
    }
}

/// The items as bytes, if each is an integer from 0 to 255.
pub fn bytes_from_items(items: &Vec<Option<u64>>) -> (r: Option<Vec<u8>>)
    ensures
        match r {
            Some(bytes) => bytes_of_items(items@) == Some(bytes@),
            None => bytes_of_items(items@) is None,
        },
{
    let mut bytes: Vec<u8> = Vec::new();
    let mut i: usize = 0;
    while i < items.len()
        invariant
            i <= items.len(),
            bytes.len() == i,
            forall|j: int|
                0 <= j < i ==> (#[trigger] items@[j]) is Some && items@[j].unwrap() <= 255
                    && bytes@[j] == items@[j].unwrap() as u8,
        decreases items.len() - i,
    {
        match items[i] {
            Some(n) => {
                if n > 255 {
                    return None;
                }
                bytes.push(n as u8);
            },
            None => {
                return None;
            },
        }
        i += 1;
    }
    proof {
        assert(bytes@ =~= Seq::new(items@.len(), |i: int| items@[i].unwrap() as u8));
    }
    Some(bytes)
}

/// The bytes in the field `name`.
pub fn bytes_field(fields: &Vec<JsonEntry>, name: &str) -> (r: Option<Vec<u8>>)
    ensures
        match r {
            Some(bytes) => bytes_of(fields.deep_view(), name@) == Some(bytes@),
            None => bytes_of(fields.deep_view(), name@) is None,
        },
{
    match find_field(fields, name) {
        Some(i) => match &fields[i].value {
            JsonField::Items(items) => bytes_from_items(items),
            _ => None,
        },
        None => None,
    }
}

} // verus!
