use vstd::prelude::*;

verus! {

/// One member value of a record object, as far as the record schema looks
/// into it: nested arrays and objects are never a valid record field.
#[derive(Debug, PartialEq, Eq)]
pub enum FieldValue {
    Null,
    Bool(bool),
    /// `unsigned` holds the value when it is a non-negative integer that fits
    /// in 64 bits; `text` is the number as serde_json writes it back out.
    Number { unsigned: Option<u64>, text: String },
    Text(String),
    Nested,
}

pub enum FieldView {
    Null,
    Bool(bool),
    Number { unsigned: Option<u64>, text: Seq<char> },
    Text(Seq<char>),
    Nested,
}

impl View for FieldValue {
    type V = FieldView;

    open spec fn view(&self) -> FieldView {
        match self {
            FieldValue::Null => FieldView::Null,
            FieldValue::Bool(b) => FieldView::Bool(*b),
            FieldValue::Number { unsigned, text } => FieldView::Number {
                unsigned: *unsigned,
                text: text@,
            },
            FieldValue::Text(t) => FieldView::Text(t@),
            FieldValue::Nested => FieldView::Nested,
        }
    }
}

/// The members of one record object, keyed by their wire names.
pub type Row = Vec<(String, FieldValue)>;

/// What serde_json reads from a text that holds a JSON array of objects, one
/// row per object with its members; `None` where the text is no such array.
pub uninterp spec fn rows_of(text: Seq<char>) -> Option<Vec<Row>>;

/// Relies on serde_json::from_str, read into a `Vec` of `serde_json::Map`:
/// the result depends on the text alone.  Each member value is taken apart by
/// its variant; a number keeps `Number::as_u64` and its `Display` text.
#[verifier::external_body]
pub(crate) fn parse_rows(text: &str) -> (r: Option<Vec<Row>>)
    ensures
        r == rows_of(text@),
{
    let objects: Vec<serde_json::Map<String, serde_json::Value>> = serde_json::from_str(text).ok()?;
    Some(objects.into_iter().map(|object| object.into_iter().map(|(key, value)| {
        let field = match value {
            serde_json::Value::Null => FieldValue::Null,
            serde_json::Value::Bool(b) => FieldValue::Bool(b),
            serde_json::Value::Number(n) => FieldValue::Number { unsigned: n.as_u64(), text: n.to_string() },
            serde_json::Value::String(s) => FieldValue::Text(s),
            serde_json::Value::Array(_) | serde_json::Value::Object(_) => FieldValue::Nested,
        };
        (key, field)
    }).collect()).collect())
}

/// The value of the first member named `key`.
pub open spec fn lookup(row: Seq<(String, FieldValue)>, key: Seq<char>) -> Option<FieldView>
    decreases row.len(),
{
    if row.len() == 0 {
        None
    } else if row[0].0@ == key {
        Some(row[0].1@)
    } else {
        lookup(row.subrange(1, row.len() as int), key)
    }
}

/// Index of the first member named `key`.
pub fn find_field(row: &Row, key: &str) -> (r: Option<usize>)
    ensures
        match r {
            Some(i) => i < row@.len() && lookup(row@, key@) == Some(row@[i as int].1@),
            None => lookup(row@, key@) is None,
        },
{
    let wanted = String::from_str(key);
    let n = row.len();
    assert(row@.subrange(0, n as int) =~= row@);
    for i in 0..n
        invariant
            n == row@.len(),
            wanted@ == key@,
            lookup(row@, key@) == lookup(row@.subrange(i as int, n as int), key@),
    {
        let ghost rest = row@.subrange(i as int, n as int);
        assert(rest.subrange(1, rest.len() as int) =~= row@.subrange(i + 1, n as int));
        if row[i].0 == wanted {
            return Some(i);
        }
    }
    None
}

} // verus!
