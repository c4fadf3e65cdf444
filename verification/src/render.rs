//! The renderers that other crates provide: timestamps, the bordered grid, CSV
//! records and pretty-printed JSON. Nothing in this file is proved; each
//! contract says what the named crate is relied on to do.

use vstd::prelude::*;

verus! {

/// A JSON object as serde_json holds it.
pub type JsonObject = serde_json::Map<String, serde_json::Value>;

/// A JSON value that is no array and no object.
pub enum JsonScalar {
    Null,
    Bool(bool),
    /// A whole number.
    Int(int),
    /// A number that is not whole, by the digits that stand for it.
    Real(Seq<char>),
    Text(Seq<char>),
}

/// prettytable's table, which only prettytable looks into.
#[verifier::external_type_specification]
#[verifier::external_body]
pub struct ExTable(prettytable::Table);

/// serde_json's value, which only serde_json looks into.
#[verifier::external_type_specification]
#[verifier::external_body]
pub struct ExJsonValue(serde_json::Value);

/// serde_json's map, which only serde_json looks into.
#[verifier::external_type_specification]
#[verifier::external_body]
#[verifier::reject_recursive_types(K)]
#[verifier::reject_recursive_types(V)]
pub struct ExJsonMap<K, V>(serde_json::Map<K, V>);

/// The pattern under which timestamps are written: date and time of day
/// with `T` between them, six digits for the fraction of the second, and
/// `Z` at the end.
pub open spec fn timestamp_pattern() -> Seq<char> {
    "%Y-%m-%dT%H:%M:%S%.6fZ"@
}

/// The text that chrono gives to the instant `micros` microseconds after the
/// Unix epoch under a pattern, or `None` where chrono has no date for that
/// instant.
pub uninterp spec fn timestamp_text(micros: i64, pattern: Seq<char>) -> Option<Seq<char>>;

/// The lines that prettytable keeps of the text of a cell: the text is cut
/// at its line breaks, and a line break at its end adds no line.
pub uninterp spec fn cell_lines(text: Seq<char>) -> Seq<Seq<char>>;

/// The rows that a table holds, in the order in which they were added: for
/// each row its cells, for each cell its lines.
pub uninterp spec fn table_rows(t: prettytable::Table) -> Seq<Seq<Seq<Seq<char>>>>;

/// The table has prettytable's default format, no title row, and only cells
/// with the default alignment and style.
pub uninterp spec fn table_is_plain(t: prettytable::Table) -> bool;

/// The bordered grid that prettytable prints for a plain table with the given
/// rows, or `None` where printing fails.
pub uninterp spec fn grid_text(rows: Seq<Seq<Seq<Seq<char>>>>) -> Option<Seq<char>>;

/// The character that begins an escape sequence of a terminal.
pub open spec fn escape_char() -> char {
    '\u{1b}'
}

/// The text holds no escape character.
pub open spec fn has_no_escape(text: Seq<char>) -> bool {
    forall|k: int| 0 <= k < text.len() ==> text[k] != escape_char()
}

/// None of the texts holds an escape character.
pub open spec fn no_escape_in(cells: Seq<Seq<char>>) -> bool {
    forall|i: int| 0 <= i < cells.len() ==> has_no_escape(#[trigger] cells[i])
}

/// The line that the csv crate writes for one record with the given fields,
/// terminator included, or `None` where writing fails.
pub uninterp spec fn csv_record_text(fields: Seq<Seq<char>>) -> Option<Seq<char>>;

/// The entries of a JSON object.
pub uninterp spec fn json_entries(m: JsonObject) -> Map<Seq<char>, JsonScalar>;

/// The number that serde_json reads from a decimal text, whole or not, or
/// `None` where the text is no JSON number.
pub uninterp spec fn json_number_of(text: Seq<char>) -> Option<JsonScalar>;

/// The entries of an object after a number was read from `text` and put
/// under `key`, where `text` is a number; the entries as they were where it
/// is none.
pub open spec fn with_number(
    entries: Map<Seq<char>, JsonScalar>,
    key: Seq<char>,
    text: Seq<char>,
) -> Map<Seq<char>, JsonScalar> {
    match json_number_of(text) {
        Some(number) => entries.insert(key, number),
        None => entries,
    }
}

/// The text that serde_json's pretty printer gives to an array of objects, or
/// `None` where serialising fails.
pub uninterp spec fn json_array_text(objects: Seq<Map<Seq<char>, JsonScalar>>) -> Option<Seq<char>>;

/// The entries of an object that holds none.
pub open spec fn no_entries() -> Map<Seq<char>, JsonScalar> {
    Map::empty()
}

/// The entries of each object of `objects`, in order.
pub open spec fn json_objects(objects: Seq<JsonObject>) -> Seq<Map<Seq<char>, JsonScalar>> {
    Seq::new(objects.len(), |i: int| json_entries(objects[i]))
}

/// `chrono::DateTime::from_timestamp_micros`, then `NaiveDateTime::format`
/// with the given pattern: the result depends on `micros` and the pattern
/// alone, and is `None` exactly where chrono has no date for the instant.
/// Only the one pattern is admitted, which chrono accepts.
#[verifier::external_body]
pub(crate) fn format_timestamp(micros: i64, pattern: &str) -> (r: Option<String>)
    requires
        pattern@ == timestamp_pattern(),
    ensures
        r.deep_view() == timestamp_text(micros, pattern@),
{
    match chrono::DateTime::from_timestamp_micros(micros) {
        Some(t) => Some(t.naive_utc().format(pattern).to_string()),
        None => None,
    }
}

/// `prettytable::Table::new`: an empty table with the default format.
#[verifier::external_body]
pub(crate) fn table_new() -> (t: prettytable::Table)
    ensures
        table_rows(t) == Seq::<Seq<Seq<Seq<char>>>>::empty(),
        table_is_plain(t),
{
    prettytable::Table::new()
}

/// `prettytable::Table::add_row` with one `Cell::new` for each text: the row
/// is appended behind those that the table holds, each cell as the lines
/// that `Cell::new` keeps of its text. A text with an escape character is
/// not admitted: measuring its width can fail inside `Cell::new`.
#[verifier::external_body]
pub(crate) fn table_add_row(t: &mut prettytable::Table, cells: &Vec<String>)
    requires
        table_is_plain(*old(t)),
        no_escape_in(cells.deep_view()),
    ensures
        table_rows(*final(t)) == table_rows(*old(t)).push(
            Seq::new(cells.len() as nat, |i: int| cell_lines(cells@[i]@)),
        ),
        table_is_plain(*final(t)),
{
    t.add_row(prettytable::Row::new(cells.iter().map(|c| prettytable::Cell::new(c)).collect()));
}

/// `prettytable::Table::print` into a buffer: for a plain table the text
/// depends on the cells alone.
#[verifier::external_body]
pub(crate) fn table_print(t: &prettytable::Table) -> (r: Option<String>)
    requires
        table_is_plain(*t),
    ensures
        r.deep_view() == grid_text(table_rows(*t)),
{
    let mut out: Vec<u8> = Vec::new();
    match t.print(&mut out) {
        Ok(_) => String::from_utf8(out).ok(),
        Err(_) => None,
    }
}

/// `csv::Writer::write_record` on a writer of its own with the default
/// settings: the line depends on the fields alone.
#[verifier::external_body]
pub(crate) fn csv_record(fields: &Vec<String>) -> (r: Option<String>)
    ensures
        r.deep_view() == csv_record_text(fields.deep_view()),
{
    let mut w = csv::WriterBuilder::new().has_headers(true).from_writer(Vec::new());
    if w.write_record(fields.iter()).is_err() {
        return None;
    }
    match w.into_inner() {
        Ok(bytes) => String::from_utf8(bytes).ok(),
        Err(_) => None,
    }
}

/// `serde_json::Map::new`: an object without entries.
#[verifier::external_body]
pub(crate) fn json_object_new() -> (m: JsonObject)
    ensures
        json_entries(m) == no_entries(),
{
    serde_json::Map::new()
}

/// `serde_json::Map::insert` of a null: the entry replaces one with the same key.
#[verifier::external_body]
pub(crate) fn json_insert_null(m: &mut JsonObject, key: &str)
    ensures
        json_entries(*final(m)) == json_entries(*old(m)).insert(key@, JsonScalar::Null),
{
    m.insert(key.to_string(), serde_json::Value::Null);
}

/// `serde_json::Map::insert` of a boolean.
#[verifier::external_body]
pub(crate) fn json_insert_bool(
    m: &mut JsonObject,
    key: &str,
    value: bool,
)
    ensures
        json_entries(*final(m)) == json_entries(*old(m)).insert(key@, JsonScalar::Bool(value)),
{
    m.insert(key.to_string(), serde_json::Value::from(value));
}

/// `serde_json::Map::insert` of a 32-bit integer.
#[verifier::external_body]
pub(crate) fn json_insert_int(
    m: &mut JsonObject,
    key: &str,
    value: i32,
)
    ensures
        json_entries(*final(m)) == json_entries(*old(m)).insert(
            key@,
            JsonScalar::Int(value as int),
        ),
{
    m.insert(key.to_string(), serde_json::Value::from(value));
}

/// `serde_json::Map::insert` of a string.
#[verifier::external_body]
pub(crate) fn json_insert_text(
    m: &mut JsonObject,
    key: &str,
    value: &str,
)
    ensures
        json_entries(*final(m)) == json_entries(*old(m)).insert(key@, JsonScalar::Text(value@)),
{
    m.insert(key.to_string(), serde_json::Value::from(value));
}

/// `serde_json::Number::from_str`, then `serde_json::Map::insert` of the
/// number that was read. Where the text is no number, nothing is inserted.
/// The result tells whether a number was read.
#[verifier::external_body]
pub(crate) fn json_insert_number(m: &mut JsonObject, key: &str, text: &str) -> (inserted: bool)
    ensures
        inserted == json_number_of(text@).is_some(),
        json_entries(*final(m)) == with_number(json_entries(*old(m)), key@, text@),
{
    match text.parse::<serde_json::Number>() {
        Ok(n) => {
            m.insert(key.to_string(), serde_json::Value::Number(n));
            true
        },
        Err(_) => false,
    }
}

/// `serde_json::to_string_pretty` on an array of objects: the text depends on
/// the entries of the objects alone, which the printer walks in key order.
#[verifier::external_body]
pub(crate) fn json_pretty(objects: &Vec<JsonObject>) -> (r: Option<String>)
    ensures
        r.deep_view() == json_array_text(json_objects(objects@)),
{
    match serde_json::to_string_pretty(objects) {
        Ok(text) => Some(text),
        Err(_) => None,
    }
}

} // verus!
