//! Result sets and their five textual forms.

use crate::render::{
    cell_lines, csv_record, csv_record_text, escape_char, format_timestamp, grid_text,
    has_no_escape, json_array_text, json_entries, json_insert_bool, json_insert_int,
    json_insert_null, json_insert_number, json_insert_text, json_number_of, json_object_new,
    json_objects, json_pretty, no_entries, no_escape_in, table_add_row, table_is_plain,
    table_new, table_print, table_rows, timestamp_pattern, timestamp_text, JsonObject,
    JsonScalar,
};
use crate::text::{
    decimal_text, i32_text, is_whole, is_whole_number, lowercase_of, nat_digits, push_decimal,
    str_eq, to_chars,
};
use vstd::prelude::*;
use vstd::string::*;

verus! {

/// The textual forms in which a result set can be shown.
#[derive(Clone, Copy, Debug, PartialEq, Eq, Structural)]
pub enum OutputFormat {
    Table,
    Csv,
    Json,
    Vertical,
    Record,
}

/// The server types that the formatter tells apart.
#[derive(Clone, Copy, Debug, PartialEq, Eq, Structural)]
pub enum TypeTag {
    Timestamp,
    TimestampTz,
    Double,
    Varchar,
    Boolean,
    Int32,
    /// Any type that the formatter cannot show.
    Other,
}

/// What the server says of one column of a result set.
#[derive(Clone, Debug, PartialEq, Eq)]
pub struct Column {
    pub name: String,
    pub type_tag: TypeTag,
}

/// A value that is not null.
#[derive(Clone, Debug, PartialEq, Eq)]
pub enum Datum {
    /// Microseconds since the Unix epoch.
    Timestamp(i64),
    /// A double, held as its shortest decimal text.
    Double(String),
    Varchar(String),
    Boolean(bool),
    Int32(i32),
    /// A value of a type that the formatter cannot show.
    Opaque,
}

/// One row of a result set: a value or a null for each column, in the order
/// of the columns.
#[derive(Clone, Debug, PartialEq, Eq)]
pub struct Row {
    pub values: Vec<Option<Datum>>,
}

/// Why a single cell cannot be shown.
#[derive(Clone, Copy, Debug, PartialEq, Eq, Structural)]
pub enum CellError {
    /// The row has no value at that position.
    Missing,
    /// The value is not of the column's type.
    WrongType,
    /// The timestamp lies outside the range of dates.
    TimestampRange,
}

/// Why a result set cannot be shown.
#[derive(Clone, Copy, Debug, PartialEq, Eq, Structural)]
pub enum FormatError {
    /// The row with this index does not hold one value for each column.
    RowWidth { row: usize },
    /// The value at this position is not of its column's type.
    WrongType { row: usize, column: usize },
    /// The timestamp at this position lies outside the range of dates.
    TimestampRange { row: usize, column: usize },
    /// The renderer that lays out the text reported a failure.
    Renderer,
}

/// A `Column` as the contracts speak of it, with texts as sequences of
/// characters.
pub struct ColumnView {
    pub name: Seq<char>,
    pub type_tag: TypeTag,
}

/// A `Datum` as the contracts speak of it, with texts as sequences of
/// characters.
pub enum DatumView {
    Timestamp(i64),
    Double(Seq<char>),
    Varchar(Seq<char>),
    Boolean(bool),
    Int32(i32),
    Opaque,
}

/// A row as the contracts speak of it: a value or a null for each column.
pub type RowView = Seq<Option<DatumView>>;

/// The text of a result set, or the reason why it has none.
pub type Formatted = Result<Seq<char>, FormatError>;

impl DeepView for Column {
    type V = ColumnView;

    open spec fn deep_view(&self) -> ColumnView {
        ColumnView { name: self.name@, type_tag: self.type_tag }
    }
}

impl View for Column {
    type V = ColumnView;

    open spec fn view(&self) -> ColumnView {
        self.deep_view()
    }
}

impl DeepView for Datum {
    type V = DatumView;

    open spec fn deep_view(&self) -> DatumView {
        match self {
            Datum::Timestamp(micros) => DatumView::Timestamp(*micros),
            Datum::Double(text) => DatumView::Double(text@),
            Datum::Varchar(text) => DatumView::Varchar(text@),
            Datum::Boolean(b) => DatumView::Boolean(*b),
            Datum::Int32(i) => DatumView::Int32(*i),
            Datum::Opaque => DatumView::Opaque,
        }
    }
}

impl View for Datum {
    type V = DatumView;

    open spec fn view(&self) -> DatumView {
        self.deep_view()
    }
}

impl DeepView for Row {
    type V = RowView;

    open spec fn deep_view(&self) -> RowView {
        self.values.deep_view()
    }
}

impl View for Row {
    type V = RowView;

    open spec fn view(&self) -> RowView {
        self.deep_view()
    }
}

/// A text or an error, with the text taken as its characters.
pub open spec fn text_result<E>(r: Result<String, E>) -> Result<Seq<char>, E> {
    match r {
        Ok(text) => Ok(text@),
        Err(e) => Err(e),
    }
}

impl OutputFormat {
    /// The name by which the format is chosen and reported.
    pub open spec fn name(self) -> Seq<char> {
        match self {
            OutputFormat::Table => "table"@,
            OutputFormat::Csv => "csv"@,
            OutputFormat::Json => "json"@,
            OutputFormat::Vertical => "vertical"@,
            OutputFormat::Record => "record"@,
        }
    }

    /// The format that a name in lower case stands for.
    pub open spec fn named(lower: Seq<char>) -> Option<OutputFormat> {
        if lower == "table"@ {
            Some(OutputFormat::Table)
        } else if lower == "csv"@ {
            Some(OutputFormat::Csv)
        } else if lower == "json"@ {
            Some(OutputFormat::Json)
        } else if lower == "vertical"@ {
            Some(OutputFormat::Vertical)
        } else if lower == "record"@ {
            Some(OutputFormat::Record)
        } else {
            None
        }
    }

    /// The format that a name stands for in any mix of cases; `Table` where
    /// the name is not known.
    pub open spec fn of_name(s: Seq<char>) -> OutputFormat {
        match Self::named(lowercase_of(s)) {
            Some(format) => format,
            None => OutputFormat::Table,
        }
    }

    /// The format needs the whole result set before it can print anything.
    pub open spec fn spec_needs_full_set(&self) -> bool {
        *self == OutputFormat::Table || *self == OutputFormat::Csv || *self == OutputFormat::Json
    }

    /// The name by which the format is chosen and reported.
    pub fn as_str(&self) -> (r: &'static str)
        ensures
            r@ == self.name(),
    {
        match self {
            OutputFormat::Table => "table",
            OutputFormat::Csv => "csv",
            OutputFormat::Json => "json",
            OutputFormat::Vertical => "vertical",
            OutputFormat::Record => "record",
        }
    }

    /// Looks a format up by its name, which must be in lower case.
    pub fn from_lowercase(lower: &str) -> (r: Option<OutputFormat>)
        ensures
            r == Self::named(lower@),
    {
        if str_eq(lower, "table") {
            Some(OutputFormat::Table)
        } else if str_eq(lower, "csv") {
            Some(OutputFormat::Csv)
        } else if str_eq(lower, "json") {
            Some(OutputFormat::Json)
        } else if str_eq(lower, "vertical") {
            Some(OutputFormat::Vertical)
        } else if str_eq(lower, "record") {
            Some(OutputFormat::Record)
        } else {
            None
        }
    }

    /// Looks a format up by its name in any mix of cases; `None` where the
    /// name is not known.
    pub fn parse(s: &str) -> (r: Option<OutputFormat>)
        ensures
            r == Self::named(lowercase_of(s@)),
    {
        let lower = s.to_lowercase();
        Self::from_lowercase(lower.as_str())
    }

    /// Looks a format up by its name in any mix of cases, and falls back to
    /// `Table` where the name is not known.
    pub fn from_str(s: &str) -> (r: OutputFormat)
        ensures
            r == Self::of_name(s@),
    {
        match Self::parse(s) {
            Some(format) => format,
            None => OutputFormat::Table,
        }
    }

    /// Tells whether the format needs the whole result set before it can print
    /// anything.
    #[verifier::when_used_as_spec(spec_needs_full_set)]
    pub fn needs_full_set(&self) -> (r: bool)
        ensures
            r == self.spec_needs_full_set(),
    {
        match self {
            OutputFormat::Table | OutputFormat::Csv | OutputFormat::Json => true,
            OutputFormat::Vertical | OutputFormat::Record => false,
        }
    }
}

/// The text of one cell in the table, csv, vertical and record forms.
pub open spec fn cell_text(tag: TypeTag, cell: Option<DatumView>) -> Result<Seq<char>, CellError> {
    match cell {
        None => Ok("NULL"@),
        Some(value) => match tag {
            TypeTag::Timestamp | TypeTag::TimestampTz => match value {
                DatumView::Timestamp(micros) => timestamp_cell_text(
                    timestamp_text(micros, timestamp_pattern()),
                ),
                _ => Err(CellError::WrongType),
            },
            TypeTag::Double => match value {
                DatumView::Double(text) => Ok(text),
                _ => Err(CellError::WrongType),
            },
            TypeTag::Varchar => match value {
                DatumView::Varchar(text) => Ok(text),
                _ => Err(CellError::WrongType),
            },
            TypeTag::Boolean => match value {
                DatumView::Boolean(b) => Ok(
                    if b {
                        "true"@
                    } else {
                        "false"@
                    },
                ),
                _ => Err(CellError::WrongType),
            },
            TypeTag::Int32 => match value {
                DatumView::Int32(i) => Ok(decimal_text(i as int)),
                _ => Err(CellError::WrongType),
            },
            TypeTag::Other => Ok("Unsupported Type"@),
        },
    }
}

/// The text of the cell at position `i` of `row`, under a column of type `tag`.
pub open spec fn column_value(row: RowView, tag: TypeTag, i: int) -> Result<Seq<char>, CellError> {
    if 0 <= i < row.len() {
        cell_text(tag, row[i])
    } else {
        Err(CellError::Missing)
    }
}

/// A cell's error, with the place of the cell.
pub open spec fn located(e: CellError, row: int, column: int) -> FormatError {
    match e {
        CellError::Missing => FormatError::RowWidth { row: row as usize },
        CellError::WrongType => FormatError::WrongType {
            row: row as usize,
            column: column as usize,
        },
        CellError::TimestampRange => FormatError::TimestampRange {
            row: row as usize,
            column: column as usize,
        },
    }
}

/// The names of the columns, in order.
pub open spec fn column_names(columns: Seq<ColumnView>) -> Seq<Seq<char>> {
    Seq::new(columns.len(), |i: int| columns[i].name)
}

/// The texts of the first `n` cells of the row with index `r`, or the error
/// of the first of them that cannot be shown.
pub open spec fn row_texts(
    columns: Seq<ColumnView>,
    row: RowView,
    r: int,
    n: int,
) -> Result<Seq<Seq<char>>, FormatError>
    decreases n,
{
    if n <= 0 {
        Ok(Seq::empty())
    } else {
        match row_texts(columns, row, r, n - 1) {
            Err(e) => Err(e),
            Ok(done) => match cell_text(columns[n - 1].type_tag, row[n - 1]) {
                Ok(text) => Ok(done.push(text)),
                Err(e) => Err(located(e, r, n - 1)),
            },
        }
    }
}

/// The texts of a row that could be shown.
pub open spec fn row_shown(texts: Seq<Seq<char>>) -> Result<Seq<Seq<char>>, FormatError> {
    Ok(texts)
}

/// The texts of the cells of the row with index `r`, which must hold one value
/// for each column.
pub open spec fn checked_row_texts(
    columns: Seq<ColumnView>,
    row: RowView,
    r: int,
) -> Result<Seq<Seq<char>>, FormatError> {
    if row.len() != columns.len() {
        Err(FormatError::RowWidth { row: r as usize })
    } else {
        row_texts(columns, row, r, columns.len() as int)
    }
}

/// The texts of the cells of the first `n` rows, or the error of the first
/// row, and in it of the first cell, that cannot be shown.
pub open spec fn matrix_texts(
    columns: Seq<ColumnView>,
    rows: Seq<RowView>,
    n: int,
) -> Result<Seq<Seq<Seq<char>>>, FormatError>
    decreases n,
{
    if n <= 0 {
        Ok(Seq::empty())
    } else {
        match matrix_texts(columns, rows, n - 1) {
            Err(e) => Err(e),
            Ok(done) => match checked_row_texts(columns, rows[n - 1], n - 1) {
                Ok(texts) => Ok(done.push(texts)),
                Err(e) => Err(e),
            },
        }
    }
}

/// Once a cell of a row cannot be shown, the error stays as more cells are
/// taken in.
pub proof fn lemma_row_error_stays(
    columns: Seq<ColumnView>,
    row: RowView,
    r: int,
    k: int,
    n: int,
)
    requires
        0 <= k <= n,
        row_texts(columns, row, r, k) is Err,
    ensures
        row_texts(columns, row, r, n) == row_texts(columns, row, r, k),
    decreases n - k,
{
    if k < n {
        lemma_row_error_stays(columns, row, r, k, n - 1);
    }
}

/// Once a row cannot be shown, the error stays as more rows are taken in.
pub proof fn lemma_matrix_error_stays(
    columns: Seq<ColumnView>,
    rows: Seq<RowView>,
    k: int,
    n: int,
)
    requires
        0 <= k <= n,
        matrix_texts(columns, rows, k) is Err,
    ensures
        matrix_texts(columns, rows, n) == matrix_texts(columns, rows, k),
    decreases n - k,
{
    if k < n {
        lemma_matrix_error_stays(columns, rows, k, n - 1);
    }
}

/// The text of a timestamp from what the calendar made of it: the text, or
/// the error that the timestamp lies outside the range of dates.
pub open spec fn timestamp_cell_text(made: Option<Seq<char>>) -> Result<Seq<char>, CellError> {
    match made {
        Some(text) => Ok(text),
        None => Err(CellError::TimestampRange),
    }
}

/// The text of a timestamp from what the calendar made of it.
pub fn timestamp_cell(made: Option<String>) -> (r: Result<String, CellError>)
    ensures
        text_result(r) == timestamp_cell_text(made.deep_view()),
{
    match made {
        Some(text) => Ok(text),
        None => Err(CellError::TimestampRange),
    }
}

/// Renders the value at position `i` of `row` as a column of `column`'s type
/// shows it: a null as `NULL`, a value of a type that cannot be shown as
/// `Unsupported Type`.
pub fn get_column_value(row: &Row, column: &Column, i: usize) -> (r: Result<String, CellError>)
    ensures
        text_result(r) == column_value(row.deep_view(), column.type_tag, i as int),
{
    if i >= row.values.len() {
        return Err(CellError::Missing);
    }
    assert(row.deep_view()[i as int] == row.values@[i as int].deep_view());
    match &row.values[i] {
        None => Ok(String::from_str("NULL")),
        Some(value) => match column.type_tag {
            TypeTag::Timestamp | TypeTag::TimestampTz => match value {
                Datum::Timestamp(micros) => timestamp_cell(
                    format_timestamp(*micros, "%Y-%m-%dT%H:%M:%S%.6fZ"),
                ),
                _ => Err(CellError::WrongType),
            },
            TypeTag::Double => match value {
                Datum::Double(text) => Ok(text.clone()),
                _ => Err(CellError::WrongType),
            },
            TypeTag::Varchar => match value {
                Datum::Varchar(text) => Ok(text.clone()),
                _ => Err(CellError::WrongType),
            },
            TypeTag::Boolean => match value {
                Datum::Boolean(b) => Ok(
                    String::from_str(
                        if *b {
                            "true"
                        } else {
                            "false"
                        },
                    ),
                ),
                _ => Err(CellError::WrongType),
            },
            TypeTag::Int32 => match value {
                Datum::Int32(i) => Ok(i32_text(*i)),
                _ => Err(CellError::WrongType),
            },
            TypeTag::Other => Ok(String::from_str("Unsupported Type")),
        },
    }
}

/// Gives a cell's error the place of the cell.
pub fn locate(e: CellError, row: usize, column: usize) -> (r: FormatError)
    ensures
        r == located(e, row as int, column as int),
{
    match e {
        CellError::Missing => FormatError::RowWidth { row },
        CellError::WrongType => FormatError::WrongType { row, column },
        CellError::TimestampRange => FormatError::TimestampRange { row, column },
    }
}

/// The names of the columns, in order.
pub fn names_of(columns: &Vec<Column>) -> (names: Vec<String>)
    ensures
        names.deep_view() == column_names(columns.deep_view()),
{
    let mut names: Vec<String> = Vec::new();
    let mut i: usize = 0;
    while i < columns.len()
        invariant
            i <= columns.len(),
            names.len() == i,
            forall|k: int| 0 <= k < i ==> names@[k]@ == columns@[k].name@,
        decreases columns.len() - i,
    {
        names.push(columns[i].name.clone());
        i += 1;
    }
    assert(names.deep_view() =~= column_names(columns.deep_view()));
    names
}

/// Renders the cells of the row with index `r`.
pub fn row_cells(
    columns: &Vec<Column>,
    row: &Row,
    r: usize,
) -> (out: Result<Vec<String>, FormatError>)
    ensures
        match checked_row_texts(columns.deep_view(), row.deep_view(), r as int) {
            Ok(texts) => out is Ok && out->Ok_0.deep_view() == texts,
            Err(e) => out == Err::<Vec<String>, FormatError>(e),
        },
        out is Ok ==> out->Ok_0.len() == columns.len(),
{
    if row.values.len() != columns.len() {
        return Err(FormatError::RowWidth { row: r });
    }
    let mut cells: Vec<String> = Vec::new();
    let mut i: usize = 0;
    while i < columns.len()
        invariant
            i <= columns.len(),
            cells.len() == i,
            row.values.len() == columns.len(),
            row_texts(columns.deep_view(), row.deep_view(), r as int, i as int) is Ok,
            row_texts(columns.deep_view(), row.deep_view(), r as int, i as int)->Ok_0
                == cells.deep_view(),
        decreases columns.len() - i,
    {
        let ghost before = cells.deep_view();
        match get_column_value(row, &columns[i], i) {
            Ok(text) => {
                cells.push(text);
                assert(cells.deep_view() =~= before.push(text@));
            },
            Err(e) => {
                proof {
                    lemma_row_error_stays(
                        columns.deep_view(),
                        row.deep_view(),
                        r as int,
                        i + 1,
                        columns.len() as int,
                    );
                }
                return Err(locate(e, r, i));
            },
        }
        i += 1;
    }
    Ok(cells)
}

/// Renders the cells of all rows.
pub fn all_cells(
    columns: &Vec<Column>,
    rows: &Vec<Row>,
) -> (out: Result<Vec<Vec<String>>, FormatError>)
    ensures
        match matrix_texts(columns.deep_view(), rows.deep_view(), rows.len() as int) {
            Ok(matrix) => out is Ok && out->Ok_0.deep_view() == matrix,
            Err(e) => out == Err::<Vec<Vec<String>>, FormatError>(e),
        },
        out is Ok ==> out->Ok_0.len() == rows.len(),
        out is Ok ==> forall|k: int|
            0 <= k < rows.len() ==> (#[trigger] out->Ok_0@[k]).len() == columns.len(),
{
    let mut matrix: Vec<Vec<String>> = Vec::new();
    let mut r: usize = 0;
    while r < rows.len()
        invariant
            r <= rows.len(),
            matrix.len() == r,
            forall|k: int| 0 <= k < r ==> (#[trigger] matrix@[k]).len() == columns.len(),
            matrix_texts(columns.deep_view(), rows.deep_view(), r as int) is Ok,
            matrix_texts(columns.deep_view(), rows.deep_view(), r as int)->Ok_0
                == matrix.deep_view(),
        decreases rows.len() - r,
    {
        let ghost before = matrix.deep_view();
        match row_cells(columns, &rows[r], r) {
            Ok(cells) => {
                matrix.push(cells);
                assert(matrix.deep_view() =~= before.push(cells.deep_view()));
            },
            Err(e) => {
                proof {
                    lemma_matrix_error_stays(
                        columns.deep_view(),
                        rows.deep_view(),
                        r + 1,
                        rows.len() as int,
                    );
                }
                return Err(e);
            },
        }
        r += 1;
    }
    Ok(matrix)
}

/// What the table, csv, vertical and record forms print for a result set
/// without rows.
pub open spec fn no_rows_text() -> Seq<char> {
    "(No rows returned)\n"@
}

/// What the json form prints for a result set without rows.
pub open spec fn empty_array_text() -> Seq<char> {
    "[]\n"@
}

/// The first `n` columns of a row in the record form: `name: value` pairs
/// with `, ` between them.
pub open spec fn record_pairs(names: Seq<Seq<char>>, texts: Seq<Seq<char>>, n: int) -> Seq<char>
    decreases n,
{
    if n <= 0 {
        Seq::empty()
    } else {
        record_pairs(names, texts, n - 1) + (if n > 1 {
            ", "@
        } else {
            Seq::empty()
        }) + names[n - 1] + ": "@ + texts[n - 1]
    }
}

/// One row in the record form: its pairs on one line.
pub open spec fn record_line(names: Seq<Seq<char>>, texts: Seq<Seq<char>>) -> Seq<char> {
    record_pairs(names, texts, names.len() as int) + "\n"@
}

/// The first `n` rows in the record form.
pub open spec fn record_lines(
    names: Seq<Seq<char>>,
    matrix: Seq<Seq<Seq<char>>>,
    n: int,
) -> Seq<char>
    decreases n,
{
    if n <= 0 {
        Seq::empty()
    } else {
        record_lines(names, matrix, n - 1) + record_line(names, matrix[n - 1])
    }
}

/// The first `n` columns of a row in the vertical form: one indented
/// `name: value` line each.
pub open spec fn vertical_fields(names: Seq<Seq<char>>, texts: Seq<Seq<char>>, n: int) -> Seq<char>
    decreases n,
{
    if n <= 0 {
        Seq::empty()
    } else {
        vertical_fields(names, texts, n - 1) + "  "@ + names[n - 1] + ": "@ + texts[n - 1] + "\n"@
    }
}

/// One row in the vertical form: a heading with the row's number, counted
/// from one, its fields, and an empty line.
pub open spec fn vertical_block(
    names: Seq<Seq<char>>,
    texts: Seq<Seq<char>>,
    number: nat,
) -> Seq<char> {
    "Row "@ + nat_digits(number) + ":\n"@ + vertical_fields(names, texts, names.len() as int)
        + "\n"@
}

/// The first `n` rows in the vertical form.
pub open spec fn vertical_blocks(
    names: Seq<Seq<char>>,
    matrix: Seq<Seq<Seq<char>>>,
    n: int,
) -> Seq<char>
    decreases n,
{
    if n <= 0 {
        Seq::empty()
    } else {
        vertical_blocks(names, matrix, n - 1) + vertical_block(names, matrix[n - 1], n as nat)
    }
}

/// The first `n` lines, one after the other, or `None` where one of them
/// is missing.
pub open spec fn joined_lines(lines: Seq<Option<Seq<char>>>, n: int) -> Option<Seq<char>>
    decreases n,
{
    if n <= 0 {
        Some(Seq::empty())
    } else {
        match joined_lines(lines, n - 1) {
            None => None,
            Some(done) => match lines[n - 1] {
                Some(line) => Some(done + line),
                None => None,
            },
        }
    }
}

/// The line of each record in the csv form, or `None` for a record that
/// cannot be written.
pub open spec fn csv_record_texts(records: Seq<Seq<Seq<char>>>) -> Seq<Option<Seq<char>>> {
    Seq::new(records.len(), |i: int| csv_record_text(records[i]))
}

/// The rows of the table and csv forms: the names of the columns, then the
/// rows of cells.
pub open spec fn with_header(
    names: Seq<Seq<char>>,
    matrix: Seq<Seq<Seq<char>>>,
) -> Seq<Seq<Seq<char>>> {
    seq![names] + matrix
}

/// A text, or the renderer's failure.
pub open spec fn rendered(text: Option<Seq<char>>) -> Formatted {
    match text {
        Some(t) => Ok(t),
        None => Err(FormatError::Renderer),
    }
}

/// The sign that stands in a table for an escape character.
pub open spec fn escape_sign() -> char {
    '\u{241b}'
}

/// A text as a table shows it: with the sign for an escape character in
/// place of each escape character, so that no text can steer the terminal.
pub open spec fn without_escape(text: Seq<char>) -> Seq<char> {
    Seq::new(
        text.len(),
        |i: int|
            if text[i] == escape_char() {
                escape_sign()
            } else {
                text[i]
            },
    )
}

/// The first `n` characters of a text as a table shows them.
pub open spec fn without_escape_upto(text: Seq<char>, n: int) -> Seq<char> {
    without_escape(text).take(n)
}

/// The texts of a row as a table shows them.
pub open spec fn cells_without_escape(cells: Seq<Seq<char>>) -> Seq<Seq<char>> {
    Seq::new(cells.len(), |i: int| without_escape(cells[i]))
}

/// A row of the grid: for each cell the lines of its text as a table shows
/// it.
pub open spec fn grid_row(cells: Seq<Seq<char>>) -> Seq<Seq<Seq<char>>> {
    Seq::new(cells.len(), |i: int| cell_lines(without_escape(cells[i])))
}

/// The rows of the grid.
pub open spec fn grid_rows(rows: Seq<Seq<Seq<char>>>) -> Seq<Seq<Seq<Seq<char>>>> {
    Seq::new(rows.len(), |r: int| grid_row(rows[r]))
}

/// The table form: a bordered grid with the names of the columns in its
/// first row. An escape character in a name or a cell is shown by its sign.
pub open spec fn table_form(columns: Seq<ColumnView>, rows: Seq<RowView>) -> Formatted {
    if rows.len() == 0 {
        Ok(no_rows_text())
    } else {
        match matrix_texts(columns, rows, rows.len() as int) {
            Err(e) => Err(e),
            Ok(matrix) => rendered(
                grid_text(grid_rows(with_header(column_names(columns), matrix))),
            ),
        }
    }
}

/// The csv form: a record with the names of the columns, then one record for
/// each row.
pub open spec fn csv_form(columns: Seq<ColumnView>, rows: Seq<RowView>) -> Formatted {
    if rows.len() == 0 {
        Ok(no_rows_text())
    } else {
        match matrix_texts(columns, rows, rows.len() as int) {
            Err(e) => Err(e),
            Ok(matrix) => rendered(
                joined_lines(
                    csv_record_texts(with_header(column_names(columns), matrix)),
                    matrix.len() as int + 1,
                ),
            ),
        }
    }
}

/// The vertical form: one block for each row.
pub open spec fn vertical_form(
    columns: Seq<ColumnView>,
    rows: Seq<RowView>,
) -> Formatted {
    if rows.len() == 0 {
        Ok(no_rows_text())
    } else {
        match matrix_texts(columns, rows, rows.len() as int) {
            Err(e) => Err(e),
            Ok(matrix) => Ok(vertical_blocks(column_names(columns), matrix, matrix.len() as int)),
        }
    }
}

/// The record form: one line for each row.
pub open spec fn record_form(columns: Seq<ColumnView>, rows: Seq<RowView>) -> Formatted {
    if rows.len() == 0 {
        Ok(no_rows_text())
    } else {
        match matrix_texts(columns, rows, rows.len() as int) {
            Err(e) => Err(e),
            Ok(matrix) => Ok(record_lines(column_names(columns), matrix, matrix.len() as int)),
        }
    }
}

/// Appends one row in the record form to `out`.
pub fn push_record_line(out: &mut String, names: &Vec<String>, cells: &Vec<String>)
    requires
        names.len() == cells.len(),
    ensures
        final(out)@ == old(out)@ + record_line(names.deep_view(), cells.deep_view()),
{
    let ghost base = out@;
    let mut i: usize = 0;
    while i < names.len()
        invariant
            i <= names.len(),
            names.len() == cells.len(),
            out@ == base + record_pairs(names.deep_view(), cells.deep_view(), i as int),
        decreases names.len() - i,
    {
        let ghost before = out@;
        if i > 0 {
            out.append(", ");
        }
        out.append(names[i].as_str());
        out.append(": ");
        out.append(cells[i].as_str());
        assert(out@ =~= base + record_pairs(names.deep_view(), cells.deep_view(), i + 1)) by {
            assert(out@ =~= before + (if i > 0 {
                ", "@
            } else {
                Seq::empty()
            }) + names@[i as int]@ + ": "@ + cells@[i as int]@);
        }
        i += 1;
    }
    out.append("\n");
    assert(out@ =~= base + record_line(names.deep_view(), cells.deep_view()));
}

/// Appends one row in the vertical form to `out`, under the heading `Row`
/// and `number`.
pub fn push_vertical_block(out: &mut String, names: &Vec<String>, cells: &Vec<String>, number: u64)
    requires
        names.len() == cells.len(),
    ensures
        final(out)@ == old(out)@ + vertical_block(
            names.deep_view(),
            cells.deep_view(),
            number as nat,
        ),
{
    let ghost base = out@;
    out.append("Row ");
    push_decimal(out, number);
    out.append(":\n");
    let ghost head = out@;
    assert(head =~= base + "Row "@ + nat_digits(number as nat) + ":\n"@);
    let mut i: usize = 0;
    while i < names.len()
        invariant
            i <= names.len(),
            names.len() == cells.len(),
            out@ == head + vertical_fields(names.deep_view(), cells.deep_view(), i as int),
        decreases names.len() - i,
    {
        let ghost before = out@;
        out.append("  ");
        out.append(names[i].as_str());
        out.append(": ");
        out.append(cells[i].as_str());
        out.append("\n");
        assert(out@ =~= head + vertical_fields(names.deep_view(), cells.deep_view(), i + 1)) by {
            assert(out@ =~= before + "  "@ + names@[i as int]@ + ": "@ + cells@[i as int]@ + "\n"@);
        }
        i += 1;
    }
    out.append("\n");
    assert(out@ =~= base + vertical_block(names.deep_view(), cells.deep_view(), number as nat));
}

/// The text for a result set without rows in every form but json.
pub fn no_rows() -> (r: String)
    ensures
        r@ == no_rows_text(),
{
    String::from_str("(No rows returned)\n")
}

/// Where the first `n` cells of a row can be shown, there are `n` texts, and
/// each is the text of its cell.
pub proof fn lemma_row_texts_cells(
    columns: Seq<ColumnView>,
    row: RowView,
    r: int,
    n: int,
)
    requires
        0 <= n,
        row_texts(columns, row, r, n) is Ok,
    ensures
        row_texts(columns, row, r, n)->Ok_0.len() == n,
        forall|c: int|
            0 <= c < n ==> cell_text(columns[c].type_tag, row[c]) == Ok::<Seq<char>, CellError>(
                #[trigger] row_texts(columns, row, r, n)->Ok_0[c],
            ),
    decreases n,
{
    if n > 0 {
        lemma_row_texts_cells(columns, row, r, n - 1);
    }
}

/// Where the first `n` rows can be shown, there are `n` rows of texts, each
/// as wide as the columns, and each holds the texts of its row.
pub proof fn lemma_matrix_texts_rows(
    columns: Seq<ColumnView>,
    rows: Seq<RowView>,
    n: int,
)
    requires
        0 <= n,
        matrix_texts(columns, rows, n) is Ok,
    ensures
        matrix_texts(columns, rows, n)->Ok_0.len() == n,
        forall|r: int|
            0 <= r < n ==> checked_row_texts(columns, rows[r], r) == row_shown(
                #[trigger] matrix_texts(columns, rows, n)->Ok_0[r],
            ),
        forall|r: int|
            0 <= r < n ==> (#[trigger] matrix_texts(columns, rows, n)->Ok_0[r]).len()
                == columns.len(),
    decreases n,
{
    if n > 0 {
        lemma_matrix_texts_rows(columns, rows, n - 1);
        lemma_row_texts_cells(columns, rows[n - 1], n - 1, columns.len() as int);
    }
}

/// Once a line is missing, the whole is missing as more lines are taken in.
pub proof fn lemma_missing_line_stays(lines: Seq<Option<Seq<char>>>, k: int, n: int)
    requires
        0 <= k <= n,
        joined_lines(lines, k) is None,
    ensures
        joined_lines(lines, n) is None,
    decreases n - k,
{
    if k < n {
        lemma_missing_line_stays(lines, k, n - 1);
    }
}

/// Puts lines one after the other; a line that is missing makes the
/// renderer's failure of the whole.
pub fn join_lines(lines: &Vec<Option<String>>) -> (r: Result<String, FormatError>)
    ensures
        text_result(r) == rendered(joined_lines(lines.deep_view(), lines.len() as int)),
{
    let mut out = String::new();
    let mut i: usize = 0;
    while i < lines.len()
        invariant
            i <= lines.len(),
            joined_lines(lines.deep_view(), i as int) == Some(out@),
        decreases lines.len() - i,
    {
        assert(lines.deep_view()[i as int] == lines@[i as int].deep_view());
        match &lines[i] {
            Some(line) => {
                out.append(line.as_str());
            },
            None => {
                proof {
                    assert(joined_lines(lines.deep_view(), i + 1) is None);
                    lemma_missing_line_stays(lines.deep_view(), i + 1, lines.len() as int);
                }
                return Err(FormatError::Renderer);
            },
        }
        i += 1;
    }
    Ok(out)
}

/// The text that a renderer made, or its failure.
pub fn rendered_text(made: Option<String>) -> (r: Result<String, FormatError>)
    ensures
        text_result(r) == rendered(made.deep_view()),
{
    match made {
        Some(text) => Ok(text),
        None => Err(FormatError::Renderer),
    }
}

/// What a table shows of a text holds no escape character, and a text
/// without an escape character is shown as it is.
pub proof fn lemma_without_escape(text: Seq<char>)
    ensures
        has_no_escape(without_escape(text)),
        has_no_escape(text) ==> without_escape(text) == text,
{
    if has_no_escape(text) {
        assert(without_escape(text) =~= text);
    }
}

/// Puts the sign for an escape character in place of each escape character
/// of a text.
pub fn escape_free(text: &str) -> (r: String)
    ensures
        r@ == without_escape(text@),
        has_no_escape(r@),
{
    proof {
        reveal_strlit("\u{241b}");
    }
    let chars = to_chars(text);
    let mut out = String::new();
    let mut start: usize = 0;
    let mut i: usize = 0;
    assert(out@ + text@.subrange(0, 0) =~= without_escape_upto(text@, 0));
    while i < chars.len()
        invariant
            start <= i <= chars.len(),
            chars@ == text@,
            "\u{241b}"@ == seq![escape_sign()],
            forall|k: int| start <= k < i ==> text@[k] != escape_char(),
            out@ + text@.subrange(start as int, i as int) == without_escape_upto(text@, i as int),
        decreases chars.len() - i,
    {
        let ghost before = without_escape_upto(text@, i as int);
        assert(without_escape_upto(text@, i + 1) =~= before.push(
            without_escape(text@)[i as int],
        ));
        if chars[i] == '\u{1b}' {
            out.append(text.substring_char(start, i));
            out.append("\u{241b}");
            start = i + 1;
            assert(out@ =~= before.push(escape_sign()));
            assert(text@.subrange(start as int, i + 1) =~= Seq::<char>::empty());
            assert(out@ + text@.subrange(start as int, i + 1) =~= without_escape_upto(
                text@,
                i + 1,
            ));
        } else {
            assert(text@.subrange(start as int, i + 1) =~= text@.subrange(
                start as int,
                i as int,
            ).push(text@[i as int]));
            assert(out@ + text@.subrange(start as int, i + 1) =~= without_escape_upto(
                text@,
                i + 1,
            ));
        }
        i += 1;
    }
    out.append(text.substring_char(start, chars.len()));
    assert(out@ =~= without_escape(text@));
    out
}

/// Puts the sign for an escape character in place of each escape character
/// of the texts of a row.
pub fn escape_free_cells(cells: &Vec<String>) -> (r: Vec<String>)
    ensures
        r.deep_view() == cells_without_escape(cells.deep_view()),
        no_escape_in(r.deep_view()),
{
    let mut r: Vec<String> = Vec::new();
    let mut i: usize = 0;
    while i < cells.len()
        invariant
            i <= cells.len(),
            r.len() == i,
            forall|k: int| 0 <= k < i ==> (#[trigger] r@[k])@ == without_escape(cells@[k]@),
            forall|k: int| 0 <= k < i ==> has_no_escape((#[trigger] r@[k])@),
        decreases cells.len() - i,
    {
        r.push(escape_free(cells[i].as_str()));
        i += 1;
    }
    assert(r.deep_view() =~= cells_without_escape(cells.deep_view()));
    assert forall|k: int| 0 <= k < r.deep_view().len() implies has_no_escape(
        #[trigger] r.deep_view()[k],
    ) by {
        assert(r.deep_view()[k] == r@[k]@);
    }
    r
}

/// Adds a row to the grid, with each text as a table shows it.
fn add_grid_row(table: &mut prettytable::Table, cells: &Vec<String>)
    requires
        table_is_plain(*old(table)),
    ensures
        table_is_plain(*final(table)),
        table_rows(*final(table)) == table_rows(*old(table)).push(grid_row(cells.deep_view())),
{
    let shown = escape_free_cells(cells);
    table_add_row(table, &shown);
    assert(shown.deep_view().len() == cells.deep_view().len());
    assert(shown.len() == cells.len());
    let ghost added = Seq::new(shown.len() as nat, |i: int| cell_lines(shown@[i]@));
    assert forall|i: int| 0 <= i < shown.len() implies (#[trigger] shown@[i])@ == without_escape(
        cells.deep_view()[i],
    ) by {
        assert(shown.deep_view()[i] == shown@[i]@);
    }
    assert forall|i: int| 0 <= i < added.len() implies added[i] == grid_row(
        cells.deep_view(),
    )[i] by {
        assert(shown@[i]@ == without_escape(cells.deep_view()[i]));
    }
    assert(added =~= grid_row(cells.deep_view()));
}

/// Renders a result set as a bordered grid with the names of the columns in
/// its first row. An escape character in a name or a cell is shown by its
/// sign.
pub fn print_table(columns: &Vec<Column>, rows: &Vec<Row>) -> (r: Result<String, FormatError>)
    ensures
        text_result(r) == table_form(columns.deep_view(), rows.deep_view()),
{
    if rows.len() == 0 {
        return Ok(no_rows());
    }
    let matrix = match all_cells(columns, rows) {
        Ok(matrix) => matrix,
        Err(e) => {
            return Err(e);
        },
    };
    let names = names_of(columns);
    let mut table = table_new();
    add_grid_row(&mut table, &names);
    assert(table_rows(table) =~= grid_rows(
        with_header(names.deep_view(), matrix.deep_view().take(0)),
    ));
    let mut i: usize = 0;
    while i < matrix.len()
        invariant
            i <= matrix.len(),
            table_is_plain(table),
            table_rows(table) == grid_rows(
                with_header(names.deep_view(), matrix.deep_view().take(i as int)),
            ),
        decreases matrix.len() - i,
    {
        add_grid_row(&mut table, &matrix[i]);
        assert(table_rows(table) =~= grid_rows(
            with_header(names.deep_view(), matrix.deep_view().take(i + 1)),
        ));
        i += 1;
    }
    assert(matrix.deep_view().take(i as int) =~= matrix.deep_view());
    rendered_text(table_print(&table))
}

/// Renders a result set as comma-separated records: the names of the
/// columns, then one record for each row.
pub fn print_csv(columns: &Vec<Column>, rows: &Vec<Row>) -> (r: Result<String, FormatError>)
    ensures
        text_result(r) == csv_form(columns.deep_view(), rows.deep_view()),
{
    if rows.len() == 0 {
        return Ok(no_rows());
    }
    let matrix = match all_cells(columns, rows) {
        Ok(matrix) => matrix,
        Err(e) => {
            return Err(e);
        },
    };
    let names = names_of(columns);
    let ghost records = with_header(names.deep_view(), matrix.deep_view());
    let mut lines: Vec<Option<String>> = Vec::new();
    lines.push(csv_record(&names));
    assert(lines.deep_view() =~= csv_record_texts(records).take(1));
    let mut i: usize = 0;
    while i < matrix.len()
        invariant
            i <= matrix.len(),
            records == with_header(names.deep_view(), matrix.deep_view()),
            lines.len() == i + 1,
            lines.deep_view() == csv_record_texts(records).take(i + 1),
        decreases matrix.len() - i,
    {
        let ghost before = lines.deep_view();
        assert(records[i + 1] == matrix@[i as int].deep_view());
        let line = csv_record(&matrix[i]);
        lines.push(line);
        assert(lines.deep_view() =~= before.push(line.deep_view()));
        assert(lines.deep_view() =~= csv_record_texts(records).take(i + 2));
        i += 1;
    }
    assert(lines.deep_view() =~= csv_record_texts(records));
    join_lines(&lines)
}

/// Renders a result set as one block for each row: a heading with the row's
/// number, one line for each column, and an empty line.
pub fn print_vertical(columns: &Vec<Column>, rows: &Vec<Row>) -> (r: Result<String, FormatError>)
    ensures
        text_result(r) == vertical_form(columns.deep_view(), rows.deep_view()),
{
    if rows.len() == 0 {
        return Ok(no_rows());
    }
    let matrix = match all_cells(columns, rows) {
        Ok(matrix) => matrix,
        Err(e) => {
            return Err(e);
        },
    };
    let names = names_of(columns);
    let mut out = String::new();
    let mut i: usize = 0;
    while i < matrix.len()
        invariant
            i <= matrix.len(),
            forall|k: int| 0 <= k < matrix.len() ==> (#[trigger] matrix@[k]).len() == names.len(),
            out@ == vertical_blocks(names.deep_view(), matrix.deep_view(), i as int),
        decreases matrix.len() - i,
    {
        push_vertical_block(&mut out, &names, &matrix[i], (i + 1) as u64);
        assert(out@ =~= vertical_blocks(names.deep_view(), matrix.deep_view(), i + 1));
        i += 1;
    }
    Ok(out)
}

/// Renders a result set as one line for each row, with its columns as
/// `name: value` pairs.
pub fn print_record(columns: &Vec<Column>, rows: &Vec<Row>) -> (r: Result<String, FormatError>)
    ensures
        text_result(r) == record_form(columns.deep_view(), rows.deep_view()),
{
    if rows.len() == 0 {
        return Ok(no_rows());
    }
    let matrix = match all_cells(columns, rows) {
        Ok(matrix) => matrix,
        Err(e) => {
            return Err(e);
        },
    };
    let names = names_of(columns);
    let mut out = String::new();
    let mut i: usize = 0;
    while i < matrix.len()
        invariant
            i <= matrix.len(),
            forall|k: int| 0 <= k < matrix.len() ==> (#[trigger] matrix@[k]).len() == names.len(),
            out@ == record_lines(names.deep_view(), matrix.deep_view(), i as int),
        decreases matrix.len() - i,
    {
        push_record_line(&mut out, &names, &matrix[i]);
        assert(out@ =~= record_lines(names.deep_view(), matrix.deep_view(), i + 1));
        i += 1;
    }
    Ok(out)
}

/// The text of a double as a JSON number: a text that is a whole number
/// gets `.0` behind it, so that it is read as the double that it is.
pub open spec fn json_decimal(text: Seq<char>) -> Seq<char> {
    if is_whole_number(text) {
        text + ".0"@
    } else {
        text
    }
}

/// The JSON value of a double: the number that is read from its text, or a
/// null where its text is no number, as for a value that is not finite.
pub open spec fn json_double(text: Seq<char>) -> JsonScalar {
    match json_number_of(json_decimal(text)) {
        Some(number) => number,
        None => JsonScalar::Null,
    }
}

/// The text of a double as a JSON number.
pub fn decimal_of_double(text: &str) -> (r: String)
    ensures
        r@ == json_decimal(text@),
{
    let mut r = String::from_str(text);
    if is_whole(text) {
        r.append(".0");
    }
    r
}

/// The JSON value of one cell: a null for a null, a boolean or a number
/// where the column's type has one, a string otherwise.
pub open spec fn json_cell(tag: TypeTag, cell: Option<DatumView>) -> Result<JsonScalar, CellError> {
    match cell {
        None => Ok(JsonScalar::Null),
        Some(value) => match tag {
            TypeTag::Timestamp | TypeTag::TimestampTz => match value {
                DatumView::Timestamp(micros) => match timestamp_cell_text(
                    timestamp_text(micros, timestamp_pattern()),
                ) {
                    Ok(text) => Ok(JsonScalar::Text(text)),
                    Err(e) => Err(e),
                },
                _ => Err(CellError::WrongType),
            },
            TypeTag::Double => match value {
                DatumView::Double(text) => Ok(json_double(text)),
                _ => Err(CellError::WrongType),
            },
            TypeTag::Varchar => match value {
                DatumView::Varchar(text) => Ok(JsonScalar::Text(text)),
                _ => Err(CellError::WrongType),
            },
            TypeTag::Boolean => match value {
                DatumView::Boolean(b) => Ok(JsonScalar::Bool(b)),
                _ => Err(CellError::WrongType),
            },
            TypeTag::Int32 => match value {
                DatumView::Int32(i) => Ok(JsonScalar::Int(i as int)),
                _ => Err(CellError::WrongType),
            },
            TypeTag::Other => Ok(JsonScalar::Text("Unsupported Type"@)),
        },
    }
}

/// The JSON object of the first `n` cells of the row with index `r`: each
/// column's name with its cell's value, a later column replacing an earlier
/// one of the same name.
pub open spec fn json_object(
    columns: Seq<ColumnView>,
    row: RowView,
    r: int,
    n: int,
) -> Result<Map<Seq<char>, JsonScalar>, FormatError>
    decreases n,
{
    if n <= 0 {
        Ok(no_entries())
    } else {
        match json_object(columns, row, r, n - 1) {
            Err(e) => Err(e),
            Ok(done) => match json_cell(columns[n - 1].type_tag, row[n - 1]) {
                Ok(value) => Ok(done.insert(columns[n - 1].name, value)),
                Err(e) => Err(located(e, r, n - 1)),
            },
        }
    }
}

/// The entries of a row that has a JSON object.
pub open spec fn object_made(entries: Map<Seq<char>, JsonScalar>) -> Result<
    Map<Seq<char>, JsonScalar>,
    FormatError,
> {
    Ok(entries)
}

/// The JSON object of the row with index `r`, which must hold one value for
/// each column.
pub open spec fn checked_json_object(
    columns: Seq<ColumnView>,
    row: RowView,
    r: int,
) -> Result<Map<Seq<char>, JsonScalar>, FormatError> {
    if row.len() != columns.len() {
        Err(FormatError::RowWidth { row: r as usize })
    } else {
        json_object(columns, row, r, columns.len() as int)
    }
}

/// The JSON objects of the first `n` rows.
pub open spec fn json_rows(
    columns: Seq<ColumnView>,
    rows: Seq<RowView>,
    n: int,
) -> Result<Seq<Map<Seq<char>, JsonScalar>>, FormatError>
    decreases n,
{
    if n <= 0 {
        Ok(Seq::empty())
    } else {
        match json_rows(columns, rows, n - 1) {
            Err(e) => Err(e),
            Ok(done) => match checked_json_object(columns, rows[n - 1], n - 1) {
                Ok(object) => Ok(done.push(object)),
                Err(e) => Err(e),
            },
        }
    }
}

/// The json form from what the printer made of the array: its text and a
/// line end, or the printer's failure.
pub open spec fn json_document_text(made: Option<Seq<char>>) -> Formatted {
    match made {
        Some(text) => Ok(text + "\n"@),
        None => Err(FormatError::Renderer),
    }
}

/// The json form: one array with an object for each row, pretty-printed,
/// and a line end.
pub open spec fn json_form(columns: Seq<ColumnView>, rows: Seq<RowView>) -> Formatted {
    if rows.len() == 0 {
        Ok(empty_array_text())
    } else {
        match json_rows(columns, rows, rows.len() as int) {
            Err(e) => Err(e),
            Ok(objects) => json_document_text(json_array_text(objects)),
        }
    }
}

/// The text of a result set in the given form.
pub open spec fn formatted(
    columns: Seq<ColumnView>,
    rows: Seq<RowView>,
    format: OutputFormat,
) -> Formatted {
    match format {
        OutputFormat::Table => table_form(columns, rows),
        OutputFormat::Csv => csv_form(columns, rows),
        OutputFormat::Json => json_form(columns, rows),
        OutputFormat::Vertical => vertical_form(columns, rows),
        OutputFormat::Record => record_form(columns, rows),
    }
}

/// Once a cell of a row has no JSON value, the error stays as more cells are
/// taken in.
pub proof fn lemma_json_object_error_stays(
    columns: Seq<ColumnView>,
    row: RowView,
    r: int,
    k: int,
    n: int,
)
    requires
        0 <= k <= n,
        json_object(columns, row, r, k) is Err,
    ensures
        json_object(columns, row, r, n) == json_object(columns, row, r, k),
    decreases n - k,
{
    if k < n {
        lemma_json_object_error_stays(columns, row, r, k, n - 1);
    }
}

/// Once a row has no JSON object, the error stays as more rows are taken in.
pub proof fn lemma_json_rows_error_stays(
    columns: Seq<ColumnView>,
    rows: Seq<RowView>,
    k: int,
    n: int,
)
    requires
        0 <= k <= n,
        json_rows(columns, rows, k) is Err,
    ensures
        json_rows(columns, rows, n) == json_rows(columns, rows, k),
    decreases n - k,
{
    if k < n {
        lemma_json_rows_error_stays(columns, rows, k, n - 1);
    }
}

/// Puts the value at position `i` of `row` into `object` under the name of
/// `column`, as the JSON value that the column's type calls for.
pub(crate) fn insert_json_cell(
    object: &mut JsonObject,
    column: &Column,
    row: &Row,
    i: usize,
) -> (r: Result<(), CellError>)
    requires
        i < row.values.len(),
    ensures
        match json_cell(column.type_tag, row.deep_view()[i as int]) {
            Ok(value) => r is Ok && json_entries(*final(object)) == json_entries(
                *old(object),
            ).insert(column.name@, value),
            Err(e) => r == Err::<(), CellError>(e),
        },
{
    assert(row.deep_view()[i as int] == row.values@[i as int].deep_view());
    let key = column.name.as_str();
    match &row.values[i] {
        None => {
            json_insert_null(object, key);
            Ok(())
        },
        Some(value) => match column.type_tag {
            TypeTag::Timestamp | TypeTag::TimestampTz => match value {
                Datum::Timestamp(micros) => match timestamp_cell(
                    format_timestamp(*micros, "%Y-%m-%dT%H:%M:%S%.6fZ"),
                ) {
                    Ok(text) => {
                        json_insert_text(object, key, text.as_str());
                        Ok(())
                    },
                    Err(e) => Err(e),
                },
                _ => Err(CellError::WrongType),
            },
            TypeTag::Double => match value {
                Datum::Double(text) => {
                    let decimal = decimal_of_double(text.as_str());
                    if !json_insert_number(object, key, decimal.as_str()) {
                        json_insert_null(object, key);
                    }
                    Ok(())
                },
                _ => Err(CellError::WrongType),
            },
            TypeTag::Varchar => match value {
                Datum::Varchar(text) => {
                    json_insert_text(object, key, text.as_str());
                    Ok(())
                },
                _ => Err(CellError::WrongType),
            },
            TypeTag::Boolean => match value {
                Datum::Boolean(b) => {
                    json_insert_bool(object, key, *b);
                    Ok(())
                },
                _ => Err(CellError::WrongType),
            },
            TypeTag::Int32 => match value {
                Datum::Int32(i) => {
                    json_insert_int(object, key, *i);
                    Ok(())
                },
                _ => Err(CellError::WrongType),
            },
            TypeTag::Other => {
                json_insert_text(object, key, "Unsupported Type");
                Ok(())
            },
        },
    }
}

/// Builds the JSON object of the row with index `r`.
pub(crate) fn json_object_of(
    columns: &Vec<Column>,
    row: &Row,
    r: usize,
) -> (out: Result<JsonObject, FormatError>)
    ensures
        match checked_json_object(columns.deep_view(), row.deep_view(), r as int) {
            Ok(entries) => out is Ok && json_entries(out->Ok_0) == entries,
            Err(e) => out is Err && out->Err_0 == e,
        },
{
    if row.values.len() != columns.len() {
        return Err(FormatError::RowWidth { row: r });
    }
    let mut object = json_object_new();
    let mut i: usize = 0;
    while i < columns.len()
        invariant
            i <= columns.len(),
            row.values.len() == columns.len(),
            json_object(columns.deep_view(), row.deep_view(), r as int, i as int) is Ok,
            json_object(columns.deep_view(), row.deep_view(), r as int, i as int)->Ok_0
                == json_entries(object),
        decreases columns.len() - i,
    {
        match insert_json_cell(&mut object, &columns[i], row, i) {
            Ok(()) => {},
            Err(e) => {
                proof {
                    lemma_json_object_error_stays(
                        columns.deep_view(),
                        row.deep_view(),
                        r as int,
                        i + 1,
                        columns.len() as int,
                    );
                }
                return Err(locate(e, r, i));
            },
        }
        i += 1;
    }
    Ok(object)
}

/// The json form from what the printer made of the array.
pub fn json_document(made: Option<String>) -> (r: Result<String, FormatError>)
    ensures
        text_result(r) == json_document_text(made.deep_view()),
{
    match made {
        Some(text) => {
            let mut out = text;
            out.append("\n");
            Ok(out)
        },
        None => Err(FormatError::Renderer),
    }
}

/// Renders a result set as one pretty-printed JSON array with an object for
/// each row.
pub fn print_json(columns: &Vec<Column>, rows: &Vec<Row>) -> (r: Result<String, FormatError>)
    ensures
        text_result(r) == json_form(columns.deep_view(), rows.deep_view()),
{
    if rows.len() == 0 {
        return Ok(String::from_str("[]\n"));
    }
    let mut objects: Vec<JsonObject> = Vec::new();
    let mut i: usize = 0;
    while i < rows.len()
        invariant
            i <= rows.len(),
            json_rows(columns.deep_view(), rows.deep_view(), i as int) is Ok,
            json_rows(columns.deep_view(), rows.deep_view(), i as int)->Ok_0 == json_objects(
                objects@,
            ),
        decreases rows.len() - i,
    {
        let ghost before = json_objects(objects@);
        match json_object_of(columns, &rows[i], i) {
            Ok(object) => {
                objects.push(object);
                assert(json_objects(objects@) =~= before.push(json_entries(object)));
            },
            Err(e) => {
                proof {
                    lemma_json_rows_error_stays(
                        columns.deep_view(),
                        rows.deep_view(),
                        i + 1,
                        rows.len() as int,
                    );
                }
                return Err(e);
            },
        }
        i += 1;
    }
    json_document(json_pretty(&objects))
}

/// Renders a result set in the given form.
pub fn format_rows(
    columns: &Vec<Column>,
    rows: &Vec<Row>,
    format: OutputFormat,
) -> (r: Result<String, FormatError>)
    ensures
        text_result(r) == formatted(columns.deep_view(), rows.deep_view(), format),
{
    match format {
        OutputFormat::Table => print_table(columns, rows),
        OutputFormat::Csv => print_csv(columns, rows),
        OutputFormat::Json => print_json(columns, rows),
        OutputFormat::Vertical => print_vertical(columns, rows),
        OutputFormat::Record => print_record(columns, rows),
    }
}

/// Renders a result set in the form that `format` names, in any mix of
/// cases; as a table where the name is not known.
pub fn print_query_results(
    columns: &Vec<Column>,
    rows: &Vec<Row>,
    format: &str,
) -> (r: Result<String, FormatError>)
    ensures
        text_result(r) == formatted(
            columns.deep_view(),
            rows.deep_view(),
            OutputFormat::of_name(format@),
        ),
{
    format_rows(columns, rows, OutputFormat::from_str(format))
}

/// A result set without rows is shown as the empty array in the json form
/// and as the notice that no rows were returned in every other form,
/// whatever its columns.
pub proof fn lemma_empty_result_set(columns: Seq<ColumnView>, format: OutputFormat)
    ensures
        formatted(columns, Seq::empty(), format) == Ok::<Seq<char>, FormatError>(
            if format == OutputFormat::Json {
                empty_array_text()
            } else {
                no_rows_text()
            },
        ),
{
}

/// Where the first `n` cells of a row have JSON values, the object holds,
/// under the name of each column that no later one among them shares, the
/// value of that column's cell.
pub proof fn lemma_json_object_entry(
    columns: Seq<ColumnView>,
    row: RowView,
    r: int,
    n: int,
    c: int,
)
    requires
        0 <= c < n,
        json_object(columns, row, r, n) is Ok,
        forall|j: int| c < j < n ==> columns[j].name != columns[c].name,
    ensures
        json_object(columns, row, r, n)->Ok_0.dom().contains(columns[c].name),
        json_cell(columns[c].type_tag, row[c]) == Ok::<JsonScalar, CellError>(
            json_object(columns, row, r, n)->Ok_0[columns[c].name],
        ),
    decreases n,
{
    if c < n - 1 {
        lemma_json_object_entry(columns, row, r, n - 1, c);
    }
}

/// Where the first `n` rows have JSON objects, there are `n` objects, and
/// each is the object of its row.
pub proof fn lemma_json_rows_objects(
    columns: Seq<ColumnView>,
    rows: Seq<RowView>,
    n: int,
)
    requires
        0 <= n,
        json_rows(columns, rows, n) is Ok,
    ensures
        json_rows(columns, rows, n)->Ok_0.len() == n,
        forall|r: int|
            0 <= r < n ==> checked_json_object(columns, rows[r], r) == object_made(
                #[trigger] json_rows(columns, rows, n)->Ok_0[r],
            ),
    decreases n,
{
    if n > 0 {
        lemma_json_rows_objects(columns, rows, n - 1);
    }
}

/// A null is shown by its marker in every form. In the table, csv, vertical
/// and record forms the text of its cell is `NULL`, which is not the empty
/// text. In the json form the object of its row holds a JSON null under the
/// name of its column, unless a later column has the same name and takes
/// its place.
pub proof fn lemma_null_marker(
    columns: Seq<ColumnView>,
    rows: Seq<RowView>,
    r: int,
    c: int,
)
    requires
        0 <= r < rows.len(),
        0 <= c < columns.len(),
        c < rows[r].len(),
        rows[r][c] is None,
    ensures
        matrix_texts(columns, rows, rows.len() as int) is Ok ==> matrix_texts(
            columns,
            rows,
            rows.len() as int,
        )->Ok_0[r][c] == "NULL"@,
        "NULL"@.len() == 4,
        json_rows(columns, rows, rows.len() as int) is Ok && (forall|j: int|
            c < j < columns.len() ==> columns[j].name != columns[c].name) ==> {
            let object = json_rows(columns, rows, rows.len() as int)->Ok_0[r];
            object.dom().contains(columns[c].name) && object[columns[c].name] == JsonScalar::Null
        },
{
    reveal_strlit("NULL");
    if matrix_texts(columns, rows, rows.len() as int) is Ok {
        lemma_matrix_texts_rows(columns, rows, rows.len() as int);
        let matrix = matrix_texts(columns, rows, rows.len() as int)->Ok_0;
        assert(checked_row_texts(columns, rows[r], r) == row_shown(matrix[r]));
        lemma_row_texts_cells(columns, rows[r], r, columns.len() as int);
    }
    if json_rows(columns, rows, rows.len() as int) is Ok && (forall|j: int|
        c < j < columns.len() ==> columns[j].name != columns[c].name) {
        lemma_json_rows_objects(columns, rows, rows.len() as int);
        let objects = json_rows(columns, rows, rows.len() as int)->Ok_0;
        assert(checked_json_object(columns, rows[r], r) == object_made(objects[r]));
        lemma_json_object_entry(columns, rows[r], r, columns.len() as int, c);
    }
}

/// The text of one row as it is printed when rows are shown one by one, in
/// the vertical form or else in the record form: the row with index `index`
/// comes out as it does in the whole result set.
pub open spec fn streamed_row(
    columns: Seq<ColumnView>,
    row: RowView,
    index: int,
    format: OutputFormat,
) -> Formatted {
    match checked_row_texts(columns, row, index) {
        Err(e) => Err(e),
        Ok(texts) => Ok(
            if format == OutputFormat::Vertical {
                vertical_block(column_names(columns), texts, (index + 1) as nat)
            } else {
                record_line(column_names(columns), texts)
            },
        ),
    }
}

/// The texts of the first `n` rows, each printed by itself, one after the
/// other.
pub open spec fn streamed_rows(
    columns: Seq<ColumnView>,
    rows: Seq<RowView>,
    format: OutputFormat,
    n: int,
) -> Seq<char>
    decreases n,
{
    if n <= 0 {
        Seq::empty()
    } else {
        streamed_rows(columns, rows, format, n - 1) + match streamed_row(
            columns,
            rows[n - 1],
            n - 1,
            format,
        ) {
            Ok(text) => text,
            Err(_) => Seq::empty(),
        }
    }
}

/// Renders the row with index `index` by itself, for a form that can show
/// rows one by one.
pub fn print_row(
    columns: &Vec<Column>,
    row: &Row,
    index: usize,
    format: OutputFormat,
) -> (r: Result<String, FormatError>)
    requires
        !format.spec_needs_full_set(),
        index < usize::MAX,
    ensures
        text_result(r) == streamed_row(columns.deep_view(), row.deep_view(), index as int, format),
{
    let cells = match row_cells(columns, row, index) {
        Ok(cells) => cells,
        Err(e) => {
            return Err(e);
        },
    };
    let names = names_of(columns);
    let mut out = String::new();
    match format {
        OutputFormat::Vertical => {
            push_vertical_block(&mut out, &names, &cells, (index + 1) as u64);
        },
        _ => {
            push_record_line(&mut out, &names, &cells);
        },
    }
    assert(out@ =~= streamed_row(
        columns.deep_view(),
        row.deep_view(),
        index as int,
        format,
    )->Ok_0);
    Ok(out)
}

/// In the vertical and the record form, the text of a result set is the
/// texts of its rows, each printed by itself, one after the other.
pub proof fn lemma_streaming_agrees(
    columns: Seq<ColumnView>,
    rows: Seq<RowView>,
    format: OutputFormat,
)
    requires
        !format.spec_needs_full_set(),
        rows.len() > 0,
        formatted(columns, rows, format) is Ok,
    ensures
        formatted(columns, rows, format)->Ok_0 == streamed_rows(
            columns,
            rows,
            format,
            rows.len() as int,
        ),
{
    lemma_matrix_texts_rows(columns, rows, rows.len() as int);
    let matrix = matrix_texts(columns, rows, rows.len() as int)->Ok_0;
    lemma_streamed_prefix(columns, rows, format, matrix, rows.len() as int);
}

/// The first `n` rows, printed one by one, give the first `n` blocks or
/// lines of the whole.
proof fn lemma_streamed_prefix(
    columns: Seq<ColumnView>,
    rows: Seq<RowView>,
    format: OutputFormat,
    matrix: Seq<Seq<Seq<char>>>,
    n: int,
)
    requires
        !format.spec_needs_full_set(),
        0 <= n <= rows.len(),
        matrix.len() == rows.len(),
        forall|r: int|
            0 <= r < rows.len() ==> checked_row_texts(columns, rows[r], r) == row_shown(
                #[trigger] matrix[r],
            ),
    ensures
        streamed_rows(columns, rows, format, n) == if format == OutputFormat::Vertical {
            vertical_blocks(column_names(columns), matrix, n)
        } else {
            record_lines(column_names(columns), matrix, n)
        },
    decreases n,
{
    if n > 0 {
        lemma_streamed_prefix(columns, rows, format, matrix, n - 1);
        assert(checked_row_texts(columns, rows[n - 1], n - 1) == row_shown(matrix[n - 1]));
    }
}

/// A value of a type that cannot be shown is no error: its cell has a text
/// in every form, the marker of nulls for a null and the notice that the
/// type is not supported for anything else.
pub proof fn lemma_unsupported_type_is_no_error(cell: Option<DatumView>)
    ensures
        cell_text(TypeTag::Other, cell) == Ok::<Seq<char>, CellError>(
            if cell is None {
                "NULL"@
            } else {
                "Unsupported Type"@
            },
        ),
        json_cell(TypeTag::Other, cell) == Ok::<JsonScalar, CellError>(
            if cell is None {
                JsonScalar::Null
            } else {
                JsonScalar::Text("Unsupported Type"@)
            },
        ),
{
}

/// A row can be shown where it holds one value for each column and each of
/// its cells can be shown.
pub proof fn lemma_sound_row_is_shown(
    columns: Seq<ColumnView>,
    row: RowView,
    r: int,
    n: int,
)
    requires
        0 <= n <= columns.len(),
        forall|c: int| 0 <= c < n ==> cell_text(columns[c].type_tag, #[trigger] row[c]) is Ok,
    ensures
        row_texts(columns, row, r, n) is Ok,
    decreases n,
{
    if n > 0 {
        lemma_sound_row_is_shown(columns, row, r, n - 1);
    }
}

/// The cells of a result set can all be shown where each of its rows holds
/// one value for each column and each cell by itself can be shown; the
/// result set then has its text in the vertical and in the record form.
pub proof fn lemma_sound_rows_are_shown(
    columns: Seq<ColumnView>,
    rows: Seq<RowView>,
    n: int,
)
    requires
        0 <= n <= rows.len(),
        forall|r: int| 0 <= r < n ==> (#[trigger] rows[r]).len() == columns.len(),
        forall|r: int, c: int|
            0 <= r < n && 0 <= c < columns.len() ==> cell_text(
                columns[c].type_tag,
                #[trigger] rows[r][c],
            ) is Ok,
    ensures
        matrix_texts(columns, rows, n) is Ok,
        n == rows.len() ==> vertical_form(columns, rows) is Ok && record_form(columns, rows) is Ok,
    decreases n,
{
    if n > 0 {
        lemma_sound_rows_are_shown(columns, rows, n - 1);
        let row = rows[n - 1];
        assert forall|c: int| 0 <= c < columns.len() implies cell_text(
            columns[c].type_tag,
            #[trigger] row[c],
        ) is Ok by {
            assert(cell_text(columns[c].type_tag, rows[n - 1][c]) is Ok);
        }
        lemma_sound_row_is_shown(columns, row, n - 1, columns.len() as int);
    }
}

/// What is reported for an error.
pub open spec fn error_text(e: FormatError) -> Seq<char> {
    match e {
        FormatError::RowWidth { row } => "row "@ + nat_digits(row as nat)
            + " does not hold one value for each column"@,
        FormatError::WrongType { row, column } => "row "@ + nat_digits(row as nat) + ", column "@
            + nat_digits(column as nat) + ": the value is not of the column's type"@,
        FormatError::TimestampRange { row, column } => "row "@ + nat_digits(row as nat)
            + ", column "@ + nat_digits(column as nat) + ": the timestamp is out of range"@,
        FormatError::Renderer => "the output could not be rendered"@,
    }
}

impl FormatError {
    /// What is reported for the error; rows and columns are counted from
    /// zero.
    pub fn message(&self) -> (r: String)
        ensures
            r@ == error_text(*self),
    {
        match self {
            FormatError::RowWidth { row } => {
                let mut out = String::from_str("row ");
                push_decimal(&mut out, *row as u64);
                out.append(" does not hold one value for each column");
                out
            },
            FormatError::WrongType { row, column } => {
                let mut out = String::from_str("row ");
                push_decimal(&mut out, *row as u64);
                out.append(", column ");
                push_decimal(&mut out, *column as u64);
                out.append(": the value is not of the column's type");
                out
            },
            FormatError::TimestampRange { row, column } => {
                let mut out = String::from_str("row ");
                push_decimal(&mut out, *row as u64);
                out.append(", column ");
                push_decimal(&mut out, *column as u64);
                out.append(": the timestamp is out of range");
                out
            },
            FormatError::Renderer => String::from_str("the output could not be rendered"),
        }
    }
}

} // verus!
