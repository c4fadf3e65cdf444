//! One running statement: what is printed as its rows arrive, and how it
//! ends.

use crate::output::{
    empty_array_text, error_text, format_rows, formatted, lemma_empty_result_set, no_rows,
    no_rows_text, print_row, streamed_row, text_result, Column, ColumnView, DatumView, RowView,
    FormatError, OutputFormat, Row,
};
use crate::text::{concat3, trim, trimmed};
use vstd::prelude::*;
use vstd::string::*;

verus! {

/// The state of a statement.
#[derive(Clone, Copy, Debug, PartialEq, Eq, Structural)]
pub enum QueryStatus {
    /// Rows may still arrive.
    Running,
    /// All rows arrived and were shown.
    Completed,
    /// The statement, one of its rows or their rendering failed.
    Failed,
    /// The statement was cancelled.
    Cancelled,
}

/// A statement that was handed to the server.
#[derive(Debug, PartialEq, Eq)]
pub struct QueryRun {
    /// The form in which the rows are shown.
    pub format: OutputFormat,
    /// How the statement is named in reports.
    pub context: String,
    /// The columns of the first row, which stand for those of all rows.
    pub columns: Vec<Column>,
    /// The rows that are held back until the statement ends, for a form that
    /// needs the whole result set.
    pub held: Vec<Row>,
    /// How many rows have arrived.
    pub seen: usize,
    /// The server was asked to stop the statement.
    pub cancelling: bool,
    pub status: QueryStatus,
}

/// What the connection tells of a running statement.
#[derive(Debug, PartialEq, Eq)]
pub enum QueryEvent {
    /// A row arrived, with the columns of its result set.
    Row { columns: Vec<Column>, row: Row },
    /// A row could not be read.
    RowError(String),
    /// The server refused the statement or gave it up.
    Failed(String),
    /// The last row has arrived.
    Finished,
    /// The server was asked to stop the statement.
    CancelRequested,
    /// The server has stopped the statement.
    Cancelled,
}

/// A piece of output.
#[derive(Clone, Debug, PartialEq, Eq)]
pub enum Emit {
    /// Text for the standard output.
    Stdout(String),
    /// Text for the error stream.
    Stderr(String),
}

/// A `QueryRun` as the contracts speak of it, with texts as sequences of
/// characters.
pub struct QueryRunView {
    pub format: OutputFormat,
    pub context: Seq<char>,
    pub columns: Seq<ColumnView>,
    pub held: Seq<RowView>,
    pub seen: usize,
    pub cancelling: bool,
    pub status: QueryStatus,
}

/// A `QueryEvent` as the contracts speak of it, with texts as sequences of
/// characters.
pub enum QueryEventView {
    Row { columns: Seq<ColumnView>, row: RowView },
    RowError(Seq<char>),
    Failed(Seq<char>),
    Finished,
    CancelRequested,
    Cancelled,
}

/// An `Emit` as the contracts speak of it, with texts as sequences of
/// characters.
pub enum EmitView {
    Stdout(Seq<char>),
    Stderr(Seq<char>),
}

impl DeepView for QueryRun {
    type V = QueryRunView;

    open spec fn deep_view(&self) -> QueryRunView {
        QueryRunView {
            format: self.format,
            context: self.context@,
            columns: self.columns.deep_view(),
            held: self.held.deep_view(),
            seen: self.seen,
            cancelling: self.cancelling,
            status: self.status,
        }
    }
}

impl DeepView for QueryEvent {
    type V = QueryEventView;

    open spec fn deep_view(&self) -> QueryEventView {
        match self {
            QueryEvent::Row { columns, row } => QueryEventView::Row {
                columns: columns.deep_view(),
                row: row.deep_view(),
            },
            QueryEvent::RowError(reason) => QueryEventView::RowError(reason@),
            QueryEvent::Failed(reason) => QueryEventView::Failed(reason@),
            QueryEvent::Finished => QueryEventView::Finished,
            QueryEvent::CancelRequested => QueryEventView::CancelRequested,
            QueryEvent::Cancelled => QueryEventView::Cancelled,
        }
    }
}

impl DeepView for Emit {
    type V = EmitView;

    open spec fn deep_view(&self) -> EmitView {
        match self {
            Emit::Stdout(text) => EmitView::Stdout(text@),
            Emit::Stderr(text) => EmitView::Stderr(text@),
        }
    }
}

/// How a statement that was entered by itself is named in reports.
pub open spec fn statement_context() -> Seq<char> {
    "query"@
}

/// A run that has just begun: nothing has arrived yet.
pub open spec fn fresh_run(format: OutputFormat, context: Seq<char>) -> QueryRunView {
    QueryRunView {
        format,
        context,
        columns: Seq::empty(),
        held: Seq::empty(),
        seen: 0,
        cancelling: false,
        status: QueryStatus::Running,
    }
}

/// What is reported when a statement fails.
pub open spec fn failure_text(context: Seq<char>, reason: Seq<char>) -> Seq<char> {
    "Error executing "@ + context + ": "@ + reason + "\n"@
}

/// What is reported when a row cannot be read.
pub open spec fn row_error_text(reason: Seq<char>) -> Seq<char> {
    "Error processing row: "@ + reason + "\n"@
}

/// What is reported when a statement was cancelled.
pub open spec fn cancel_text() -> Seq<char> {
    "Query canceled.\n"@
}

/// The reason that is reported when more rows arrive than can be counted.
pub open spec fn too_many_rows_text() -> Seq<char> {
    "too many rows"@
}

/// A rendered text as output, or the report of the error that kept it from
/// being rendered.
pub open spec fn shown(result: Result<Seq<char>, FormatError>, context: Seq<char>) -> EmitView {
    match result {
        Ok(text) => EmitView::Stdout(text),
        Err(e) => EmitView::Stderr(failure_text(context, error_text(e))),
    }
}

/// The run after a row has arrived, and what is printed for the row. In the
/// vertical and the record form the row is printed at once; in the other
/// forms it is held back. The columns of the first row are kept for all
/// rows. A row that cannot be shown ends the run.
pub open spec fn after_row(
    run: QueryRunView,
    columns: Seq<ColumnView>,
    row: RowView,
) -> (QueryRunView, Seq<EmitView>) {
    let known = if run.seen == 0 {
        columns
    } else {
        run.columns
    };
    if run.seen == usize::MAX {
        (
            QueryRunView { status: QueryStatus::Failed, ..run },
            seq![EmitView::Stderr(failure_text(run.context, too_many_rows_text()))],
        )
    } else if run.format.spec_needs_full_set() {
        (
            QueryRunView {
                columns: known,
                held: run.held.push(row),
                seen: (run.seen + 1) as usize,
                ..run
            },
            Seq::empty(),
        )
    } else {
        match streamed_row(known, row, run.seen as int, run.format) {
            Ok(text) => (
                QueryRunView { columns: known, seen: (run.seen + 1) as usize, ..run },
                seq![EmitView::Stdout(text)],
            ),
            Err(e) => (
                QueryRunView { columns: known, status: QueryStatus::Failed, ..run },
                seq![EmitView::Stderr(failure_text(run.context, error_text(e)))],
            ),
        }
    }
}

/// The run after a row could not be read, and what is printed: the rows that
/// were held back, if there are any, and the report. No more rows are taken.
pub open spec fn after_row_error(
    run: QueryRunView,
    reason: Seq<char>,
) -> (QueryRunView, Seq<EmitView>) {
    let flushed = if run.format.spec_needs_full_set() && run.held.len() > 0 {
        seq![shown(formatted(run.columns, run.held, run.format), run.context)]
    } else {
        Seq::empty()
    };
    (
        QueryRunView { status: QueryStatus::Failed, held: Seq::empty(), ..run },
        flushed.push(EmitView::Stderr(row_error_text(reason))),
    )
}

/// The run after the last row, and what is printed: in a form that needs
/// the whole result set, the rows that were held back; in the other forms
/// only the notice that there were no rows, where there were none.
pub open spec fn after_finish(run: QueryRunView) -> (QueryRunView, Seq<EmitView>) {
    if run.format.spec_needs_full_set() {
        let result = formatted(run.columns, run.held, run.format);
        (
            QueryRunView {
                status: if result is Ok {
                    QueryStatus::Completed
                } else {
                    QueryStatus::Failed
                },
                held: Seq::empty(),
                ..run
            },
            seq![shown(result, run.context)],
        )
    } else {
        (
            QueryRunView { status: QueryStatus::Completed, ..run },
            if run.seen == 0 {
                seq![EmitView::Stdout(no_rows_text())]
            } else {
                Seq::empty()
            },
        )
    }
}

/// The run after it was cancelled, and the notice that is printed. The rows
/// that were held back are dropped.
pub open spec fn after_cancel(run: QueryRunView) -> (QueryRunView, Seq<EmitView>) {
    (
        QueryRunView { status: QueryStatus::Cancelled, held: Seq::empty(), ..run },
        seq![EmitView::Stderr(cancel_text())],
    )
}

/// The run after an event, and what is printed for the event.
///
/// Once the server was asked to stop the statement, an error of the
/// statement or of one of its rows is taken as the server's answer: the
/// statement ends as cancelled. Rows that still arrive are shown as ever,
/// and a statement that still comes to its end has completed. A run that
/// has ended takes no more events.
pub open spec fn query_step(
    run: QueryRunView,
    event: QueryEventView,
) -> (QueryRunView, Seq<EmitView>) {
    if run.status != QueryStatus::Running {
        (run, Seq::empty())
    } else {
        match event {
            QueryEventView::Row { columns, row } => after_row(run, columns, row),
            QueryEventView::RowError(reason) => if run.cancelling {
                after_cancel(run)
            } else {
                after_row_error(run, reason)
            },
            QueryEventView::Failed(reason) => if run.cancelling {
                after_cancel(run)
            } else {
                (
                    QueryRunView { status: QueryStatus::Failed, held: Seq::empty(), ..run },
                    seq![EmitView::Stderr(failure_text(run.context, reason))],
                )
            },
            QueryEventView::Finished => after_finish(run),
            QueryEventView::CancelRequested => (
                QueryRunView { cancelling: true, ..run },
                Seq::empty(),
            ),
            QueryEventView::Cancelled => after_cancel(run),
        }
    }
}

/// The report of a failure of the statement that `context` names.
pub fn failure(context: &str, reason: &str) -> (r: Emit)
    ensures
        r.deep_view() == EmitView::Stderr(failure_text(context@, reason@)),
{
    let mut text = concat3("Error executing ", context, ": ");
    text.append(reason);
    text.append("\n");
    assert(text@ =~= failure_text(context@, reason@));
    Emit::Stderr(text)
}

/// A rendered text as output, or the report of the error that kept it from
/// being rendered.
pub fn show(result: Result<String, FormatError>, context: &str) -> (r: Emit)
    ensures
        r.deep_view() == shown(text_result(result), context@),
{
    match result {
        Ok(text) => Emit::Stdout(text),
        Err(e) => {
            let reason = e.message();
            failure(context, reason.as_str())
        },
    }
}

/// One piece of output.
fn one(emit: Emit) -> (r: Vec<Emit>)
    ensures
        r.deep_view() == seq![emit.deep_view()],
{
    let mut r: Vec<Emit> = Vec::new();
    r.push(emit);
    assert(r.deep_view() =~= seq![emit.deep_view()]);
    r
}

/// No output.
fn nothing() -> (r: Vec<Emit>)
    ensures
        r.deep_view() == Seq::<EmitView>::empty(),
{
    let r: Vec<Emit> = Vec::new();
    assert(r.deep_view() =~= Seq::<EmitView>::empty());
    r
}

impl QueryRun {
    /// A statement that has just been handed to the server, to be shown in
    /// `format` and named `context` in reports.
    pub fn new(format: OutputFormat, context: &str) -> (run: QueryRun)
        ensures
            run.deep_view() == fresh_run(format, context@),
    {
        let run = QueryRun {
            format,
            context: String::from_str(context),
            columns: Vec::new(),
            held: Vec::new(),
            seen: 0,
            cancelling: false,
            status: QueryStatus::Running,
        };
        assert(run.columns.deep_view() =~= Seq::<ColumnView>::empty());
        assert(run.held.deep_view() =~= Seq::<RowView>::empty());
        run
    }

    /// Tells whether the statement has ended, one way or another.
    pub fn is_over(&self) -> (r: bool)
        ensures
            r == (self.status != QueryStatus::Running),
    {
        match self.status {
            QueryStatus::Running => false,
            _ => true,
        }
    }

    /// Drops the rows that were held back.
    fn release(&mut self)
        ensures
            final(self).deep_view() == (QueryRunView {
                held: Seq::empty(),
                ..old(self).deep_view()
            }),
    {
        self.held = Vec::new();
        assert(self.held.deep_view() =~= Seq::<RowView>::empty());
    }

    /// Takes in a row.
    fn on_row(&mut self, columns: Vec<Column>, row: Row) -> (r: Vec<Emit>)
        requires
            old(self).status == QueryStatus::Running,
        ensures
            final(self).deep_view() == after_row(
                old(self).deep_view(),
                columns.deep_view(),
                row.deep_view(),
            ).0,
            r.deep_view() == after_row(
                old(self).deep_view(),
                columns.deep_view(),
                row.deep_view(),
            ).1,
    {
        if self.seen == usize::MAX {
            self.status = QueryStatus::Failed;
            return one(failure(self.context.as_str(), "too many rows"));
        }
        if self.seen == 0 {
            self.columns = columns;
        }
        if self.format.needs_full_set() {
            let ghost before = self.held.deep_view();
            self.held.push(row);
            assert(self.held.deep_view() =~= before.push(row.deep_view()));
            self.seen = self.seen + 1;
            nothing()
        } else {
            match print_row(&self.columns, &row, self.seen, self.format) {
                Ok(text) => {
                    self.seen = self.seen + 1;
                    one(Emit::Stdout(text))
                },
                Err(e) => {
                    self.status = QueryStatus::Failed;
                    let reason = e.message();
                    one(failure(self.context.as_str(), reason.as_str()))
                },
            }
        }
    }

    /// Takes in the failure of a row.
    fn on_row_error(&mut self, reason: &str) -> (r: Vec<Emit>)
        requires
            old(self).status == QueryStatus::Running,
        ensures
            final(self).deep_view() == after_row_error(old(self).deep_view(), reason@).0,
            r.deep_view() == after_row_error(old(self).deep_view(), reason@).1,
    {
        let mut out: Vec<Emit> = Vec::new();
        assert(out.deep_view() =~= Seq::<EmitView>::empty());
        if self.format.needs_full_set() && self.held.len() > 0 {
            let flushed = show(
                format_rows(&self.columns, &self.held, self.format),
                self.context.as_str(),
            );
            out.push(flushed);
            assert(out.deep_view() =~= seq![flushed.deep_view()]);
        }
        let ghost before = out.deep_view();
        let report = Emit::Stderr(concat3("Error processing row: ", reason, "\n"));
        out.push(report);
        assert(out.deep_view() =~= before.push(report.deep_view()));
        self.status = QueryStatus::Failed;
        self.release();
        out
    }

    /// Takes in the end of the rows.
    fn on_finish(&mut self) -> (r: Vec<Emit>)
        requires
            old(self).status == QueryStatus::Running,
        ensures
            final(self).deep_view() == after_finish(old(self).deep_view()).0,
            r.deep_view() == after_finish(old(self).deep_view()).1,
    {
        if self.format.needs_full_set() {
            let result = format_rows(&self.columns, &self.held, self.format);
            self.status = match &result {
                Ok(_) => QueryStatus::Completed,
                Err(_) => QueryStatus::Failed,
            };
            let out = one(show(result, self.context.as_str()));
            self.release();
            out
        } else {
            self.status = QueryStatus::Completed;
            if self.seen == 0 {
                one(Emit::Stdout(no_rows()))
            } else {
                nothing()
            }
        }
    }

    /// Takes in that the statement was cancelled.
    fn on_cancel(&mut self) -> (r: Vec<Emit>)
        requires
            old(self).status == QueryStatus::Running,
        ensures
            final(self).deep_view() == after_cancel(old(self).deep_view()).0,
            r.deep_view() == after_cancel(old(self).deep_view()).1,
    {
        self.status = QueryStatus::Cancelled;
        self.release();
        one(Emit::Stderr(String::from_str("Query canceled.\n")))
    }

    /// Takes in what the connection tells of the statement, and hands back
    /// what is to be printed for it, in order. In the vertical and the
    /// record form rows are printed as they arrive; in the other forms they
    /// are held back and printed when the statement ends. A row that cannot
    /// be read or shown ends the run, and so does a cancellation, after
    /// which the rows that were held back are dropped. Once the server was
    /// asked to stop the statement, an error counts as its cancellation.
    pub fn on_event(&mut self, event: QueryEvent) -> (r: Vec<Emit>)
        ensures
            final(self).deep_view() == query_step(old(self).deep_view(), event.deep_view()).0,
            r.deep_view() == query_step(old(self).deep_view(), event.deep_view()).1,
    {
        if self.is_over() {
            return nothing();
        }
        match event {
            QueryEvent::Row { columns, row } => self.on_row(columns, row),
            QueryEvent::RowError(reason) => {
                if self.cancelling {
                    self.on_cancel()
                } else {
                    self.on_row_error(reason.as_str())
                }
            },
            QueryEvent::Failed(reason) => {
                if self.cancelling {
                    self.on_cancel()
                } else {
                    self.status = QueryStatus::Failed;
                    let out = one(failure(self.context.as_str(), reason.as_str()));
                    self.release();
                    out
                }
            },
            QueryEvent::Finished => self.on_finish(),
            QueryEvent::CancelRequested => {
                self.cancelling = true;
                nothing()
            },
            QueryEvent::Cancelled => self.on_cancel(),
        }
    }
}

/// Begins the run of a statement that was entered by itself, to be shown
/// in the form that `format` names. A text that holds nothing but spaces
/// is no statement: there is nothing to run.
pub fn execute_query_command(query: &str, format: &str) -> (r: Option<QueryRun>)
    ensures
        match r {
            Some(run) => trimmed(query@).len() > 0 && run.deep_view() == fresh_run(
                OutputFormat::of_name(format@),
                statement_context(),
            ),
            None => trimmed(query@).len() == 0,
        },
{
    if trim(query).is_empty() {
        None
    } else {
        Some(QueryRun::new(OutputFormat::from_str(format), "query"))
    }
}

/// A run that has ended stays as it is and prints nothing, whatever
/// arrives.
pub proof fn lemma_ended_run_is_silent(run: QueryRunView, event: QueryEventView)
    requires
        run.status != QueryStatus::Running,
    ensures
        query_step(run, event) == (run, Seq::<EmitView>::empty()),
{
}

/// Every event but a row and the request to stop ends the run, and a run
/// that has ended holds no rows back.
pub proof fn lemma_run_ends(run: QueryRunView, event: QueryEventView)
    requires
        run.status == QueryStatus::Running,
        !(event is Row),
        !(event is CancelRequested),
    ensures
        query_step(run, event).0.status != QueryStatus::Running,
        query_step(run, event).0.held.len() == 0 || !run.format.spec_needs_full_set(),
{
}

/// A statement that ends without rows has completed, and what is printed
/// for it is what its form prints for an empty result set.
pub proof fn lemma_no_rows_is_no_error(format: OutputFormat, context: Seq<char>)
    ensures
        query_step(fresh_run(format, context), QueryEventView::Finished).0.status
            == QueryStatus::Completed,
        query_step(fresh_run(format, context), QueryEventView::Finished).1 == seq![
            EmitView::Stdout(
                if format == OutputFormat::Json {
                    empty_array_text()
                } else {
                    no_rows_text()
                },
            ),
        ],
{
    lemma_empty_result_set(Seq::empty(), format);
}

/// A running statement that the server was asked to stop ends as
/// cancelled, with the notice and nothing else, when the server says so or
/// answers with an error; the rows that were held back are not printed.
pub proof fn lemma_cancelled_run(run: QueryRunView, answer: QueryEventView)
    requires
        run.status == QueryStatus::Running,
        answer is Cancelled || answer is RowError || answer is Failed,
    ensures
        ({
            let asked = query_step(run, QueryEventView::CancelRequested).0;
            asked == (QueryRunView { cancelling: true, ..run }) && query_step(asked, answer) == (
                QueryRunView { status: QueryStatus::Cancelled, held: Seq::empty(), ..asked },
                seq![EmitView::Stderr(cancel_text())],
            )
        }),
{
}

} // verus!
