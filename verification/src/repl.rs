//! The interactive session: what each line of input and each signal leads
//! to. The session decides; whoever drives it reads the lines, talks to the
//! server and hands back what happened.

use crate::commands::{handle_meta_command, meta_action, MetaAction, MetaActionView};
use crate::completer::{
    distinct_names, keyword_list, meta_command_list, CompleterView, SQLCompleter,
};
use crate::output::OutputFormat;
use crate::query::statement_context;
use crate::text::{concat3, str_eq, trim, trimmed};
use vstd::prelude::*;
use vstd::string::*;

verus! {

/// What the session is waiting for.
#[derive(Clone, Copy, Debug, PartialEq, Eq, Structural)]
pub enum Phase {
    /// The next line of input.
    Idle,
    /// The end of the statement that is running.
    Running,
    /// The end of the statement that is running and was asked to stop.
    Cancelling,
    /// The names of the tables.
    Refreshing,
    /// Nothing: the session is over.
    Closed,
}

/// The state of the interactive session.
#[derive(Clone, Debug, PartialEq, Eq)]
pub struct Session {
    /// The form in which results are shown.
    pub format: OutputFormat,
    /// The candidates for completion, with the names of the tables.
    pub completer: SQLCompleter,
    /// The lines that were entered, oldest first, behind those that were
    /// loaded at the start.
    pub history: Vec<String>,
    pub phase: Phase,
}

/// What happened outside the session.
#[derive(Clone, Debug, PartialEq, Eq)]
pub enum ReplEvent {
    /// A line was entered.
    Line(String),
    /// An interrupt signal arrived.
    Interrupt,
    /// The line that was being entered was given up with the interrupt key.
    InputInterrupted,
    /// There is no more input.
    EndOfInput,
    /// The input could not be read.
    InputError(String),
    /// The statement that was running has ended, one way or another.
    QueryOver,
    /// The names of the tables were fetched; a name may be null.
    Refreshed(Vec<Option<String>>),
    /// The names of the tables could not be fetched.
    RefreshFailed(String),
}

/// What the session asks to be done.
#[derive(Clone, Debug, PartialEq, Eq)]
pub enum ReplAction {
    /// Print this text.
    Print(String),
    /// Report this text as an error.
    Report(String),
    /// Run this statement; `context` names it in reports.
    RunQuery { sql: String, context: String },
    /// Fetch the names of the tables.
    FetchTables,
    /// Ask the server to stop the statement that is running.
    CancelQuery,
    /// Write the history out and leave.
    SaveHistory,
}

/// A `Session` as the contracts speak of it, with texts as sequences of
/// characters.
pub struct SessionView {
    pub format: OutputFormat,
    pub completer: CompleterView,
    pub history: Seq<Seq<char>>,
    pub phase: Phase,
}

/// A `ReplEvent` as the contracts speak of it, with texts as sequences of
/// characters.
pub enum ReplEventView {
    Line(Seq<char>),
    Interrupt,
    InputInterrupted,
    EndOfInput,
    InputError(Seq<char>),
    QueryOver,
    Refreshed(Seq<Option<Seq<char>>>),
    RefreshFailed(Seq<char>),
}

/// A `ReplAction` as the contracts speak of it, with texts as sequences of
/// characters.
pub enum ReplActionView {
    Print(Seq<char>),
    Report(Seq<char>),
    RunQuery { sql: Seq<char>, context: Seq<char> },
    FetchTables,
    CancelQuery,
    SaveHistory,
}

impl DeepView for Session {
    type V = SessionView;

    open spec fn deep_view(&self) -> SessionView {
        SessionView {
            format: self.format,
            completer: self.completer.deep_view(),
            history: self.history.deep_view(),
            phase: self.phase,
        }
    }
}

impl DeepView for ReplEvent {
    type V = ReplEventView;

    open spec fn deep_view(&self) -> ReplEventView {
        match self {
            ReplEvent::Line(line) => ReplEventView::Line(line@),
            ReplEvent::Interrupt => ReplEventView::Interrupt,
            ReplEvent::InputInterrupted => ReplEventView::InputInterrupted,
            ReplEvent::EndOfInput => ReplEventView::EndOfInput,
            ReplEvent::InputError(reason) => ReplEventView::InputError(reason@),
            ReplEvent::QueryOver => ReplEventView::QueryOver,
            ReplEvent::Refreshed(names) => ReplEventView::Refreshed(names.deep_view()),
            ReplEvent::RefreshFailed(reason) => ReplEventView::RefreshFailed(reason@),
        }
    }
}

impl DeepView for ReplAction {
    type V = ReplActionView;

    open spec fn deep_view(&self) -> ReplActionView {
        match self {
            ReplAction::Print(text) => ReplActionView::Print(text@),
            ReplAction::Report(text) => ReplActionView::Report(text@),
            ReplAction::RunQuery { sql, context } => ReplActionView::RunQuery {
                sql: sql@,
                context: context@,
            },
            ReplAction::FetchTables => ReplActionView::FetchTables,
            ReplAction::CancelQuery => ReplActionView::CancelQuery,
            ReplAction::SaveHistory => ReplActionView::SaveHistory,
        }
    }
}

/// The line that ends the session.
pub open spec fn quit_command() -> Seq<char> {
    "\\q"@
}

/// What is printed when the session begins.
pub open spec fn welcome_text() -> Seq<char> {
    "Connected to QuestDB. Type '\\q' to quit.\n"@
}

/// What is printed when no history could be loaded.
pub open spec fn no_history_text() -> Seq<char> {
    "No previous history.\n"@
}

/// What is reported when the names of the tables cannot be fetched at the
/// start.
pub open spec fn fetch_failure_text(reason: Seq<char>) -> Seq<char> {
    "Failed to fetch table names: "@ + reason + "\n"@
}

/// What is printed for an interrupt while no statement is running.
pub open spec fn idle_interrupt_text() -> Seq<char> {
    "\nReceived Ctrl+C. No query is running.\n"@
}

/// What is printed when a line is given up with the interrupt key.
pub open spec fn input_interrupted_text() -> Seq<char> {
    "Use \\q to quit.\n"@
}

/// What is printed when the session is left by its command.
pub open spec fn goodbye_text() -> Seq<char> {
    "Goodbye!\n"@
}

/// What is printed when the input ends.
pub open spec fn end_of_input_text() -> Seq<char> {
    "Exiting...\n"@
}

/// What is printed when the input cannot be read.
pub open spec fn input_error_text(reason: Seq<char>) -> Seq<char> {
    "Error: "@ + reason + "\n"@
}

/// What is printed before the names of the tables are fetched again.
pub open spec fn refreshing_text() -> Seq<char> {
    "Refreshing metadata...\n"@
}

/// What is printed when the names of the tables were fetched again.
pub open spec fn refreshed_text() -> Seq<char> {
    "Metadata refreshed.\n"@
}

/// What is reported when the names of the tables cannot be fetched again.
pub open spec fn refresh_failure_text(reason: Seq<char>) -> Seq<char> {
    "Failed to refresh metadata: "@ + reason + "\n"@
}

/// The line is a meta command: it begins with a backslash.
pub open spec fn is_meta_command(line: Seq<char>) -> bool {
    line.len() > 0 && line[0] == '\\'
}

/// The session as it begins, and what is printed first. The format is the
/// one that `format` names, or the table where it names none. The history
/// is what was loaded, or empty where nothing could be loaded, which is
/// said. The names of the tables are those that were fetched; where they
/// could not be fetched, that is reported and there are none.
pub open spec fn session_start(
    format: Seq<char>,
    loaded: Option<Seq<Seq<char>>>,
    fetched: Result<Seq<Option<Seq<char>>>, Seq<char>>,
) -> (SessionView, Seq<ReplActionView>) {
    let tables = match fetched {
        Ok(names) => distinct_names(names, names.len() as int),
        Err(_) => Seq::empty(),
    };
    let history = match loaded {
        Some(lines) => lines,
        None => Seq::empty(),
    };
    let about_tables = match fetched {
        Ok(_) => Seq::empty(),
        Err(reason) => seq![ReplActionView::Report(fetch_failure_text(reason))],
    };
    let about_history = match loaded {
        Some(_) => Seq::empty(),
        None => seq![ReplActionView::Print(no_history_text())],
    };
    (
        SessionView {
            format: OutputFormat::of_name(format),
            completer: CompleterView {
                keywords: keyword_list(),
                meta_commands: meta_command_list(),
                tables,
            },
            history,
            phase: Phase::Idle,
        },
        about_tables + about_history + seq![ReplActionView::Print(welcome_text())],
    )
}

/// The session after a line was entered while it was idle, and what the
/// line leads to. The line joins the history as it was entered. Without the
/// spaces around it, it is the command that ends the session, a meta
/// command, a statement, or nothing.
pub open spec fn after_line(s: SessionView, line: Seq<char>) -> (SessionView, Seq<ReplActionView>) {
    let noted = SessionView { history: s.history.push(line), ..s };
    let entered = trimmed(line);
    if entered == quit_command() {
        (
            SessionView { phase: Phase::Closed, ..noted },
            seq![ReplActionView::Print(goodbye_text()), ReplActionView::SaveHistory],
        )
    } else if is_meta_command(entered) {
        let (format, action) = meta_action(entered, s.format);
        match action {
            MetaActionView::Print(text) => (
                SessionView { format, ..noted },
                seq![ReplActionView::Print(text)],
            ),
            MetaActionView::Report(text) => (
                SessionView { format, ..noted },
                seq![ReplActionView::Report(text)],
            ),
            MetaActionView::Query { sql, command } => (
                SessionView { format, phase: Phase::Running, ..noted },
                seq![ReplActionView::RunQuery { sql, context: command }],
            ),
            MetaActionView::Refresh => (
                SessionView { format, phase: Phase::Refreshing, ..noted },
                seq![ReplActionView::Print(refreshing_text()), ReplActionView::FetchTables],
            ),
        }
    } else if entered.len() > 0 {
        (
            SessionView { phase: Phase::Running, ..noted },
            seq![ReplActionView::RunQuery { sql: entered, context: statement_context() }],
        )
    } else {
        (noted, Seq::empty())
    }
}

/// The session after an event that finds it idle.
pub open spec fn idle_step(s: SessionView, e: ReplEventView) -> (SessionView, Seq<ReplActionView>) {
    match e {
        ReplEventView::Line(line) => after_line(s, line),
        ReplEventView::Interrupt => (s, seq![ReplActionView::Print(idle_interrupt_text())]),
        ReplEventView::InputInterrupted => (
            s,
            seq![ReplActionView::Print(input_interrupted_text())],
        ),
        ReplEventView::EndOfInput => (
            SessionView { phase: Phase::Closed, ..s },
            seq![ReplActionView::Print(end_of_input_text()), ReplActionView::SaveHistory],
        ),
        ReplEventView::InputError(reason) => (
            SessionView { phase: Phase::Closed, ..s },
            seq![ReplActionView::Print(input_error_text(reason)), ReplActionView::SaveHistory],
        ),
        _ => (s, Seq::empty()),
    }
}

/// The session after an event that finds it waiting for the names of the
/// tables. Names that could not be fetched leave those that are known in
/// place.
pub open spec fn refreshing_step(
    s: SessionView,
    e: ReplEventView,
) -> (SessionView, Seq<ReplActionView>) {
    match e {
        ReplEventView::Refreshed(names) => (
            SessionView {
                completer: CompleterView {
                    tables: distinct_names(names, names.len() as int),
                    ..s.completer
                },
                phase: Phase::Idle,
                ..s
            },
            seq![ReplActionView::Print(refreshed_text())],
        ),
        ReplEventView::RefreshFailed(reason) => (
            SessionView { phase: Phase::Idle, ..s },
            seq![ReplActionView::Report(refresh_failure_text(reason))],
        ),
        ReplEventView::Interrupt => (s, seq![ReplActionView::Print(idle_interrupt_text())]),
        _ => (s, Seq::empty()),
    }
}

/// The session after an event, and what the event leads to, in order.
///
/// While a statement runs, an interrupt asks the server to stop it, and
/// nothing else is taken in until the statement has ended; a second
/// interrupt is ignored. While no statement runs, an interrupt is only
/// mentioned. A session that is over takes no more events.
pub open spec fn repl_step(s: SessionView, e: ReplEventView) -> (SessionView, Seq<ReplActionView>) {
    match s.phase {
        Phase::Idle => idle_step(s, e),
        Phase::Running => match e {
            ReplEventView::Interrupt => (
                SessionView { phase: Phase::Cancelling, ..s },
                seq![ReplActionView::CancelQuery],
            ),
            ReplEventView::QueryOver => (SessionView { phase: Phase::Idle, ..s }, Seq::empty()),
            _ => (s, Seq::empty()),
        },
        Phase::Cancelling => match e {
            ReplEventView::QueryOver => (SessionView { phase: Phase::Idle, ..s }, Seq::empty()),
            _ => (s, Seq::empty()),
        },
        Phase::Refreshing => refreshing_step(s, e),
        Phase::Closed => (s, Seq::empty()),
    }
}

/// The actions hold a request to run a statement.
pub open spec fn asks_for_query(actions: Seq<ReplActionView>) -> bool {
    exists|i: int| 0 <= i < actions.len() && (#[trigger] actions[i]) is RunQuery
}

/// The actions hold the request to write the history out.
pub open spec fn asks_to_save(actions: Seq<ReplActionView>) -> bool {
    exists|i: int| 0 <= i < actions.len() && (#[trigger] actions[i]) is SaveHistory
}

/// No action.
fn none() -> (r: Vec<ReplAction>)
    ensures
        r.deep_view() == Seq::<ReplActionView>::empty(),
{
    let r: Vec<ReplAction> = Vec::new();
    assert(r.deep_view() =~= Seq::<ReplActionView>::empty());
    r
}

/// One action.
fn single(action: ReplAction) -> (r: Vec<ReplAction>)
    ensures
        r.deep_view() == seq![action.deep_view()],
{
    let mut r: Vec<ReplAction> = Vec::new();
    r.push(action);
    assert(r.deep_view() =~= seq![action.deep_view()]);
    r
}

/// Two actions.
fn pair(first: ReplAction, second: ReplAction) -> (r: Vec<ReplAction>)
    ensures
        r.deep_view() == seq![first.deep_view(), second.deep_view()],
{
    let mut r: Vec<ReplAction> = Vec::new();
    r.push(first);
    r.push(second);
    assert(r.deep_view() =~= seq![first.deep_view(), second.deep_view()]);
    r
}

/// Begins the session with what was read at the start: the name of the
/// format, the history, where one could be loaded, and the names of the
/// tables or the reason why they could not be fetched.
pub fn start_repl(
    default_format: &str,
    loaded: Option<Vec<String>>,
    fetched: Result<Vec<Option<String>>, String>,
) -> (r: (Session, Vec<ReplAction>))
    ensures
        r.0.deep_view() == session_start(
            default_format@,
            loaded.deep_view(),
            fetched_view(fetched),
        ).0,
        r.1.deep_view() == session_start(
            default_format@,
            loaded.deep_view(),
            fetched_view(fetched),
        ).1,
{
    let mut completer = SQLCompleter::new();
    let mut actions: Vec<ReplAction> = Vec::new();
    assert(actions.deep_view() =~= Seq::<ReplActionView>::empty());
    match fetched {
        Ok(names) => {
            completer.update_tables(names);
        },
        Err(reason) => {
            let report = ReplAction::Report(
                concat3("Failed to fetch table names: ", reason.as_str(), "\n"),
            );
            actions.push(report);
            assert(actions.deep_view() =~= seq![report.deep_view()]);
        },
    }
    let history = match loaded {
        Some(lines) => lines,
        None => {
            let ghost before = actions.deep_view();
            let notice = ReplAction::Print(String::from_str("No previous history.\n"));
            actions.push(notice);
            assert(actions.deep_view() =~= before.push(notice.deep_view()));
            let lines: Vec<String> = Vec::new();
            assert(lines.deep_view() =~= Seq::<Seq<char>>::empty());
            lines
        },
    };
    let ghost before = actions.deep_view();
    let welcome = ReplAction::Print(
        String::from_str("Connected to QuestDB. Type '\\q' to quit.\n"),
    );
    actions.push(welcome);
    assert(actions.deep_view() =~= before.push(welcome.deep_view()));
    let session = Session {
        format: OutputFormat::from_str(default_format),
        completer,
        history,
        phase: Phase::Idle,
    };
    assert(actions.deep_view() =~= session_start(
        default_format@,
        loaded.deep_view(),
        fetched_view(fetched),
    ).1);
    (session, actions)
}

/// What was fetched, or the reason why nothing was, as plain sequences.
pub open spec fn fetched_view(
    fetched: Result<Vec<Option<String>>, String>,
) -> Result<Seq<Option<Seq<char>>>, Seq<char>> {
    match fetched {
        Ok(names) => Ok(names.deep_view()),
        Err(reason) => Err(reason@),
    }
}

impl Session {
    /// Takes in a line that was entered while the session was idle.
    fn on_line(&mut self, line: String) -> (r: Vec<ReplAction>)
        requires
            old(self).phase == Phase::Idle,
        ensures
            final(self).deep_view() == after_line(old(self).deep_view(), line@).0,
            r.deep_view() == after_line(old(self).deep_view(), line@).1,
    {
        let ghost before = self.history.deep_view();
        self.history.push(line.clone());
        assert(self.history.deep_view() =~= before.push(line@));
        let entered = trim(line.as_str());
        if str_eq(entered, "\\q") {
            self.phase = Phase::Closed;
            pair(ReplAction::Print(String::from_str("Goodbye!\n")), ReplAction::SaveHistory)
        } else if !entered.is_empty() && entered.get_char(0) == '\\' {
            match handle_meta_command(entered, &mut self.format) {
                MetaAction::Print(text) => single(ReplAction::Print(text)),
                MetaAction::Report(text) => single(ReplAction::Report(text)),
                MetaAction::Query { sql, command } => {
                    self.phase = Phase::Running;
                    single(ReplAction::RunQuery { sql, context: command })
                },
                MetaAction::Refresh => {
                    self.phase = Phase::Refreshing;
                    pair(
                        ReplAction::Print(String::from_str("Refreshing metadata...\n")),
                        ReplAction::FetchTables,
                    )
                },
            }
        } else if !entered.is_empty() {
            self.phase = Phase::Running;
            single(
                ReplAction::RunQuery {
                    sql: String::from_str(entered),
                    context: String::from_str("query"),
                },
            )
        } else {
            none()
        }
    }

    /// Takes in an event that finds the session idle.
    fn on_idle(&mut self, event: ReplEvent) -> (r: Vec<ReplAction>)
        requires
            old(self).phase == Phase::Idle,
        ensures
            final(self).deep_view() == idle_step(old(self).deep_view(), event.deep_view()).0,
            r.deep_view() == idle_step(old(self).deep_view(), event.deep_view()).1,
    {
        match event {
            ReplEvent::Line(line) => self.on_line(line),
            ReplEvent::Interrupt => single(
                ReplAction::Print(String::from_str("\nReceived Ctrl+C. No query is running.\n")),
            ),
            ReplEvent::InputInterrupted => single(
                ReplAction::Print(String::from_str("Use \\q to quit.\n")),
            ),
            ReplEvent::EndOfInput => {
                self.phase = Phase::Closed;
                pair(ReplAction::Print(String::from_str("Exiting...\n")), ReplAction::SaveHistory)
            },
            ReplEvent::InputError(reason) => {
                self.phase = Phase::Closed;
                pair(
                    ReplAction::Print(concat3("Error: ", reason.as_str(), "\n")),
                    ReplAction::SaveHistory,
                )
            },
            _ => none(),
        }
    }

    /// Takes in an event that finds the session waiting for the names of the
    /// tables.
    fn on_refreshing(&mut self, event: ReplEvent) -> (r: Vec<ReplAction>)
        requires
            old(self).phase == Phase::Refreshing,
        ensures
            final(self).deep_view() == refreshing_step(
                old(self).deep_view(),
                event.deep_view(),
            ).0,
            r.deep_view() == refreshing_step(old(self).deep_view(), event.deep_view()).1,
    {
        match event {
            ReplEvent::Refreshed(names) => {
                self.completer.update_tables(names);
                self.phase = Phase::Idle;
                single(ReplAction::Print(String::from_str("Metadata refreshed.\n")))
            },
            ReplEvent::RefreshFailed(reason) => {
                self.phase = Phase::Idle;
                single(
                    ReplAction::Report(
                        concat3("Failed to refresh metadata: ", reason.as_str(), "\n"),
                    ),
                )
            },
            ReplEvent::Interrupt => single(
                ReplAction::Print(String::from_str("\nReceived Ctrl+C. No query is running.\n")),
            ),
            _ => none(),
        }
    }

    /// Takes in what happened outside the session, and hands back what is
    /// to be done about it, in order.
    pub fn step(&mut self, event: ReplEvent) -> (r: Vec<ReplAction>)
        ensures
            final(self).deep_view() == repl_step(old(self).deep_view(), event.deep_view()).0,
            r.deep_view() == repl_step(old(self).deep_view(), event.deep_view()).1,
    {
        match self.phase {
            Phase::Idle => self.on_idle(event),
            Phase::Running => match event {
                ReplEvent::Interrupt => {
                    self.phase = Phase::Cancelling;
                    single(ReplAction::CancelQuery)
                },
                ReplEvent::QueryOver => {
                    self.phase = Phase::Idle;
                    none()
                },
                _ => none(),
            },
            Phase::Cancelling => match event {
                ReplEvent::QueryOver => {
                    self.phase = Phase::Idle;
                    none()
                },
                _ => none(),
            },
            Phase::Refreshing => self.on_refreshing(event),
            Phase::Closed => none(),
        }
    }
}

/// The history only grows, and only by the line that was entered: each
/// event leaves it as it was, or puts the line that it brings behind it.
pub proof fn lemma_history_is_append_only(s: SessionView, e: ReplEventView)
    ensures
        repl_step(s, e).0.history == s.history || (s.phase == Phase::Idle && e is Line && repl_step(
            s,
            e,
        ).0.history == s.history.push(e->Line_0)),
{
}

/// A statement is only started while the session is idle, and the session
/// then waits for it to end: no second statement can be started before.
pub proof fn lemma_one_statement_at_a_time(s: SessionView, e: ReplEventView)
    requires
        asks_for_query(repl_step(s, e).1),
    ensures
        s.phase == Phase::Idle,
        e is Line,
        repl_step(s, e).0.phase == Phase::Running,
{
    let actions = repl_step(s, e).1;
    let i = choose|i: int| 0 <= i < actions.len() && (#[trigger] actions[i]) is RunQuery;
    assert(actions[i] is RunQuery);
}

/// While a statement runs or is being cancelled, nothing but its end and
/// the first interrupt changes the session, and no line is taken in.
pub proof fn lemma_busy_session_waits(s: SessionView, e: ReplEventView)
    requires
        s.phase == Phase::Running || s.phase == Phase::Cancelling,
        !(e is QueryOver),
        !(e is Interrupt && s.phase == Phase::Running),
    ensures
        repl_step(s, e) == (s, Seq::<ReplActionView>::empty()),
{
}

/// An interrupt while the session is idle is mentioned and changes nothing:
/// the next line is taken in as if there had been no interrupt.
pub proof fn lemma_idle_interrupt_is_harmless(s: SessionView, next: ReplEventView)
    requires
        s.phase == Phase::Idle,
    ensures
        repl_step(s, ReplEventView::Interrupt) == (
            s,
            seq![ReplActionView::Print(idle_interrupt_text())],
        ),
        repl_step(repl_step(s, ReplEventView::Interrupt).0, next) == repl_step(s, next),
{
}

/// An interrupt while a statement runs asks the server to stop it; once
/// the statement has ended, the session is idle again and takes the next
/// line in as ever.
pub proof fn lemma_interrupt_cancels(s: SessionView, next: ReplEventView)
    requires
        s.phase == Phase::Running,
    ensures
        repl_step(s, ReplEventView::Interrupt) == (
            SessionView { phase: Phase::Cancelling, ..s },
            seq![ReplActionView::CancelQuery],
        ),
        ({
            let cancelling = repl_step(s, ReplEventView::Interrupt).0;
            let idle = repl_step(cancelling, ReplEventView::QueryOver).0;
            idle == (SessionView { phase: Phase::Idle, ..s }) && repl_step(idle, next) == idle_step(
                idle,
                next,
            )
        }),
{
}

/// The format of the session changes only when `\format` is entered with
/// the name of a format.
pub proof fn lemma_format_is_stable(s: SessionView, e: ReplEventView)
    ensures
        repl_step(s, e).0.format == s.format || (s.phase == Phase::Idle && e is Line
            && meta_action(trimmed(e->Line_0), s.format).0 == repl_step(s, e).0.format),
{
}

/// Names that could not be fetched leave the names of the tables as they
/// were.
pub proof fn lemma_failed_refresh_keeps_tables(s: SessionView, reason: Seq<char>)
    ensures
        repl_step(s, ReplEventView::RefreshFailed(reason)).0.completer == s.completer,
{
}

/// The session ends only when that is asked for: by its command, by the
/// end of the input or by an input that cannot be read. No statement, no
/// meta command, no failure and no interrupt ends it.
pub proof fn lemma_session_closes_only_on_request(s: SessionView, e: ReplEventView)
    requires
        s.phase != Phase::Closed,
        repl_step(s, e).0.phase == Phase::Closed,
    ensures
        s.phase == Phase::Idle,
        e is EndOfInput || e is InputError || (e is Line && trimmed(e->Line_0) == quit_command()),
{
}

/// The history is written out exactly when the session ends.
pub proof fn lemma_history_is_saved_at_the_end(s: SessionView, e: ReplEventView)
    ensures
        asks_to_save(repl_step(s, e).1) <==> s.phase != Phase::Closed && repl_step(s, e).0.phase
            == Phase::Closed,
{
    let actions = repl_step(s, e).1;
    if asks_to_save(actions) {
        let i = choose|i: int| 0 <= i < actions.len() && (#[trigger] actions[i]) is SaveHistory;
        assert(actions[i] is SaveHistory);
    }
    if s.phase != Phase::Closed && repl_step(s, e).0.phase == Phase::Closed {
        lemma_session_closes_only_on_request(s, e);
        assert(actions[1] is SaveHistory);
    }
}

} // verus!
