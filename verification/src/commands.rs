//! The meta commands: lines that begin with a backslash and are handled by
//! the client itself.

use crate::output::OutputFormat;
use crate::text::{
    after_first_word, concat3, first_word, is_space, lemma_word_without_space, lowercase_of,
    split_first_word, str_eq,
};
use vstd::prelude::*;
use vstd::string::*;

verus! {

/// What a meta command asks the session to do.
#[derive(Clone, Debug, PartialEq, Eq)]
pub enum MetaAction {
    /// Print this text.
    Print(String),
    /// Report this text as an error.
    Report(String),
    /// Run this statement; `command` names the meta command in reports.
    Query { sql: String, command: String },
    /// Fetch the names of the tables again.
    Refresh,
}

/// A `MetaAction` as the contracts speak of it, with texts as sequences of
/// characters.
pub enum MetaActionView {
    Print(Seq<char>),
    Report(Seq<char>),
    Query { sql: Seq<char>, command: Seq<char> },
    Refresh,
}

impl DeepView for MetaAction {
    type V = MetaActionView;

    open spec fn deep_view(&self) -> MetaActionView {
        match self {
            MetaAction::Print(text) => MetaActionView::Print(text@),
            MetaAction::Report(text) => MetaActionView::Report(text@),
            MetaAction::Query { sql, command } => MetaActionView::Query {
                sql: sql@,
                command: command@,
            },
            MetaAction::Refresh => MetaActionView::Refresh,
        }
    }
}

/// The list of the meta commands that `\help` prints.
pub open spec fn help_text() -> Seq<char> {
    "Meta commands:\n"@
        + "  \\q                 Quit\n"@
        + "  \\help              Show this help message\n"@
        + "  \\dt                List all tables\n"@
        + "  \\dwal              List all WAL tables\n"@
        + "  \\dstorage <table>  Show storage details for a table\n"@
        + "  \\refresh           Refresh metadata\n"@
        + "  \\format [format]   Set output format (table, csv, json, vertical, record)\n"@
}

/// What `\dstorage` reports when no table is named.
pub open spec fn storage_usage_text() -> Seq<char> {
    "Usage: \\dstorage <table>\n"@
}

/// The statement that lists all tables.
pub open spec fn tables_query() -> Seq<char> {
    "SELECT * FROM tables()"@
}

/// The statement that lists the tables with a write-ahead log.
pub open spec fn wal_tables_query() -> Seq<char> {
    "SELECT * FROM wal_tables()"@
}

/// The statement that shows how `table` is stored.
pub open spec fn storage_query(table: Seq<char>) -> Seq<char> {
    "SELECT * FROM table_storage('"@ + table + "')"@
}

/// What `\format` without a name prints: the current format and the names
/// that can be chosen.
pub open spec fn format_report(format: OutputFormat) -> Seq<char> {
    "Current format: "@ + format.name()
        + "\nAvailable formats: table, csv, json, vertical, record\n"@
}

/// What `\format` prints when it has changed the format.
pub open spec fn format_set_text(format: OutputFormat) -> Seq<char> {
    "Output format set to '"@ + format.name() + "'\n"@
}

/// What `\format` reports for a name that stands for no format.
pub open spec fn invalid_format_text(name: Seq<char>) -> Seq<char> {
    "Invalid format '"@ + name + "'. Available formats: table, csv, json, vertical, record\n"@
}

/// What is reported for a line that begins with a backslash and is no meta
/// command.
pub open spec fn unknown_command_text(command: Seq<char>) -> Seq<char> {
    "Unknown meta command: "@ + command + "\n"@
}

/// What a meta command does: the format that is current after it, and what
/// it asks of the session. The command is told by the first word of the
/// line; what follows that word is its argument.
pub open spec fn meta_action(
    command: Seq<char>,
    format: OutputFormat,
) -> (OutputFormat, MetaActionView) {
    let word = first_word(command);
    let argument = after_first_word(command);
    if word == "\\help"@ {
        (format, MetaActionView::Print(help_text()))
    } else if word == "\\dt"@ {
        (format, MetaActionView::Query { sql: tables_query(), command: "\\dt"@ })
    } else if word == "\\dwal"@ {
        (format, MetaActionView::Query { sql: wal_tables_query(), command: "\\dwal"@ })
    } else if word == "\\dstorage"@ {
        if argument.len() == 0 {
            (format, MetaActionView::Report(storage_usage_text()))
        } else {
            (
                format,
                MetaActionView::Query { sql: storage_query(argument), command: "\\dstorage"@ },
            )
        }
    } else if word == "\\refresh"@ {
        (format, MetaActionView::Refresh)
    } else if word == "\\format"@ {
        if argument.len() == 0 {
            (format, MetaActionView::Print(format_report(format)))
        } else {
            match OutputFormat::named(lowercase_of(argument)) {
                Some(chosen) => (chosen, MetaActionView::Print(format_set_text(chosen))),
                None => (format, MetaActionView::Report(invalid_format_text(argument))),
            }
        }
    } else {
        (format, MetaActionView::Report(unknown_command_text(command)))
    }
}

/// The list of the meta commands.
pub fn help() -> (r: String)
    ensures
        r@ == help_text(),
{
    let mut out = String::from_str("Meta commands:\n");
    out.append("  \\q                 Quit\n");
    out.append("  \\help              Show this help message\n");
    out.append("  \\dt                List all tables\n");
    out.append("  \\dwal              List all WAL tables\n");
    out.append("  \\dstorage <table>  Show storage details for a table\n");
    out.append("  \\refresh           Refresh metadata\n");
    out.append("  \\format [format]   Set output format (table, csv, json, vertical, record)\n");
    assert(out@ =~= help_text());
    out
}

/// Interprets the argument of `\format`, where one was given: the format
/// that it names is chosen; for a name that stands for no format nothing
/// changes and the name is reported.
pub fn choose_format(
    argument: &str,
    chosen: Option<OutputFormat>,
    format: &mut OutputFormat,
) -> (r: MetaAction)
    ensures
        match chosen {
            Some(f) => *final(format) == f && r.deep_view() == MetaActionView::Print(
                format_set_text(f),
            ),
            None => *final(format) == *old(format) && r.deep_view() == MetaActionView::Report(
                invalid_format_text(argument@),
            ),
        },
{
    match chosen {
        Some(f) => {
            *format = f;
            MetaAction::Print(concat3("Output format set to '", f.as_str(), "'\n"))
        },
        None => MetaAction::Report(
            concat3(
                "Invalid format '",
                argument,
                "'. Available formats: table, csv, json, vertical, record\n",
            ),
        ),
    }
}

/// Interprets one meta command, given without spaces around it. A change of
/// the format is made in `format`; whatever needs the server is handed back
/// to be carried out.
pub fn handle_meta_command(command: &str, format: &mut OutputFormat) -> (r: MetaAction)
    ensures
        (*final(format), r.deep_view()) == meta_action(command@, *old(format)),
{
    let (word, argument) = split_first_word(command);
    if str_eq(word, "\\help") {
        MetaAction::Print(help())
    } else if str_eq(word, "\\dt") {
        MetaAction::Query {
            sql: String::from_str("SELECT * FROM tables()"),
            command: String::from_str("\\dt"),
        }
    } else if str_eq(word, "\\dwal") {
        MetaAction::Query {
            sql: String::from_str("SELECT * FROM wal_tables()"),
            command: String::from_str("\\dwal"),
        }
    } else if str_eq(word, "\\dstorage") {
        if argument.is_empty() {
            MetaAction::Report(String::from_str("Usage: \\dstorage <table>\n"))
        } else {
            MetaAction::Query {
                sql: concat3("SELECT * FROM table_storage('", argument, "')"),
                command: String::from_str("\\dstorage"),
            }
        }
    } else if str_eq(word, "\\refresh") {
        MetaAction::Refresh
    } else if str_eq(word, "\\format") {
        if argument.is_empty() {
            MetaAction::Print(
                concat3(
                    "Current format: ",
                    format.as_str(),
                    "\nAvailable formats: table, csv, json, vertical, record\n",
                ),
            )
        } else {
            let chosen = OutputFormat::parse(argument);
            choose_format(argument, chosen, format)
        }
    } else {
        MetaAction::Report(concat3("Unknown meta command: ", command, "\n"))
    }
}

/// The words of the meta commands differ from one another.
pub proof fn lemma_command_words_differ()
    ensures
        "\\help"@ != "\\dt"@,
        "\\help"@ != "\\dwal"@,
        "\\help"@ != "\\dstorage"@,
        "\\help"@ != "\\refresh"@,
        "\\help"@ != "\\format"@,
        "\\dt"@ != "\\dwal"@,
        "\\dt"@ != "\\dstorage"@,
        "\\dt"@ != "\\refresh"@,
        "\\dt"@ != "\\format"@,
        "\\dwal"@ != "\\dstorage"@,
        "\\dwal"@ != "\\refresh"@,
        "\\dwal"@ != "\\format"@,
        "\\dstorage"@ != "\\refresh"@,
        "\\dstorage"@ != "\\format"@,
        "\\refresh"@ != "\\format"@,
{
    reveal_strlit("\\help");
    reveal_strlit("\\dt");
    reveal_strlit("\\dwal");
    reveal_strlit("\\dstorage");
    reveal_strlit("\\refresh");
    reveal_strlit("\\format");
    assert("\\help"@.len() == 5);
    assert("\\dt"@.len() == 3);
    assert("\\dwal"@.len() == 5);
    assert("\\dstorage"@.len() == 9);
    assert("\\refresh"@.len() == 8);
    assert("\\format"@.len() == 7);
    assert("\\help"@[1] != "\\dwal"@[1]);
}

/// Only `\format` with the name of a format changes the format, and it
/// changes it to the format of that name: whatever else is entered, the
/// format stays what it was.
pub proof fn lemma_format_changes_only_on_request(command: Seq<char>, format: OutputFormat)
    ensures
        meta_action(command, format).0 == format || (first_word(command) == "\\format"@
            && after_first_word(command).len() > 0 && OutputFormat::named(
            lowercase_of(after_first_word(command)),
        ) == Some(meta_action(command, format).0)),
{
}

/// `\format` with a name that stands for no format leaves the format as it
/// was and reports the name.
pub proof fn lemma_unknown_format_is_refused(command: Seq<char>, format: OutputFormat)
    requires
        first_word(command) == "\\format"@,
        after_first_word(command).len() > 0,
        OutputFormat::named(lowercase_of(after_first_word(command))) is None,
    ensures
        meta_action(command, format) == (
            format,
            MetaActionView::Report(invalid_format_text(after_first_word(command))),
        ),
{
    lemma_command_words_differ();
}

/// After `\format` with the name of a format, `\format` without a name
/// reports that format as the current one.
pub proof fn lemma_format_round_trip(command: Seq<char>, before: OutputFormat, chosen: OutputFormat)
    requires
        first_word(command) == "\\format"@,
        after_first_word(command).len() > 0,
        OutputFormat::named(lowercase_of(after_first_word(command))) == Some(chosen),
    ensures
        meta_action(command, before) == (
            chosen,
            MetaActionView::Print(format_set_text(chosen)),
        ),
        meta_action("\\format"@, chosen) == (
            chosen,
            MetaActionView::Print(format_report(chosen)),
        ),
{
    lemma_command_words_differ();
    reveal_strlit("\\format");
    let word = "\\format"@;
    assert forall|k: int| 0 <= k < word.len() implies !is_space(#[trigger] word[k]) by {}
    lemma_word_without_space(word);
}

/// `\dstorage` without the name of a table reports how it is used and asks
/// for no statement to be run.
pub proof fn lemma_storage_needs_a_table(command: Seq<char>, format: OutputFormat)
    requires
        first_word(command) == "\\dstorage"@,
        after_first_word(command).len() == 0,
    ensures
        meta_action(command, format) == (
            format,
            MetaActionView::Report(storage_usage_text()),
        ),
{
    lemma_command_words_differ();
}

/// `\dstorage` entered by itself names no table, and is answered as such.
pub proof fn lemma_bare_storage_command(format: OutputFormat)
    ensures
        first_word("\\dstorage"@) == "\\dstorage"@,
        after_first_word("\\dstorage"@).len() == 0,
        meta_action("\\dstorage"@, format) == (
            format,
            MetaActionView::Report(storage_usage_text()),
        ),
{
    reveal_strlit("\\dstorage");
    let word = "\\dstorage"@;
    assert forall|k: int| 0 <= k < word.len() implies !is_space(#[trigger] word[k]) by {}
    lemma_word_without_space(word);
    lemma_storage_needs_a_table(word, format);
}

} // verus!
