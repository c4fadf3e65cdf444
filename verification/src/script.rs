//! Scripts: a text with several statements, which are run one after the
//! other.

use crate::output::OutputFormat;
use crate::query::{fresh_run, QueryRun};
use crate::text::{concat3, has_prefix, starts_with};
use vstd::prelude::*;
use vstd::string::*;

verus! {

/// One statement of a script.
#[derive(Clone, Debug, PartialEq, Eq)]
pub struct ScriptStep {
    /// What is printed before the statement is run.
    pub announcement: String,
    /// The statement.
    pub sql: String,
}

/// A `ScriptStep` as the contracts speak of it, with texts as sequences of
/// characters.
pub struct ScriptStepView {
    pub announcement: Seq<char>,
    pub sql: Seq<char>,
}

impl DeepView for ScriptStep {
    type V = ScriptStepView;

    open spec fn deep_view(&self) -> ScriptStepView {
        ScriptStepView { announcement: self.announcement@, sql: self.sql@ }
    }
}

/// What sqlparser makes of a text under its generic dialect: the statements
/// of the text, each written out again, in their order, or the message of
/// the error that the parser found.
pub uninterp spec fn parsed_statements(content: Seq<char>) -> Result<Seq<Seq<char>>, Seq<char>>;

/// A list of texts or a message, as plain sequences.
pub open spec fn parse_view(
    parsed: Result<Vec<String>, String>,
) -> Result<Seq<Seq<char>>, Seq<char>> {
    match parsed {
        Ok(statements) => Ok(statements.deep_view()),
        Err(message) => Err(message@),
    }
}

/// A list of steps or a message, as plain sequences.
pub open spec fn plan_view(
    plan: Result<Vec<ScriptStep>, String>,
) -> Result<Seq<ScriptStepView>, Seq<char>> {
    match plan {
        Ok(steps) => Ok(steps.deep_view()),
        Err(message) => Err(message@),
    }
}

/// How a statement of a script is named in reports.
pub open spec fn script_context() -> Seq<char> {
    "query in script"@
}

/// What is printed before a statement of a script is run.
pub open spec fn announcement_text(sql: Seq<char>) -> Seq<char> {
    "Executing: "@ + sql + "\n"@
}

/// What is reported for a script that cannot be parsed.
pub open spec fn parse_failure_text(message: Seq<char>) -> Seq<char> {
    "Failed to parse SQL: "@ + message
}

/// The script is to be fetched from the web: its source begins with
/// `http://` or `https://`.
pub open spec fn is_remote(source: Seq<char>) -> bool {
    has_prefix(source, "http://"@) || has_prefix(source, "https://"@)
}

/// The steps of a script whose text was parsed: one for each statement, in
/// order. A text that cannot be parsed has no steps: none of it is run.
pub open spec fn script_plan(
    parsed: Result<Seq<Seq<char>>, Seq<char>>,
) -> Result<Seq<ScriptStepView>, Seq<char>> {
    match parsed {
        Ok(statements) => Ok(
            Seq::new(
                statements.len(),
                |i: int|
                    ScriptStepView {
                        announcement: announcement_text(statements[i]),
                        sql: statements[i],
                    },
            ),
        ),
        Err(message) => Err(parse_failure_text(message)),
    }
}

/// `sqlparser::parser::Parser::parse_sql` under `GenericDialect`, each
/// statement then written out by its `Display`: the result depends on the
/// text alone; an error of the parser comes back as its message.
#[verifier::external_body]
pub(crate) fn parse_statements(content: &str) -> (r: Result<Vec<String>, String>)
    ensures
        parse_view(r) == parsed_statements(content@),
{
    match sqlparser::parser::Parser::parse_sql(&sqlparser::dialect::GenericDialect {}, content) {
        Ok(statements) => Ok(statements.iter().map(|s| s.to_string()).collect()),
        Err(e) => Err(e.to_string()),
    }
}

/// Tells whether a script is to be fetched from the web rather than read
/// from a file.
pub fn is_remote_source(source: &str) -> (r: bool)
    ensures
        r == is_remote(source@),
{
    starts_with(source, "http://") || starts_with(source, "https://")
}

/// Lays out the steps of a script from what the parser made of its text.
pub fn plan_statements(parsed: Result<Vec<String>, String>) -> (r: Result<Vec<ScriptStep>, String>)
    ensures
        plan_view(r) == script_plan(parse_view(parsed)),
{
    match parsed {
        Ok(statements) => {
            let mut steps: Vec<ScriptStep> = Vec::new();
            let mut i: usize = 0;
            while i < statements.len()
                invariant
                    i <= statements.len(),
                    steps.len() == i,
                    forall|k: int|
                        0 <= k < i ==> (#[trigger] steps@[k]).deep_view() == (ScriptStepView {
                            announcement: announcement_text(statements@[k]@),
                            sql: statements@[k]@,
                        }),
                decreases statements.len() - i,
            {
                let sql = statements[i].clone();
                let announcement = concat3("Executing: ", sql.as_str(), "\n");
                steps.push(ScriptStep { announcement, sql });
                i += 1;
            }
            assert(steps.deep_view() =~= script_plan(parse_view(parsed))->Ok_0);
            Ok(steps)
        },
        Err(message) => {
            let mut text = String::from_str("Failed to parse SQL: ");
            text.append(message.as_str());
            Err(text)
        },
    }
}

/// Splits the text of a script into its statements and lays out the steps
/// in which they are run.
pub fn execute_script(content: &str) -> (r: Result<Vec<ScriptStep>, String>)
    ensures
        plan_view(r) == script_plan(parsed_statements(content@)),
{
    plan_statements(parse_statements(content))
}

/// Begins the run of one statement of a script, to be shown in the form
/// that `format` names; in reports the statement is named as one of a
/// script.
pub fn begin_script_step(format: &str) -> (run: QueryRun)
    ensures
        run.deep_view() == fresh_run(OutputFormat::of_name(format@), script_context()),
{
    QueryRun::new(OutputFormat::from_str(format), "query in script")
}

} // verus!
