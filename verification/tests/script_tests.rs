use questdb_cli::output::OutputFormat;
use questdb_cli::query::{QueryEvent, QueryRun, QueryStatus};
use questdb_cli::script::{
    begin_script_step, execute_script, is_remote_source, plan_statements, ScriptStep,
};

fn step(sql: &str) -> ScriptStep {
    ScriptStep { announcement: format!("Executing: {}\n", sql), sql: sql.to_string() }
}

#[test]
fn remote_sources() {
    assert!(is_remote_source("http://example.com/a.sql"));
    assert!(is_remote_source("https://example.com/a.sql"));
    assert!(is_remote_source("http://"));
    assert!(!is_remote_source("HTTP://example.com/a.sql"));
    assert!(!is_remote_source("ftp://example.com/a.sql"));
    assert!(!is_remote_source("scripts/http://a.sql"));
    assert!(!is_remote_source("a.sql"));
    assert!(!is_remote_source(""));
    assert!(!is_remote_source("https:/"));
}

#[test]
fn script_is_split_into_its_statements() {
    let plan = execute_script("select 1;\n  SELECT a, b FROM t WHERE a > 2 ;").unwrap();
    assert_eq!(plan, vec![step("SELECT 1"), step("SELECT a, b FROM t WHERE a > 2")]);
}

#[test]
fn empty_script_has_no_steps() {
    assert_eq!(execute_script(""), Ok(vec![]));
    assert_eq!(execute_script(" ;; "), Ok(vec![]));
}

#[test]
fn script_that_cannot_be_parsed_runs_nothing() {
    let refused = execute_script("SELECT 1; SELEC 2").unwrap_err();
    assert!(refused.starts_with("Failed to parse SQL: sql parser error: "), "{}", refused);
}

#[test]
fn steps_from_parsed_statements() {
    let parsed = Ok(vec!["SELECT 1".to_string(), "".to_string()]);
    assert_eq!(plan_statements(parsed), Ok(vec![step("SELECT 1"), step("")]));
    assert_eq!(plan_statements(Ok(vec![])), Ok(vec![]));
    assert_eq!(
        plan_statements(Err("bad token".to_string())),
        Err("Failed to parse SQL: bad token".to_string())
    );
}

#[test]
fn a_step_of_a_script_begins_its_run() {
    let mut run = begin_script_step("JSON");
    assert_eq!(run, QueryRun::new(OutputFormat::Json, "query in script"));
    assert_eq!(run.status, QueryStatus::Running);
    let failed = run.on_event(QueryEvent::Failed("no such table".to_string()));
    assert_eq!(
        failed,
        vec![questdb_cli::query::Emit::Stderr(
            "Error executing query in script: no such table\n".to_string()
        )]
    );
    assert_eq!(begin_script_step("bogus").format, OutputFormat::Table);
}
