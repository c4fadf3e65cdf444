use questdb_cli::commands::{choose_format, handle_meta_command, MetaAction};
use questdb_cli::text::concat3;
use questdb_cli::output::OutputFormat;

const FORMATS: &str = "Available formats: table, csv, json, vertical, record\n";

fn query(sql: &str, command: &str) -> MetaAction {
    MetaAction::Query { sql: sql.to_string(), command: command.to_string() }
}

#[test]
fn format_csv_then_format_reports_csv() {
    let mut format = OutputFormat::Table;
    let set = handle_meta_command("\\format csv", &mut format);
    assert_eq!(set, MetaAction::Print("Output format set to 'csv'\n".to_string()));
    assert_eq!(format, OutputFormat::Csv);
    let shown = handle_meta_command("\\format", &mut format);
    assert_eq!(shown, MetaAction::Print(format!("Current format: csv\n{}", FORMATS)));
    assert_eq!(format, OutputFormat::Csv);
}

#[test]
fn format_bogus_changes_nothing() {
    let mut format = OutputFormat::Vertical;
    let refused = handle_meta_command("\\format bogus", &mut format);
    assert_eq!(refused, MetaAction::Report(format!("Invalid format 'bogus'. {}", FORMATS)));
    assert_eq!(format, OutputFormat::Vertical);
    let shown = handle_meta_command("\\format", &mut format);
    assert_eq!(shown, MetaAction::Print(format!("Current format: vertical\n{}", FORMATS)));
}

#[test]
fn format_takes_every_name_in_any_case() {
    let names = vec![
        ("table", OutputFormat::Table),
        ("CSV", OutputFormat::Csv),
        ("Json", OutputFormat::Json),
        ("vertical", OutputFormat::Vertical),
        ("RECORD", OutputFormat::Record),
    ];
    for (name, expected) in names {
        let mut format = OutputFormat::Table;
        let action = handle_meta_command(&format!("\\format   {}", name), &mut format);
        assert_eq!(format, expected);
        assert_eq!(
            action,
            MetaAction::Print(format!("Output format set to '{}'\n", expected.as_str()))
        );
    }
}

#[test]
fn dstorage_without_a_table_is_refused() {
    let mut format = OutputFormat::Json;
    assert_eq!(
        handle_meta_command("\\dstorage", &mut format),
        MetaAction::Report("Usage: \\dstorage <table>\n".to_string())
    );
    assert_eq!(
        handle_meta_command("\\dstorage   ", &mut format),
        MetaAction::Report("Usage: \\dstorage <table>\n".to_string())
    );
    assert_eq!(format, OutputFormat::Json);
}

#[test]
fn dstorage_with_a_table_asks_for_its_storage() {
    let mut format = OutputFormat::Table;
    assert_eq!(
        handle_meta_command("\\dstorage trades", &mut format),
        query("SELECT * FROM table_storage('trades')", "\\dstorage")
    );
    assert_eq!(
        handle_meta_command("\\dstorage  my table ", &mut format),
        query("SELECT * FROM table_storage('my table')", "\\dstorage")
    );
}

#[test]
fn listing_commands_ask_for_their_statements() {
    let mut format = OutputFormat::Table;
    assert_eq!(handle_meta_command("\\dt", &mut format), query("SELECT * FROM tables()", "\\dt"));
    assert_eq!(
        handle_meta_command("\\dwal", &mut format),
        query("SELECT * FROM wal_tables()", "\\dwal")
    );
    assert_eq!(handle_meta_command("\\refresh", &mut format), MetaAction::Refresh);
    assert_eq!(format, OutputFormat::Table);
}

#[test]
fn help_lists_the_commands() {
    let mut format = OutputFormat::Table;
    let expected = "Meta commands:\n  \\q                 Quit\n  \\help              Show this help message\n  \\dt                List all tables\n  \\dwal              List all WAL tables\n  \\dstorage <table>  Show storage details for a table\n  \\refresh           Refresh metadata\n  \\format [format]   Set output format (table, csv, json, vertical, record)\n";
    assert_eq!(handle_meta_command("\\help", &mut format), MetaAction::Print(expected.to_string()));
    assert_eq!(
        handle_meta_command("\\help me", &mut format),
        MetaAction::Print(expected.to_string())
    );
}

#[test]
fn unknown_commands_are_reported() {
    let mut format = OutputFormat::Record;
    for command in vec!["\\nope", "\\dstoragex", "\\formatcsv", "\\q now", "\\", "\\HELP", ""] {
        assert_eq!(
            handle_meta_command(command, &mut format),
            MetaAction::Report(format!("Unknown meta command: {}\n", command))
        );
        assert_eq!(format, OutputFormat::Record);
    }
}

#[test]
fn choosing_a_format() {
    let mut format = OutputFormat::Table;
    assert_eq!(
        choose_format("x", None, &mut format),
        MetaAction::Report(format!("Invalid format 'x'. {}", FORMATS))
    );
    assert_eq!(format, OutputFormat::Table);
    assert_eq!(
        choose_format("JSON", Some(OutputFormat::Json), &mut format),
        MetaAction::Print("Output format set to 'json'\n".to_string())
    );
    assert_eq!(format, OutputFormat::Json);
    assert_eq!(concat3("a", "", "c"), "ac");
}
