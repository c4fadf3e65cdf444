use questdb_cli::completer::{contains_name, push_matching, SQLCompleter};

fn strings(items: &[&str]) -> Vec<String> {
    items.iter().map(|s| s.to_string()).collect()
}

fn with_tables(tables: &[&str]) -> SQLCompleter {
    let mut completer = SQLCompleter::new();
    completer.update_tables(tables.iter().map(|t| Some(t.to_string())).collect());
    completer
}

#[test]
fn new_completer_has_the_fixed_lists() {
    let completer = SQLCompleter::new();
    assert_eq!(
        completer.keywords,
        strings(&["SELECT", "FROM", "WHERE", "INSERT", "UPDATE", "DELETE", "LIMIT", "JOIN", "ON"])
    );
    assert_eq!(
        completer.meta_commands,
        strings(&["\\help", "\\q", "\\format", "\\dt", "\\dwal", "\\dstorage", "\\refresh"])
    );
    assert!(completer.tables.is_empty());
}

#[test]
fn sel_completes_to_select_only() {
    let completer = with_tables(&["SELLERS_no", "sel_lower", "selections", "trades"]);
    let (start, found) = completer.complete("SEL", 3);
    assert_eq!(start, 0);
    assert_eq!(found, strings(&["SELECT", "SELLERS_no"]));
    let plain = SQLCompleter::new();
    assert_eq!(plain.complete("SEL", 3), (0, strings(&["SELECT"])));
}

#[test]
fn keywords_match_in_any_case_tables_as_typed() {
    let completer = with_tables(&["selections", "Sel", "trades"]);
    assert_eq!(completer.complete("sel", 3), (0, strings(&["SELECT", "selections"])));
    assert_eq!(completer.complete("Sel", 3), (0, strings(&["SELECT", "Sel"])));
    assert_eq!(completer.complete("t", 1), (0, strings(&["trades"])));
    assert_eq!(completer.complete("T", 1), (0, strings(&[])));
}

#[test]
fn meta_commands_match_as_typed() {
    let completer = with_tables(&["\\dtable"]);
    assert_eq!(
        completer.complete("\\d", 2),
        (0, strings(&["\\dt", "\\dwal", "\\dstorage", "\\dtable"]))
    );
    assert_eq!(completer.complete("\\D", 2), (0, strings(&[])));
    assert_eq!(completer.complete("\\format", 7), (0, strings(&["\\format"])));
}

#[test]
fn word_under_the_cursor_is_completed() {
    let completer = with_tables(&["trades", "trips"]);
    assert_eq!(completer.complete("SELECT * FROM tr", 16), (14, strings(&["trades", "trips"])));
    assert_eq!(completer.complete("SELECT * FR tr", 11), (9, strings(&["FROM"])));
    assert_eq!(completer.complete("select\tli", 9), (7, strings(&["LIMIT"])));
    assert_eq!(completer.complete("é wh", 4), (2, strings(&["WHERE"])));
}

#[test]
fn empty_word_offers_everything() {
    let completer = with_tables(&["trades"]);
    let (start, found) = completer.complete("SELECT ", 7);
    assert_eq!(start, 7);
    assert_eq!(found.len(), 9 + 7 + 1);
    assert_eq!(found[0], "SELECT");
    assert_eq!(found[9], "\\help");
    assert_eq!(found[16], "trades");
    assert_eq!(completer.complete("", 0).1.len(), 17);
}

#[test]
fn update_keeps_each_name_once_and_drops_nulls() {
    let mut completer = SQLCompleter::new();
    completer.update_tables(vec![
        Some("b".to_string()),
        None,
        Some("a".to_string()),
        Some("b".to_string()),
        Some("c".to_string()),
        None,
        Some("a".to_string()),
    ]);
    assert_eq!(completer.tables, strings(&["b", "a", "c"]));
    completer.update_tables(vec![Some("z".to_string())]);
    assert_eq!(completer.tables, strings(&["z"]));
    completer.update_tables(vec![]);
    assert!(completer.tables.is_empty());
    assert_eq!(completer.keywords.len(), 9);
    assert_eq!(completer.meta_commands.len(), 7);
}

#[test]
fn helpers() {
    let names = strings(&["ab", "abc", "b"]);
    assert!(contains_name(&names, "abc"));
    assert!(!contains_name(&names, "a"));
    let mut out = strings(&["first"]);
    push_matching(&mut out, &names, "ab");
    assert_eq!(out, strings(&["first", "ab", "abc"]));
}

#[test]
fn candidates_for_a_word_and_its_upper_case() {
    let completer = with_tables(&["from_here", "FROM_THERE"]);
    assert_eq!(completer.candidates_for("fr", "FR"), strings(&["FROM", "from_here"]));
    assert_eq!(completer.candidates_for("FR", "FR"), strings(&["FROM", "FROM_THERE"]));
    assert_eq!(completer.candidates_for("fr", "fr"), strings(&["from_here"]));
    assert_eq!(completer.candidates_for("\\r", "ON"), strings(&["ON", "\\refresh"]));
}
