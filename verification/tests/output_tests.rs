use questdb_cli::output::{
    decimal_of_double, escape_free, escape_free_cells, format_rows, get_column_value,
    join_lines, json_document, print_csv, print_json, print_query_results, print_record,
    print_row, print_table, print_vertical, rendered_text, timestamp_cell, CellError, Column,
    Datum, FormatError, OutputFormat, Row, TypeTag,
};

fn column(name: &str, type_tag: TypeTag) -> Column {
    Column { name: name.to_string(), type_tag }
}

fn row(values: Vec<Option<Datum>>) -> Row {
    Row { values }
}

fn text(s: &str) -> Option<Datum> {
    Some(Datum::Varchar(s.to_string()))
}

fn every_format() -> Vec<OutputFormat> {
    vec![
        OutputFormat::Table,
        OutputFormat::Csv,
        OutputFormat::Json,
        OutputFormat::Vertical,
        OutputFormat::Record,
    ]
}

#[test]
fn select_one_as_table() {
    let columns = vec![column("?column?", TypeTag::Int32)];
    let rows = vec![row(vec![Some(Datum::Int32(1))])];
    let shown = print_query_results(&columns, &rows, "table").unwrap();
    let expected = "+----------+\n| ?column? |\n+----------+\n| 1        |\n+----------+\n";
    assert_eq!(shown, expected);
}

#[test]
fn table_with_two_rows_has_a_line_between_them() {
    let columns = vec![column("a", TypeTag::Varchar), column("n", TypeTag::Int32)];
    let rows = vec![
        row(vec![text("x"), Some(Datum::Int32(10))]),
        row(vec![None, Some(Datum::Int32(-3))]),
    ];
    let shown = print_table(&columns, &rows).unwrap();
    let expected = "+------+----+\n| a    | n  |\n+------+----+\n| x    | 10 |\n+------+----+\n| NULL | -3 |\n+------+----+\n";
    assert_eq!(shown, expected);
}

#[test]
fn empty_result_set_in_every_format() {
    let columns = vec![column("a", TypeTag::Int32)];
    let rows: Vec<Row> = vec![];
    for format in every_format() {
        let shown = format_rows(&columns, &rows, format).unwrap();
        if format == OutputFormat::Json {
            assert_eq!(shown, "[]\n");
        } else {
            assert_eq!(shown, "(No rows returned)\n");
        }
    }
    let no_columns: Vec<Column> = vec![];
    assert_eq!(print_table(&no_columns, &rows).unwrap(), "(No rows returned)\n");
    assert_eq!(print_csv(&no_columns, &rows).unwrap(), "(No rows returned)\n");
    assert_eq!(print_json(&no_columns, &rows).unwrap(), "[]\n");
    assert_eq!(print_vertical(&no_columns, &rows).unwrap(), "(No rows returned)\n");
    assert_eq!(print_record(&no_columns, &rows).unwrap(), "(No rows returned)\n");
}

#[test]
fn null_has_its_marker_in_every_format() {
    let columns = vec![column("a", TypeTag::Varchar), column("b", TypeTag::Varchar)];
    let rows = vec![row(vec![None, text("")])];
    assert_eq!(
        print_table(&columns, &rows).unwrap(),
        "+------+---+\n| a    | b |\n+------+---+\n| NULL |   |\n+------+---+\n"
    );
    assert_eq!(print_csv(&columns, &rows).unwrap(), "a,b\nNULL,\n");
    assert_eq!(
        print_json(&columns, &rows).unwrap(),
        "[\n  {\n    \"a\": null,\n    \"b\": \"\"\n  }\n]\n"
    );
    assert_eq!(print_vertical(&columns, &rows).unwrap(), "Row 1:\n  a: NULL\n  b: \n\n");
    assert_eq!(print_record(&columns, &rows).unwrap(), "a: NULL, b: \n");
}

#[test]
fn null_has_its_marker_under_every_type() {
    let tags = vec![
        TypeTag::Timestamp,
        TypeTag::TimestampTz,
        TypeTag::Double,
        TypeTag::Varchar,
        TypeTag::Boolean,
        TypeTag::Int32,
        TypeTag::Other,
    ];
    for tag in tags {
        let columns = vec![column("c", tag)];
        let rows = vec![row(vec![None])];
        assert_eq!(get_column_value(&rows[0], &columns[0], 0), Ok("NULL".to_string()));
        assert_eq!(print_record(&columns, &rows).unwrap(), "c: NULL\n");
        assert_eq!(print_json(&columns, &rows).unwrap(), "[\n  {\n    \"c\": null\n  }\n]\n");
    }
}

#[test]
fn json_row_with_every_type() {
    let columns = vec![
        column("ts", TypeTag::Timestamp),
        column("price", TypeTag::Double),
        column("sym", TypeTag::Varchar),
        column("ok", TypeTag::Boolean),
        column("n", TypeTag::Int32),
        column("geo", TypeTag::Other),
        column("gone", TypeTag::Varchar),
    ];
    let rows = vec![row(vec![
        Some(Datum::Timestamp(1_662_921_288_000_123)),
        Some(Datum::Double("1.5".to_string())),
        text("a\"b"),
        Some(Datum::Boolean(true)),
        Some(Datum::Int32(-7)),
        Some(Datum::Opaque),
        None,
    ])];
    let shown = print_query_results(&columns, &rows, "json").unwrap();
    let expected = "[\n  {\n    \"geo\": \"Unsupported Type\",\n    \"gone\": null,\n    \"n\": -7,\n    \"ok\": true,\n    \"price\": 1.5,\n    \"sym\": \"a\\\"b\",\n    \"ts\": \"2022-09-11T18:34:48.000123Z\"\n  }\n]\n";
    assert_eq!(shown, expected);
}

#[test]
fn json_double_that_is_no_number_is_null() {
    let columns = vec![column("x", TypeTag::Double)];
    let rows = vec![
        row(vec![Some(Datum::Double("NaN".to_string()))]),
        row(vec![Some(Datum::Double("inf".to_string()))]),
        row(vec![Some(Datum::Double("-0.25".to_string()))]),
    ];
    let shown = print_json(&columns, &rows).unwrap();
    assert_eq!(
        shown,
        "[\n  {\n    \"x\": null\n  },\n  {\n    \"x\": null\n  },\n  {\n    \"x\": -0.25\n  }\n]\n"
    );
}

#[test]
fn json_later_column_of_the_same_name_wins() {
    let columns = vec![column("a", TypeTag::Int32), column("a", TypeTag::Int32)];
    let rows = vec![row(vec![None, Some(Datum::Int32(2))])];
    assert_eq!(print_json(&columns, &rows).unwrap(), "[\n  {\n    \"a\": 2\n  }\n]\n");
}

#[test]
fn csv_quotes_where_needed() {
    let columns = vec![column("a", TypeTag::Varchar), column("b", TypeTag::Int32)];
    let rows = vec![
        row(vec![text("x,y"), Some(Datum::Int32(2))]),
        row(vec![None, Some(Datum::Int32(-2147483648))]),
        row(vec![text("say \"hi\""), Some(Datum::Int32(2147483647))]),
    ];
    let shown = print_query_results(&columns, &rows, "CSV").unwrap();
    assert_eq!(shown, "a,b\n\"x,y\",2\nNULL,-2147483648\n\"say \"\"hi\"\"\",2147483647\n");
}

#[test]
fn vertical_numbers_rows_from_one() {
    let columns = vec![column("id", TypeTag::Int32), column("ok", TypeTag::Boolean)];
    let rows = vec![
        row(vec![Some(Datum::Int32(7)), Some(Datum::Boolean(true))]),
        row(vec![Some(Datum::Int32(8)), Some(Datum::Boolean(false))]),
    ];
    assert_eq!(
        print_vertical(&columns, &rows).unwrap(),
        "Row 1:\n  id: 7\n  ok: true\n\nRow 2:\n  id: 8\n  ok: false\n\n"
    );
}

#[test]
fn record_joins_pairs_with_commas() {
    let columns = vec![
        column("id", TypeTag::Int32),
        column("x", TypeTag::Double),
        column("when", TypeTag::TimestampTz),
    ];
    let rows = vec![
        row(vec![Some(Datum::Int32(0)), Some(Datum::Double("2.5".to_string())), Some(Datum::Timestamp(0))]),
        row(vec![Some(Datum::Int32(100)), None, Some(Datum::Timestamp(-1))]),
    ];
    assert_eq!(
        print_record(&columns, &rows).unwrap(),
        "id: 0, x: 2.5, when: 1970-01-01T00:00:00.000000Z\nid: 100, x: NULL, when: 1969-12-31T23:59:59.999999Z\n"
    );
}

#[test]
fn row_without_columns_is_an_empty_line() {
    let columns: Vec<Column> = vec![];
    let rows = vec![row(vec![])];
    assert_eq!(print_record(&columns, &rows).unwrap(), "\n");
    assert_eq!(print_vertical(&columns, &rows).unwrap(), "Row 1:\n\n");
}

#[test]
fn rows_one_by_one_give_the_whole() {
    let columns = vec![column("id", TypeTag::Int32), column("s", TypeTag::Varchar)];
    let rows = vec![
        row(vec![Some(Datum::Int32(1)), text("a")]),
        row(vec![Some(Datum::Int32(2)), None]),
        row(vec![Some(Datum::Int32(3)), text("c")]),
    ];
    for format in vec![OutputFormat::Vertical, OutputFormat::Record] {
        let mut pieces = String::new();
        for (i, r) in rows.iter().enumerate() {
            pieces.push_str(&print_row(&columns, r, i, format).unwrap());
        }
        assert_eq!(pieces, format_rows(&columns, &rows, format).unwrap());
    }
    assert_eq!(
        print_row(&columns, &rows[1], 1, OutputFormat::Vertical).unwrap(),
        "Row 2:\n  id: 2\n  s: NULL\n\n"
    );
    assert_eq!(print_row(&columns, &rows[1], 1, OutputFormat::Record).unwrap(), "id: 2, s: NULL\n");
}

#[test]
fn cell_of_every_type() {
    let r = row(vec![
        Some(Datum::Timestamp(1_431_648_000_000_000)),
        Some(Datum::Double("3.25".to_string())),
        text("plain"),
        Some(Datum::Boolean(false)),
        Some(Datum::Int32(42)),
        Some(Datum::Opaque),
    ]);
    let shown = |i: usize, tag: TypeTag| get_column_value(&r, &column("c", tag), i);
    assert_eq!(shown(0, TypeTag::Timestamp), Ok("2015-05-15T00:00:00.000000Z".to_string()));
    assert_eq!(shown(0, TypeTag::TimestampTz), Ok("2015-05-15T00:00:00.000000Z".to_string()));
    assert_eq!(shown(1, TypeTag::Double), Ok("3.25".to_string()));
    assert_eq!(shown(2, TypeTag::Varchar), Ok("plain".to_string()));
    assert_eq!(shown(3, TypeTag::Boolean), Ok("false".to_string()));
    assert_eq!(shown(4, TypeTag::Int32), Ok("42".to_string()));
    assert_eq!(shown(5, TypeTag::Other), Ok("Unsupported Type".to_string()));
    assert_eq!(shown(2, TypeTag::Other), Ok("Unsupported Type".to_string()));
    assert_eq!(shown(6, TypeTag::Int32), Err(CellError::Missing));
    assert_eq!(shown(2, TypeTag::Int32), Err(CellError::WrongType));
    assert_eq!(shown(4, TypeTag::Varchar), Err(CellError::WrongType));
    assert_eq!(shown(4, TypeTag::Timestamp), Err(CellError::WrongType));
    assert_eq!(shown(0, TypeTag::Double), Err(CellError::WrongType));
    assert_eq!(shown(5, TypeTag::Boolean), Err(CellError::WrongType));
}

#[test]
fn timestamp_beyond_the_calendar_is_an_error() {
    let columns = vec![column("ts", TypeTag::Timestamp)];
    let rows = vec![row(vec![Some(Datum::Timestamp(0))]), row(vec![Some(Datum::Timestamp(i64::MAX))])];
    assert_eq!(get_column_value(&rows[1], &columns[0], 0), Err(CellError::TimestampRange));
    for format in every_format() {
        assert_eq!(
            format_rows(&columns, &rows, format),
            Err(FormatError::TimestampRange { row: 1, column: 0 })
        );
    }
}

#[test]
fn wrong_type_is_reported_with_its_place() {
    let columns = vec![column("a", TypeTag::Int32), column("b", TypeTag::Boolean)];
    let rows = vec![
        row(vec![Some(Datum::Int32(1)), Some(Datum::Boolean(false))]),
        row(vec![Some(Datum::Int32(1)), Some(Datum::Int32(0))]),
    ];
    for format in every_format() {
        assert_eq!(
            format_rows(&columns, &rows, format),
            Err(FormatError::WrongType { row: 1, column: 1 })
        );
    }
    assert_eq!(
        print_query_results(&columns, &rows, "record"),
        Err(FormatError::WrongType { row: 1, column: 1 })
    );
}

#[test]
fn first_error_in_reading_order_is_reported() {
    let columns = vec![column("a", TypeTag::Int32), column("b", TypeTag::Timestamp)];
    let rows = vec![
        row(vec![Some(Datum::Int32(1)), Some(Datum::Timestamp(i64::MIN))]),
        row(vec![text("x"), None]),
    ];
    for format in every_format() {
        assert_eq!(
            format_rows(&columns, &rows, format),
            Err(FormatError::TimestampRange { row: 0, column: 1 })
        );
    }
}

#[test]
fn row_of_the_wrong_width_is_an_error() {
    let columns = vec![column("a", TypeTag::Int32), column("b", TypeTag::Int32)];
    let short = vec![row(vec![Some(Datum::Int32(1)), None]), row(vec![Some(Datum::Int32(1))])];
    let long = vec![row(vec![None, None, None])];
    for format in every_format() {
        assert_eq!(format_rows(&columns, &short, format), Err(FormatError::RowWidth { row: 1 }));
        assert_eq!(format_rows(&columns, &long, format), Err(FormatError::RowWidth { row: 0 }));
    }
    assert_eq!(
        print_row(&columns, &short[1], 5, OutputFormat::Record),
        Err(FormatError::RowWidth { row: 5 })
    );
}

#[test]
fn format_names() {
    assert_eq!(OutputFormat::from_str("table"), OutputFormat::Table);
    assert_eq!(OutputFormat::from_str("csv"), OutputFormat::Csv);
    assert_eq!(OutputFormat::from_str("json"), OutputFormat::Json);
    assert_eq!(OutputFormat::from_str("vertical"), OutputFormat::Vertical);
    assert_eq!(OutputFormat::from_str("record"), OutputFormat::Record);
    assert_eq!(OutputFormat::from_str("Vertical"), OutputFormat::Vertical);
    assert_eq!(OutputFormat::from_str("JSON"), OutputFormat::Json);
    assert_eq!(OutputFormat::from_str("bogus"), OutputFormat::Table);
    assert_eq!(OutputFormat::from_str(""), OutputFormat::Table);
    assert_eq!(OutputFormat::from_str(" csv"), OutputFormat::Table);
    assert_eq!(OutputFormat::parse("ReCoRd"), Some(OutputFormat::Record));
    assert_eq!(OutputFormat::parse("bogus"), None);
    assert_eq!(OutputFormat::from_lowercase("csv"), Some(OutputFormat::Csv));
    assert_eq!(OutputFormat::from_lowercase("CSV"), None);
    for format in every_format() {
        assert_eq!(OutputFormat::from_lowercase(format.as_str()), Some(format));
    }
    assert_eq!(OutputFormat::Record.as_str(), "record");
}

#[test]
fn formats_that_need_the_whole_result_set() {
    assert!(OutputFormat::Table.needs_full_set());
    assert!(OutputFormat::Csv.needs_full_set());
    assert!(OutputFormat::Json.needs_full_set());
    assert!(!OutputFormat::Vertical.needs_full_set());
    assert!(!OutputFormat::Record.needs_full_set());
}

#[test]
fn unknown_format_name_prints_a_table() {
    let columns = vec![column("a", TypeTag::Int32)];
    let rows = vec![row(vec![Some(Datum::Int32(5))])];
    assert_eq!(
        print_query_results(&columns, &rows, "bogus").unwrap(),
        print_table(&columns, &rows).unwrap()
    );
}

#[test]
fn error_messages() {
    assert_eq!(
        FormatError::RowWidth { row: 12 }.message(),
        "row 12 does not hold one value for each column"
    );
    assert_eq!(
        FormatError::WrongType { row: 0, column: 3 }.message(),
        "row 0, column 3: the value is not of the column's type"
    );
    assert_eq!(
        FormatError::TimestampRange { row: 1000, column: 10 }.message(),
        "row 1000, column 10: the timestamp is out of range"
    );
    assert_eq!(FormatError::Renderer.message(), "the output could not be rendered");
}

#[test]
fn what_the_renderers_made() {
    assert_eq!(rendered_text(Some("grid".to_string())), Ok("grid".to_string()));
    assert_eq!(rendered_text(None), Err(FormatError::Renderer));
    assert_eq!(json_document(Some("[]".to_string())), Ok("[]\n".to_string()));
    assert_eq!(json_document(None), Err(FormatError::Renderer));
    assert_eq!(timestamp_cell(Some("then".to_string())), Ok("then".to_string()));
    assert_eq!(timestamp_cell(None), Err(CellError::TimestampRange));
    let lines = vec![Some("a,b\n".to_string()), Some("".to_string()), Some("1,2\n".to_string())];
    assert_eq!(join_lines(&lines), Ok("a,b\n1,2\n".to_string()));
    assert_eq!(join_lines(&vec![]), Ok("".to_string()));
    let broken = vec![Some("a\n".to_string()), None, Some("b\n".to_string())];
    assert_eq!(join_lines(&broken), Err(FormatError::Renderer));
}

#[test]
fn table_cell_with_line_breaks() {
    let columns = vec![column("c", TypeTag::Varchar)];
    let two_lines = vec![row(vec![text("a\nb")])];
    assert_eq!(
        print_table(&columns, &two_lines).unwrap(),
        "+---+\n| c |\n+---+\n| a |\n| b |\n+---+\n"
    );
    let plain = print_table(&columns, &vec![row(vec![text("a")])]).unwrap();
    assert_eq!(plain, "+---+\n| c |\n+---+\n| a |\n+---+\n");
    let ending = print_table(&columns, &vec![row(vec![text("a\n")])]).unwrap();
    assert_eq!(ending, plain);
    let windows = print_table(&columns, &vec![row(vec![text("a\r\nb")])]).unwrap();
    assert_eq!(windows, print_table(&columns, &two_lines).unwrap());
}

#[test]
fn table_shows_an_escape_character_by_its_sign() {
    let columns = vec![column("c", TypeTag::Varchar)];
    let rows = vec![row(vec![text("a\u{1b}b")])];
    assert_eq!(
        print_table(&columns, &rows).unwrap(),
        "+-----+\n| c   |\n+-----+\n| a\u{241b}b |\n+-----+\n"
    );
    let colored = vec![row(vec![text("\u{1b}[31mred\u{1b}[0m")])];
    let shown = print_table(&columns, &colored).unwrap();
    assert!(shown.contains("| \u{241b}[31mred\u{241b}[0m |"), "{}", shown);
    assert!(!shown.contains('\u{1b}'));
}

#[test]
fn table_takes_an_escape_before_joined_letters() {
    let columns = vec![column("\u{1b}[\u{644}\u{627}", TypeTag::Varchar)];
    let rows = vec![row(vec![text("\u{1b}[\u{644}\u{627}\u{644}\u{627}")])];
    let shown = print_table(&columns, &rows).unwrap();
    assert!(shown.contains("\u{241b}[\u{644}\u{627}\u{644}\u{627}"), "{}", shown);
    assert!(!shown.contains('\u{1b}'));
    assert_eq!(shown.lines().count(), 5);
    assert_eq!(
        print_query_results(&columns, &rows, "record").unwrap(),
        "\u{1b}[\u{644}\u{627}: \u{1b}[\u{644}\u{627}\u{644}\u{627}\n"
    );
}

#[test]
fn escape_characters_are_replaced() {
    assert_eq!(escape_free(""), "");
    assert_eq!(escape_free("plain"), "plain");
    assert_eq!(escape_free("\u{1b}"), "\u{241b}");
    assert_eq!(escape_free("\u{1b}\u{1b}x\u{1b}"), "\u{241b}\u{241b}x\u{241b}");
    assert_eq!(escape_free("é\u{1b}ü"), "é\u{241b}ü");
    let cells = vec!["a".to_string(), "\u{1b}[m".to_string(), "".to_string()];
    assert_eq!(
        escape_free_cells(&cells),
        vec!["a".to_string(), "\u{241b}[m".to_string(), "".to_string()]
    );
}

#[test]
fn json_double_with_a_whole_value_keeps_its_point() {
    let columns = vec![column("x", TypeTag::Double)];
    let rows = vec![
        row(vec![Some(Datum::Double("1".to_string()))]),
        row(vec![Some(Datum::Double("-3".to_string()))]),
        row(vec![Some(Datum::Double("0".to_string()))]),
        row(vec![Some(Datum::Double("-0".to_string()))]),
        row(vec![Some(Datum::Double("2.5".to_string()))]),
        row(vec![Some(Datum::Double("1000000000000000000000".to_string()))]),
    ];
    let shown = print_json(&columns, &rows).unwrap();
    let values: Vec<&str> = shown
        .lines()
        .filter(|l| l.contains("\"x\""))
        .map(|l| l.trim().trim_start_matches("\"x\": "))
        .collect();
    assert_eq!(values, vec!["1.0", "-3.0", "0.0", "-0.0", "2.5", "1e+21"]);
    assert_eq!(print_record(&columns, &rows[..1].to_vec()).unwrap(), "x: 1\n");
}

#[test]
fn text_of_a_double_as_a_json_number() {
    assert_eq!(decimal_of_double("1"), "1.0");
    assert_eq!(decimal_of_double("-12"), "-12.0");
    assert_eq!(decimal_of_double("1.5"), "1.5");
    assert_eq!(decimal_of_double("NaN"), "NaN");
    assert_eq!(decimal_of_double("-"), "-");
    assert_eq!(decimal_of_double(""), "");
}
