use dune_client::sink::csv_header;
use dune_client::sink::csv_table;
use dune_client::sink::render_cell;
use dune_client::types::CellValue;
use dune_client::types::Row;

fn record(entries: Vec<(&str, CellValue)>) -> Row {
    Row::Record(
        entries
            .into_iter()
            .map(|(k, v)| (k.to_string(), v))
            .collect(),
    )
}

#[test]
fn missing_key_renders_an_empty_cell() {
    let rows = vec![
        record(vec![
            ("address", CellValue::Text("0xabc".to_string())),
            ("balance", CellValue::Number("17".to_string())),
        ]),
        // the second record lacks the balance key
        record(vec![("address", CellValue::Text("0xdef".to_string()))]),
        record(vec![
            ("address", CellValue::Text("0x123".to_string())),
            ("balance", CellValue::Number("3".to_string())),
        ]),
    ];
    let (headers, table) = csv_table(&rows);
    assert_eq!(headers, vec!["address", "balance"]);
    assert_eq!(table.len(), 3);
    assert_eq!(table[0], vec!["0xabc", "17"]);
    assert_eq!(table[1], vec!["0xdef", ""]);
    assert_eq!(table[2], vec!["0x123", "3"]);
}

#[test]
fn cells_render_primitive_string_forms() {
    assert_eq!(render_cell(&CellValue::Text("x".to_string())), "x");
    assert_eq!(render_cell(&CellValue::Number("1.25".to_string())), "1.25");
    assert_eq!(render_cell(&CellValue::Boolean(true)), "true");
    assert_eq!(render_cell(&CellValue::Boolean(false)), "false");
    assert_eq!(render_cell(&CellValue::Null), "");
    assert_eq!(render_cell(&CellValue::Nested), "");
}

#[test]
fn header_comes_from_the_first_record_only() {
    let rows = vec![
        record(vec![("a", CellValue::Null)]),
        record(vec![("b", CellValue::Null), ("c", CellValue::Null)]),
    ];
    assert_eq!(csv_header(&rows), vec!["a"]);
    // extra keys of later records are not rendered
    let (_, table) = csv_table(&rows);
    assert_eq!(table[1], vec![""]);
}

#[test]
fn unstructured_rows_contribute_nothing() {
    let rows = vec![
        record(vec![("a", CellValue::Number("1".to_string()))]),
        Row::Unstructured,
        record(vec![("a", CellValue::Number("2".to_string()))]),
    ];
    let (headers, table) = csv_table(&rows);
    assert_eq!(headers, vec!["a"]);
    assert_eq!(table.len(), 2);
    assert_eq!(table[0], vec!["1"]);
    assert_eq!(table[1], vec!["2"]);
}

#[test]
fn no_rows_give_an_empty_table() {
    let rows: Vec<Row> = Vec::new();
    let (headers, table) = csv_table(&rows);
    assert!(headers.is_empty());
    assert!(table.is_empty());
}
