use ota_cli::render::{CommandResult, Rendered, TableResult};

fn table(raw: &[u8], cell: &str) -> TableResult {
    TableResult::new(
        vec![("content-type".to_string(), "application/json".to_string())],
        raw.to_vec(),
        vec!["name".to_string()],
        vec![vec![cell.to_string()]],
    )
}

#[test]
fn table_mode_off_returns_raw_bytes() {
    let raw = b"{\"signed\": {\"targets\": {}}}\xff not json";
    assert_eq!(CommandResult::Table(table(raw, "a")).render(false), Rendered::Body(raw.to_vec()));
    assert_eq!(CommandResult::Table(table(raw, "something else")).render(false), Rendered::Body(raw.to_vec()));
}

#[test]
fn table_mode_on_returns_table() {
    assert_eq!(
        CommandResult::Table(table(b"[]", "a")).render(true),
        Rendered::Table(vec!["name".to_string()], vec![vec!["a".to_string()]])
    );
}

#[test]
fn raw_response_and_empty_results() {
    assert_eq!(CommandResult::Response(b"plain".to_vec()).render(true), Rendered::Body(b"plain".to_vec()));
    assert_eq!(CommandResult::Empty.render(false), Rendered::Nothing);
}
