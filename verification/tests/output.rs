use ferro_protect::models::{CameraId, LiveviewId};
use ferro_protect::output::{build_table, display_optional, strings, table, table_with_width};

#[test]
fn table_renders_headers_and_cells() {
    let out = table(
        &strings(&["ID", "NAME"]),
        &vec![
            vec!["cam-1".to_string(), "Front Door".to_string()],
            vec!["cam-2".to_string(), "Backyard".to_string()],
        ],
    );

    assert!(out.contains("ID"), "header missing: {out}");
    assert!(out.contains("NAME"), "header missing: {out}");
    assert!(out.contains("cam-1"), "cell missing: {out}");
    assert!(out.contains("Front Door"), "cell missing: {out}");
    assert!(out.contains("Backyard"), "cell missing: {out}");
    assert!(out.contains('─'), "expected UTF8_FULL border char in output: {out}");
    assert!(out.ends_with('\n'), "missing trailing newline: {out:?}");
}

#[test]
fn display_optional_some_renders_value() {
    let name = String::from("Front Door");
    assert_eq!(display_optional(Some(&name)), "Front Door");
}

#[test]
fn display_optional_none_renders_empty() {
    assert_eq!(display_optional::<String>(None), "");
}

#[test]
fn display_optional_renders_ids() {
    let id = CameraId::from("cam-9".to_string());
    assert_eq!(display_optional(Some(&id)), "cam-9");
    let lv = LiveviewId::from("lv-1".to_string());
    assert_eq!(display_optional(Some(&lv)), "lv-1");
    assert_eq!(display_optional::<LiveviewId>(None), "");
}

#[test]
fn table_with_no_rows_still_ends_with_newline() {
    let out = table(&strings(&["ID"]), &Vec::new());
    assert!(out.contains("ID"));
    assert!(out.ends_with('\n'));
}

#[test]
fn strings_copies_in_order() {
    assert_eq!(strings(&["a", "b", "c"]), vec!["a".to_string(), "b".to_string(), "c".to_string()]);
    assert!(strings(&[]).is_empty());
}

#[test]
fn build_table_holds_header_then_rows_in_order() {
    let headers = strings(&["ID", "NAME"]);
    let rows = vec![strings(&["cam-1", "Front Door"]), strings(&["cam-2", "Backyard"])];
    let t = build_table(&headers, &rows, Some(60));
    let t = t.table();
    assert_eq!(t.width(), Some(60));
    let header: Vec<String> =
        t.header().map(|r| r.cell_iter().map(|c| c.content()).collect()).unwrap_or_default();
    assert_eq!(header, vec!["ID".to_string(), "NAME".to_string()]);
    let got: Vec<Vec<String>> =
        t.row_iter().map(|r| r.cell_iter().map(|c| c.content()).collect()).collect();
    assert_eq!(got, rows);
}

#[test]
fn table_with_width_draws_what_comfy_table_draws() {
    let headers = strings(&["ID", "NAME"]);
    let rows = vec![strings(&["cam-1", "Front Door"]), strings(&["cam-2", "Backyard"])];
    let mut expected = comfy_table::Table::new();
    expected
        .load_preset(comfy_table::presets::UTF8_FULL)
        .set_content_arrangement(comfy_table::ContentArrangement::Dynamic)
        .set_width(40)
        .set_header(vec!["ID", "NAME"]);
    expected.add_row(vec!["cam-1", "Front Door"]);
    expected.add_row(vec!["cam-2", "Backyard"]);
    assert_eq!(table_with_width(&headers, &rows, Some(40)), format!("{expected}\n"));
}

#[test]
fn narrow_width_wraps_cells() {
    let headers = strings(&["ID", "NAME"]);
    let rows = vec![strings(&["cam-1", "a rather long camera name here"])];
    let wide = table_with_width(&headers, &rows, None);
    let narrow = table_with_width(&headers, &rows, Some(24));
    assert!(wide.contains("a rather long camera name here"));
    assert!(!narrow.contains("a rather long camera name here"));
    assert!(narrow.lines().all(|l| l.chars().count() <= 24), "{narrow}");
    assert!(narrow.ends_with('\n'));
}
