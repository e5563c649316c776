use ag_grid::column::{create_column, ColumnDefinition};
use ag_grid::component::{props_deps_changed, AgGridProps, GridLifecycle, GridPhase, WidgetCall};
use ag_grid::options::{AgGridOptions, DefaultColDef};
use ag_grid::wire::{
    column_to_wire, default_col_def_to_wire, WireEntry, WireField, WireMember, WireOptions,
    WireScalar,
};

#[derive(Debug, Clone, PartialEq)]
struct Row {
    id: i64,
    name: String,
}

fn text(key: &str, value: &str) -> WireField {
    WireField { key: key.to_string(), value: WireScalar::Text(value.to_string()) }
}

fn flag(key: &str, value: bool) -> WireField {
    WireField { key: key.to_string(), value: WireScalar::Bool(value) }
}

fn number(key: &str, value: i32) -> WireField {
    WireField { key: key.to_string(), value: WireScalar::Int(value) }
}

fn scalar<T>(key: &str, value: WireScalar) -> WireEntry<T> {
    WireEntry { key: key.to_string(), value: WireMember::Scalar(value) }
}

fn keys<T>(w: &WireOptions<T>) -> Vec<String> {
    w.entries.iter().map(|e| e.key.clone()).collect()
}

fn factory_defaults() -> Vec<WireField> {
    vec![
        flag("sortable", true),
        flag("filter", true),
        flag("resizable", true),
        number("flex", 1),
        number("minWidth", 100),
    ]
}

fn entry<'a, T>(w: &'a WireOptions<T>, key: &str) -> Option<&'a WireMember<T>> {
    w.entries.iter().find(|e| e.key == key).map(|e| &e.value)
}

#[test]
fn new_has_no_columns() {
    let o = AgGridOptions::new(vec![1i64, 2, 3]);
    assert!(o.column_defs.is_empty());
    assert_eq!(o.row_data, vec![1, 2, 3]);
}

#[test]
fn new_has_factory_column_defaults() {
    let o = AgGridOptions::new(Vec::<i64>::new());
    let expected = DefaultColDef {
        sortable: Some(true),
        filter: Some(true),
        resizable: Some(true),
        flex: Some(1),
        min_width: Some(100),
    };
    assert_eq!(o.default_col_def, expected);
    assert_eq!(o.pagination, Some(true));
    assert_eq!(o.pagination_page_size, Some(10));
    assert_eq!(o.row_selection.as_deref(), Some("single"));
}

#[test]
fn pagination_off_omits_page_size() {
    let w = AgGridOptions::new(vec![1i64]).with_pagination(false, None).to_wire_format();
    assert_eq!(entry(&w, "pagination"), Some(&WireMember::Scalar(WireScalar::Bool(false))));
    assert!(entry(&w, "paginationPageSize").is_none());
    assert_eq!(
        keys(&w),
        vec!["rowData", "columnDefs", "defaultColDef", "pagination", "rowSelection"]
    );
}

#[test]
fn pagination_with_page_size() {
    let o = AgGridOptions::new(vec![1i64]).with_pagination(true, Some(25));
    assert_eq!(o.pagination, Some(true));
    assert_eq!(o.pagination_page_size, Some(25));
    let w = o.to_wire_format();
    assert_eq!(entry(&w, "paginationPageSize"), Some(&WireMember::Scalar(WireScalar::Int(25))));
}

#[test]
fn row_selection_multiple_on_the_wire() {
    let w = AgGridOptions::new(vec![1i64]).with_row_selection("multiple").to_wire_format();
    assert_eq!(
        entry(&w, "rowSelection"),
        Some(&WireMember::Scalar(WireScalar::Text("multiple".to_string())))
    );
    assert_eq!(w.entries.iter().filter(|e| e.key == "rowSelection").count(), 1);
}

#[test]
fn row_selection_is_not_validated() {
    let o = AgGridOptions::new(vec![1i64]).with_row_selection("several");
    assert_eq!(o.row_selection.as_deref(), Some("several"));
}

#[test]
fn column_defs_keep_length_and_order() {
    let cols = vec![create_column("c", "C"), create_column("a", "A"), create_column("b", "B")];
    let w = AgGridOptions::new(vec![1i64]).with_columns(cols).to_wire_format();
    match entry(&w, "columnDefs") {
        Some(WireMember::Objects(objs)) => {
            assert_eq!(objs.len(), 3);
            let fields: Vec<WireField> = objs.iter().map(|o| o[0].clone()).collect();
            assert_eq!(fields, vec![text("field", "c"), text("field", "a"), text("field", "b")]);
        }
        other => panic!("columnDefs is {:?}", other),
    }
}

#[test]
fn end_to_end_wire_format() {
    let row = Row { id: 1, name: "a".to_string() };
    let w = AgGridOptions::new(vec![row.clone()])
        .with_columns(vec![create_column("id", "ID")])
        .to_wire_format();
    let expected = WireOptions {
        entries: vec![
            WireEntry { key: "rowData".to_string(), value: WireMember::Rows(vec![row]) },
            WireEntry {
                key: "columnDefs".to_string(),
                value: WireMember::Objects(vec![vec![text("field", "id"), text("headerName", "ID")]]),
            },
            WireEntry {
                key: "defaultColDef".to_string(),
                value: WireMember::Object(factory_defaults()),
            },
            scalar("pagination", WireScalar::Bool(true)),
            scalar("paginationPageSize", WireScalar::Int(10)),
            scalar("rowSelection", WireScalar::Text("single".to_string())),
        ],
    };
    assert_eq!(w, expected);
}

#[test]
fn create_column_sets_only_field_and_header() {
    let c = create_column("id", "ID");
    let expected = ColumnDefinition {
        field: "id".to_string(),
        header_name: "ID".to_string(),
        sortable: None,
        filter: None,
        resizable: None,
        width: None,
        pinned: None,
        cell_renderer: None,
    };
    assert_eq!(c, expected);
    assert_eq!(column_to_wire(&c), vec![text("field", "id"), text("headerName", "ID")]);
}

#[test]
fn column_with_every_option_on_the_wire() {
    let c = ColumnDefinition {
        field: "price".to_string(),
        header_name: "Price".to_string(),
        sortable: Some(false),
        filter: Some(true),
        resizable: Some(false),
        width: Some(120),
        pinned: Some("left".to_string()),
        cell_renderer: Some("money".to_string()),
    };
    assert_eq!(
        column_to_wire(&c),
        vec![
            text("field", "price"),
            text("headerName", "Price"),
            flag("sortable", false),
            flag("filter", true),
            flag("resizable", false),
            number("width", 120),
            text("pinned", "left"),
            text("cellRenderer", "money"),
        ]
    );
    assert_eq!(c.clone(), c);
}

#[test]
fn default_col_def_wire_keys() {
    let d = DefaultColDef { sortable: None, filter: Some(false), resizable: None, flex: None, min_width: Some(50) };
    assert_eq!(default_col_def_to_wire(&d), vec![flag("filter", false), number("minWidth", 50)]);
    let empty = DefaultColDef { sortable: None, filter: None, resizable: None, flex: None, min_width: None };
    assert!(default_col_def_to_wire(&empty).is_empty());
}

#[test]
fn with_default_col_def_replaces_only_defaults() {
    let d = DefaultColDef { sortable: Some(false), filter: None, resizable: None, flex: Some(2), min_width: None };
    let o = AgGridOptions::new(vec![7i64])
        .with_columns(vec![create_column("x", "X")])
        .with_default_col_def(d.clone());
    assert_eq!(o.default_col_def, d);
    assert_eq!(o.column_defs, vec![create_column("x", "X")]);
    assert_eq!(o.row_data, vec![7]);
    assert_eq!(o.pagination_page_size, Some(10));
    let w = o.to_wire_format();
    assert_eq!(
        entry(&w, "defaultColDef"),
        Some(&WireMember::Object(vec![flag("sortable", false), number("flex", 2)]))
    );
}

#[test]
fn with_columns_replaces_columns() {
    let o = AgGridOptions::new(vec![1i64])
        .with_columns(vec![create_column("a", "A")])
        .with_columns(vec![create_column("b", "B"), create_column("c", "C")]);
    assert_eq!(o.column_defs, vec![create_column("b", "B"), create_column("c", "C")]);
}

#[test]
fn unset_settings_are_left_out() {
    let mut o = AgGridOptions::new(vec![1i64]).with_pagination(true, None);
    o.pagination = None;
    o.row_selection = None;
    let w = o.to_wire_format();
    assert_eq!(keys(&w), vec!["rowData", "columnDefs", "defaultColDef"]);
}

fn props(data: Vec<i64>, auto_size: bool) -> AgGridProps<i64> {
    let mut p = AgGridProps::new(data, vec![create_column("v", "Value")]);
    p.auto_size = auto_size;
    p
}

#[test]
fn props_defaults() {
    let p = AgGridProps::new(vec![1i64], vec![]);
    assert!(!p.pagination);
    assert_eq!(p.page_size, 10);
    assert!(!p.auto_size);
}

#[test]
fn mount_with_auto_size_creates_then_fits() {
    let mut life = GridLifecycle::new();
    let calls = life.mount(props(vec![1, 2], true), true);
    assert_eq!(calls.len(), 2);
    assert!(matches!(calls[0], WidgetCall::Create(_)));
    assert_eq!(calls[1], WidgetCall::SizeColumnsToFit);
    assert_eq!(life.phase, GridPhase::Mounted);
}

#[test]
fn mount_creates_from_props() {
    let mut life = GridLifecycle::new();
    let mut p = props(vec![5], false);
    p.pagination = true;
    p.page_size = 20;
    let calls = life.mount(p, true);
    assert_eq!(calls.len(), 1);
    match &calls[0] {
        WidgetCall::Create(w) => {
            assert_eq!(entry(w, "rowData"), Some(&WireMember::Rows(vec![5])));
            assert_eq!(entry(w, "pagination"), Some(&WireMember::Scalar(WireScalar::Bool(true))));
            assert_eq!(
                entry(w, "paginationPageSize"),
                Some(&WireMember::Scalar(WireScalar::Int(20)))
            );
            assert_eq!(
                entry(w, "rowSelection"),
                Some(&WireMember::Scalar(WireScalar::Text("single".to_string())))
            );
        }
        other => panic!("expected a create, got {:?}", other),
    }
}

#[test]
fn mount_without_container_does_nothing() {
    let mut life = GridLifecycle::new();
    let calls = life.mount(props(vec![1], true), false);
    assert!(calls.is_empty());
    assert_eq!(life.phase, GridPhase::Uninitialized);
}

#[test]
fn mount_happens_once() {
    let mut life = GridLifecycle::new();
    assert_eq!(life.mount(props(vec![1], false), true).len(), 1);
    assert!(life.mount(props(vec![1], false), true).is_empty());
    assert_eq!(life.phase, GridPhase::Mounted);
}

#[test]
fn data_change_sets_rows_then_refreshes() {
    let mut life = GridLifecycle::new();
    life.mount(props(vec![1], false), true);
    let calls = life.props_changed(&props(vec![1], false), props(vec![1, 2], false));
    assert_eq!(
        calls,
        vec![
            WidgetCall::SetOption("rowData".to_string(), WireMember::Rows(vec![1, 2])),
            WidgetCall::RefreshCells,
        ]
    );
    assert_eq!(life.phase, GridPhase::Updated);
}

#[test]
fn data_change_with_auto_size_fits_last() {
    let mut life = GridLifecycle::new();
    life.mount(props(vec![1], true), true);
    let calls = life.props_changed(&props(vec![1], true), props(vec![3], true));
    assert_eq!(calls.len(), 3);
    assert_eq!(calls[1], WidgetCall::RefreshCells);
    assert_eq!(calls[2], WidgetCall::SizeColumnsToFit);
}

#[test]
fn pagination_change_alone_makes_no_call() {
    let mut life = GridLifecycle::new();
    life.mount(props(vec![1], false), true);
    let prev = props(vec![1], false);
    let mut next = props(vec![1], true);
    next.pagination = true;
    next.page_size = 50;
    assert!(life.props_changed(&prev, next).is_empty());
    assert_eq!(life.phase, GridPhase::Mounted);
}

#[test]
fn column_change_updates() {
    let mut life = GridLifecycle::new();
    life.mount(props(vec![1], false), true);
    let prev = props(vec![1], false);
    let next = AgGridProps::new(vec![1i64], vec![create_column("w", "W")]);
    assert!(props_deps_changed(&prev, &next));
    assert_eq!(life.props_changed(&prev, next).len(), 2);
}

#[test]
fn change_before_mount_makes_no_call() {
    let mut life = GridLifecycle::new();
    let calls = life.props_changed(&props(vec![1], false), props(vec![2], false));
    assert!(calls.is_empty());
    assert_eq!(life.phase, GridPhase::Uninitialized);
}

#[test]
fn deps_comparison() {
    assert!(!props_deps_changed(&props(vec![1, 2], false), &props(vec![1, 2], true)));
    assert!(props_deps_changed(&props(vec![1, 2], false), &props(vec![2, 1], false)));
}
