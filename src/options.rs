use vstd::prelude::*;
use crate::column::{opt_int, opt_text, ColumnDefinition, ColumnModel};

verus! {

/// What a default column definition holds, as mathematical values.
pub struct DefaultColModel {
    pub sortable: Option<bool>,
    pub filter: Option<bool>,
    pub resizable: Option<bool>,
    pub flex: Option<int>,
    pub min_width: Option<int>,
}

/// Options applied to every column that does not override them. An unset
/// option defers to the grid's own default.
#[derive(Debug)]
pub struct DefaultColDef {
    pub sortable: Option<bool>,
    pub filter: Option<bool>,
    pub resizable: Option<bool>,
    pub flex: Option<i32>,
    pub min_width: Option<i32>,
}

impl View for DefaultColDef {
    type V = DefaultColModel;

    open spec fn view(&self) -> DefaultColModel {
        DefaultColModel {
            sortable: self.sortable,
            filter: self.filter,
            resizable: self.resizable,
            flex: opt_int(self.flex),
            min_width: opt_int(self.min_width),
        }
    }
}

impl Clone for DefaultColDef {
    fn clone(&self) -> (r: Self)
        ensures
            r@ == self@,
    {
        DefaultColDef {
            sortable: self.sortable,
            filter: self.filter,
            resizable: self.resizable,
            flex: self.flex,
            min_width: self.min_width,
        }
    }
}

impl PartialEq for DefaultColDef {
    fn eq(&self, other: &DefaultColDef) -> (r: bool) {
        self.sortable == other.sortable && self.filter == other.filter && self.resizable
            == other.resizable && self.flex == other.flex && self.min_width == other.min_width
    }
}

impl vstd::std_specs::cmp::PartialEqSpecImpl for DefaultColDef {
    open spec fn obeys_eq_spec() -> bool {
        true
    }

    open spec fn eq_spec(&self, other: &DefaultColDef) -> bool {
        self@ == other@
    }
}

/// The column defaults a new configuration starts with: sortable, filterable
/// and resizable columns, flex 1, at least 100 pixels wide.
pub open spec fn factory_default_col_def() -> DefaultColModel {
    DefaultColModel {
        sortable: Some(true),
        filter: Some(true),
        resizable: Some(true),
        flex: Some(1),
        min_width: Some(100),
    }
}

/// What a grid configuration holds, as mathematical values.
pub struct OptionsModel<T> {
    pub row_data: Seq<T>,
    pub column_defs: Seq<ColumnModel>,
    pub default_col_def: DefaultColModel,
    pub pagination: Option<bool>,
    pub pagination_page_size: Option<int>,
    pub row_selection: Option<Seq<char>>,
}

/// The configuration `new` builds from a set of rows.
pub open spec fn new_options<T>(rows: Seq<T>) -> OptionsModel<T> {
    OptionsModel {
        row_data: rows,
        column_defs: Seq::empty(),
        default_col_def: factory_default_col_def(),
        pagination: Some(true),
        pagination_page_size: Some(10),
        row_selection: Some("single"@),
    }
}

impl<T> OptionsModel<T> {
    pub open spec fn with_columns(self, columns: Seq<ColumnModel>) -> OptionsModel<T> {
        OptionsModel { column_defs: columns, ..self }
    }

    pub open spec fn with_default_col_def(self, def: DefaultColModel) -> OptionsModel<T> {
        OptionsModel { default_col_def: def, ..self }
    }

    pub open spec fn with_pagination(self, enabled: bool, page_size: Option<int>) -> OptionsModel<
        T,
    > {
        OptionsModel { pagination: Some(enabled), pagination_page_size: page_size, ..self }
    }

    pub open spec fn with_row_selection(self, mode: Seq<char>) -> OptionsModel<T> {
        OptionsModel { row_selection: Some(mode), ..self }
    }
}

/// A grid configuration: the rows, the columns in display order, the column
/// defaults, and the optional paging and selection settings. Each `with_*`
/// call replaces one setting and keeps all the others.
#[derive(Debug, Clone)]
pub struct AgGridOptions<T> {
    pub row_data: Vec<T>,
    pub column_defs: Vec<ColumnDefinition>,
    pub default_col_def: DefaultColDef,
    pub pagination: Option<bool>,
    pub pagination_page_size: Option<i32>,
    pub row_selection: Option<String>,
}

impl<T> View for AgGridOptions<T> {
    type V = OptionsModel<T>;

    open spec fn view(&self) -> OptionsModel<T> {
        OptionsModel {
            row_data: self.row_data@,
            column_defs: self.column_defs@.map_values(|c: ColumnDefinition| c@),
            default_col_def: self.default_col_def@,
            pagination: self.pagination,
            pagination_page_size: opt_int(self.pagination_page_size),
            row_selection: opt_text(self.row_selection),
        }
    }
}

impl<T> AgGridOptions<T> {
    /// A configuration for `row_data` with no columns, the factory column
    /// defaults, paging on with 10 rows a page, and single-row selection.
    pub fn new(row_data: Vec<T>) -> (r: Self)
        ensures
            r@ == new_options(row_data@),
            r@.column_defs.len() == 0,
            r@.default_col_def == factory_default_col_def(),
    {
        let r = AgGridOptions {
            row_data,
            column_defs: Vec::new(),
            default_col_def: DefaultColDef {
                sortable: Some(true),
                filter: Some(true),
                resizable: Some(true),
                flex: Some(1),
                min_width: Some(100),
            },
            pagination: Some(true),
            pagination_page_size: Some(10),
            row_selection: Some("single".to_string()),
        };
        assert(r@.column_defs =~= Seq::empty());
        r
    }

    /// Replaces the columns.
    pub fn with_columns(self, columns: Vec<ColumnDefinition>) -> (r: Self)
        ensures
            r@ == self@.with_columns(columns@.map_values(|c: ColumnDefinition| c@)),
    {
        let mut r = self;
        r.column_defs = columns;
        r
    }

    /// Replaces the column defaults.
    pub fn with_default_col_def(self, default_col_def: DefaultColDef) -> (r: Self)
        ensures
            r@ == self@.with_default_col_def(default_col_def@),
    {
        let mut r = self;
        r.default_col_def = default_col_def;
        r
    }

    /// Turns paging on or off, and sets the page size, or clears it when none
    /// is given.
    pub fn with_pagination(self, enabled: bool, page_size: Option<i32>) -> (r: Self)
        ensures
            r@ == self@.with_pagination(enabled, opt_int(page_size)),
    {
        let mut r = self;
        r.pagination = Some(enabled);
        r.pagination_page_size = page_size;
        r
    }

    /// Sets the row selection mode. The mode is passed on as given.
    pub fn with_row_selection(self, selection_type: &str) -> (r: Self)
        ensures
            r@ == self@.with_row_selection(selection_type@),
    {
        let mut r = self;
        r.row_selection = Some(selection_type.to_string());
        r
    }
}

} // verus!
