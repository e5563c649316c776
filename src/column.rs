use vstd::prelude::*;

verus! {

/// What a column definition holds, as mathematical values.
pub struct ColumnModel {
    pub field: Seq<char>,
    pub header_name: Seq<char>,
    pub sortable: Option<bool>,
    pub filter: Option<bool>,
    pub resizable: Option<bool>,
    pub width: Option<int>,
    pub pinned: Option<Seq<char>>,
    pub cell_renderer: Option<Seq<char>>,
}

/// View of an optional string.
pub open spec fn opt_text(s: Option<String>) -> Option<Seq<char>> {
    match s {
        Some(t) => Some(t@),
        None => None,
    }
}

/// View of an optional integer.
pub open spec fn opt_int(v: Option<i32>) -> Option<int> {
    match v {
        Some(n) => Some(n as int),
        None => None,
    }
}

/// How one field of a row record is shown in the grid. Unset options defer
/// to the grid's column defaults.
#[derive(Debug)]
pub struct ColumnDefinition {
    pub field: String,
    pub header_name: String,
    pub sortable: Option<bool>,
    pub filter: Option<bool>,
    pub resizable: Option<bool>,
    pub width: Option<i32>,
    pub pinned: Option<String>,
    pub cell_renderer: Option<String>,
}

impl View for ColumnDefinition {
    type V = ColumnModel;

    open spec fn view(&self) -> ColumnModel {
        ColumnModel {
            field: self.field@,
            header_name: self.header_name@,
            sortable: self.sortable,
            filter: self.filter,
            resizable: self.resizable,
            width: opt_int(self.width),
            pinned: opt_text(self.pinned),
            cell_renderer: opt_text(self.cell_renderer),
        }
    }
}

fn clone_opt_text(s: &Option<String>) -> (r: Option<String>)
    ensures
        opt_text(r) == opt_text(*s),
{
    match s {
        Some(t) => Some(t.clone()),
        None => None,
    }
}

fn same_opt_text(a: &Option<String>, b: &Option<String>) -> (r: bool)
    ensures
        r == (opt_text(*a) == opt_text(*b)),
{
    match a {
        Some(x) => match b {
            Some(y) => x.eq(y),
            None => false,
        },
        None => b.is_none(),
    }
}

impl Clone for ColumnDefinition {
    fn clone(&self) -> (r: Self)
        ensures
            r@ == self@,
    {
        ColumnDefinition {
            field: self.field.clone(),
            header_name: self.header_name.clone(),
            sortable: self.sortable,
            filter: self.filter,
            resizable: self.resizable,
            width: self.width,
            pinned: clone_opt_text(&self.pinned),
            cell_renderer: clone_opt_text(&self.cell_renderer),
        }
    }
}

impl PartialEq for ColumnDefinition {
    fn eq(&self, other: &ColumnDefinition) -> (r: bool) {
        self.field == other.field && self.header_name == other.header_name && self.sortable
            == other.sortable && self.filter == other.filter && self.resizable == other.resizable
            && self.width == other.width && same_opt_text(&self.pinned, &other.pinned)
            && same_opt_text(&self.cell_renderer, &other.cell_renderer)
    }
}

impl vstd::std_specs::cmp::PartialEqSpecImpl for ColumnDefinition {
    open spec fn obeys_eq_spec() -> bool {
        true
    }

    open spec fn eq_spec(&self, other: &ColumnDefinition) -> bool {
        self@ == other@
    }
}

/// A column that shows `field` under the label `header`, with every other
/// option left unset.
pub fn create_column(field: &str, header: &str) -> (r: ColumnDefinition)
    ensures
        r@ == (ColumnModel {
            field: field@,
            header_name: header@,
            sortable: None,
            filter: None,
            resizable: None,
            width: None,
            pinned: None,
            cell_renderer: None,
        }),
{
    ColumnDefinition {
        field: field.to_string(),
        header_name: header.to_string(),
        sortable: None,
        filter: None,
        resizable: None,
        width: None,
        pinned: None,
        cell_renderer: None,
    }
}

} // verus!
