use vstd::prelude::*;
use crate::column::{opt_int, opt_text, ColumnDefinition, ColumnModel};
use crate::options::{AgGridOptions, DefaultColDef, DefaultColModel, OptionsModel};

verus! {

/// A plain value in the wire format.
pub enum ScalarModel {
    Bool(bool),
    Int(int),
    Text(Seq<char>),
}

/// A flat object of the wire format: its keys and values, in order.
pub type FieldsModel = Seq<(Seq<char>, ScalarModel)>;

/// The value under one top-level key of the wire format.
pub enum MemberModel<T> {
    Rows(Seq<T>),
    Objects(Seq<FieldsModel>),
    Object(FieldsModel),
    Scalar(ScalarModel),
}

/// The whole wire format: top-level keys and their values, in order.
pub type WireModel<T> = Seq<(Seq<char>, MemberModel<T>)>;

/// A plain value handed to the widget.
#[derive(Debug, Clone, PartialEq)]
pub enum WireScalar {
    Bool(bool),
    Int(i32),
    Text(String),
}

impl View for WireScalar {
    type V = ScalarModel;

    open spec fn view(&self) -> ScalarModel {
        match self {
            WireScalar::Bool(b) => ScalarModel::Bool(*b),
            WireScalar::Int(n) => ScalarModel::Int(*n as int),
            WireScalar::Text(s) => ScalarModel::Text(s@),
        }
    }
}

/// One key of a flat object and its value.
#[derive(Debug, Clone, PartialEq)]
pub struct WireField {
    pub key: String,
    pub value: WireScalar,
}

impl View for WireField {
    type V = (Seq<char>, ScalarModel);

    open spec fn view(&self) -> (Seq<char>, ScalarModel) {
        (self.key@, self.value@)
    }
}

pub open spec fn fields_view(v: Seq<WireField>) -> FieldsModel {
    v.map_values(|f: WireField| f@)
}

/// The value under one top-level key: the rows, the column objects, the
/// default-column object, or a plain value.
#[derive(Debug, Clone, PartialEq)]
pub enum WireMember<T> {
    Rows(Vec<T>),
    Objects(Vec<Vec<WireField>>),
    Object(Vec<WireField>),
    Scalar(WireScalar),
}

impl<T> View for WireMember<T> {
    type V = MemberModel<T>;

    open spec fn view(&self) -> MemberModel<T> {
        match self {
            WireMember::Rows(rows) => MemberModel::Rows(rows@),
            WireMember::Objects(objs) => MemberModel::Objects(
                objs@.map_values(|o: Vec<WireField>| fields_view(o@)),
            ),
            WireMember::Object(o) => MemberModel::Object(fields_view(o@)),
            WireMember::Scalar(s) => MemberModel::Scalar(s@),
        }
    }
}

/// One top-level key of the wire format and its value.
#[derive(Debug, Clone, PartialEq)]
pub struct WireEntry<T> {
    pub key: String,
    pub value: WireMember<T>,
}

impl<T> View for WireEntry<T> {
    type V = (Seq<char>, MemberModel<T>);

    open spec fn view(&self) -> (Seq<char>, MemberModel<T>) {
        (self.key@, self.value@)
    }
}

/// The plain object the widget is created from. Settings left unset do not
/// appear in it at all.
#[derive(Debug, Clone, PartialEq)]
pub struct WireOptions<T> {
    pub entries: Vec<WireEntry<T>>,
}

impl<T> View for WireOptions<T> {
    type V = WireModel<T>;

    open spec fn view(&self) -> WireModel<T> {
        self.entries@.map_values(|e: WireEntry<T>| e@)
    }
}

pub open spec fn opt_bool_field(key: Seq<char>, v: Option<bool>) -> FieldsModel {
    match v {
        Some(b) => seq![(key, ScalarModel::Bool(b))],
        None => Seq::empty(),
    }
}

pub open spec fn opt_int_field(key: Seq<char>, v: Option<int>) -> FieldsModel {
    match v {
        Some(n) => seq![(key, ScalarModel::Int(n))],
        None => Seq::empty(),
    }
}

pub open spec fn opt_text_field(key: Seq<char>, v: Option<Seq<char>>) -> FieldsModel {
    match v {
        Some(s) => seq![(key, ScalarModel::Text(s))],
        None => Seq::empty(),
    }
}

/// The wire object of a column: `field` and `headerName`, then each option
/// that is set, under its wire key.
pub open spec fn column_wire(c: ColumnModel) -> FieldsModel {
    seq![("field"@, ScalarModel::Text(c.field)), ("headerName"@, ScalarModel::Text(c.header_name))]
        + opt_bool_field("sortable"@, c.sortable) + opt_bool_field("filter"@, c.filter)
        + opt_bool_field("resizable"@, c.resizable) + opt_int_field("width"@, c.width)
        + opt_text_field("pinned"@, c.pinned) + opt_text_field(
        "cellRenderer"@,
        c.cell_renderer,
    )
}

/// The wire object of the column defaults: each option that is set.
pub open spec fn default_col_def_wire(d: DefaultColModel) -> FieldsModel {
    opt_bool_field("sortable"@, d.sortable) + opt_bool_field("filter"@, d.filter) + opt_bool_field(
        "resizable"@,
        d.resizable,
    ) + opt_int_field("flex"@, d.flex) + opt_int_field("minWidth"@, d.min_width)
}

pub open spec fn opt_member<T>(key: Seq<char>, v: Option<ScalarModel>) -> WireModel<T> {
    match v {
        Some(s) => seq![(key, MemberModel::Scalar(s))],
        None => Seq::empty(),
    }
}

/// The wire format of a configuration: `rowData`, `columnDefs` (one object
/// per column, in order) and `defaultColDef`, then `pagination`,
/// `paginationPageSize` and `rowSelection` where they are set.
pub open spec fn options_wire<T>(o: OptionsModel<T>) -> WireModel<T> {
    seq![
        ("rowData"@, MemberModel::Rows(o.row_data)),
        ("columnDefs"@, MemberModel::Objects(o.column_defs.map_values(|c: ColumnModel| column_wire(c)))),
        ("defaultColDef"@, MemberModel::Object(default_col_def_wire(o.default_col_def))),
    ] + opt_member("pagination"@, match o.pagination {
        Some(b) => Some(ScalarModel::Bool(b)),
        None => None,
    }) + opt_member("paginationPageSize"@, match o.pagination_page_size {
        Some(n) => Some(ScalarModel::Int(n)),
        None => None,
    }) + opt_member("rowSelection"@, match o.row_selection {
        Some(s) => Some(ScalarModel::Text(s)),
        None => None,
    })
}

fn push_bool(fields: &mut Vec<WireField>, key: &str, v: Option<bool>)
    ensures
        fields_view(final(fields)@) == fields_view(old(fields)@) + opt_bool_field(key@, v),
{
    if let Some(b) = v {
        fields.push(WireField { key: key.to_string(), value: WireScalar::Bool(b) });
    }
    assert(fields_view(final(fields)@) =~= fields_view(old(fields)@) + opt_bool_field(key@, v));
}

fn push_int(fields: &mut Vec<WireField>, key: &str, v: Option<i32>)
    ensures
        fields_view(final(fields)@) == fields_view(old(fields)@) + opt_int_field(
            key@,
            opt_int(v),
        ),
{
    if let Some(n) = v {
        fields.push(WireField { key: key.to_string(), value: WireScalar::Int(n) });
    }
    assert(fields_view(final(fields)@) =~= fields_view(old(fields)@) + opt_int_field(
        key@,
        opt_int(v),
    ));
}

fn push_text(fields: &mut Vec<WireField>, key: &str, v: &Option<String>)
    ensures
        fields_view(final(fields)@) == fields_view(old(fields)@) + opt_text_field(
            key@,
            opt_text(*v),
        ),
{
    if let Some(s) = v {
        fields.push(WireField { key: key.to_string(), value: WireScalar::Text(s.clone()) });
    }
    assert(fields_view(final(fields)@) =~= fields_view(old(fields)@) + opt_text_field(
        key@,
        opt_text(*v),
    ));
}

/// The wire object of one column.
pub fn column_to_wire(c: &ColumnDefinition) -> (r: Vec<WireField>)
    ensures
        fields_view(r@) == column_wire(c@),
{
    let mut r: Vec<WireField> = Vec::new();
    r.push(WireField { key: "field".to_string(), value: WireScalar::Text(c.field.clone()) });
    r.push(
        WireField { key: "headerName".to_string(), value: WireScalar::Text(c.header_name.clone()) },
    );
    assert(fields_view(r@) =~= seq![
        ("field"@, ScalarModel::Text(c.field@)),
        ("headerName"@, ScalarModel::Text(c.header_name@)),
    ]);
    push_bool(&mut r, "sortable", c.sortable);
    push_bool(&mut r, "filter", c.filter);
    push_bool(&mut r, "resizable", c.resizable);
    push_int(&mut r, "width", c.width);
    push_text(&mut r, "pinned", &c.pinned);
    push_text(&mut r, "cellRenderer", &c.cell_renderer);
    r
}

/// The wire object of the column defaults.
pub fn default_col_def_to_wire(d: &DefaultColDef) -> (r: Vec<WireField>)
    ensures
        fields_view(r@) == default_col_def_wire(d@),
{
    let mut r: Vec<WireField> = Vec::new();
    assert(fields_view(r@) =~= Seq::empty());
    push_bool(&mut r, "sortable", d.sortable);
    push_bool(&mut r, "filter", d.filter);
    push_bool(&mut r, "resizable", d.resizable);
    push_int(&mut r, "flex", d.flex);
    push_int(&mut r, "minWidth", d.min_width);
    r
}

fn push_member<T>(entries: &mut Vec<WireEntry<T>>, key: &str, v: Option<WireScalar>)
    ensures
        final(entries)@.map_values(|e: WireEntry<T>| e@) == old(entries)@.map_values(
            |e: WireEntry<T>| e@,
        ) + opt_member::<T>(
            key@,
            match v {
                Some(s) => Some(s@),
                None => None,
            },
        ),
{
    if let Some(s) = v {
        entries.push(WireEntry { key: key.to_string(), value: WireMember::Scalar(s) });
    }
    assert(final(entries)@.map_values(|e: WireEntry<T>| e@) =~= old(entries)@.map_values(
        |e: WireEntry<T>| e@,
    ) + opt_member::<T>(
        key@,
        match v {
            Some(s) => Some(s@),
            None => None,
        },
    ));
}

impl<T> AgGridOptions<T> {
    /// The plain object the widget is created from: keys under their wire
    /// names, unset settings left out.
    pub fn to_wire_format(self) -> (r: WireOptions<T>)
        ensures
            r@ == options_wire(self@),
    {
        let ghost model = self@;
        let AgGridOptions {
            row_data,
            column_defs,
            default_col_def,
            pagination,
            pagination_page_size,
            row_selection,
        } = self;
        let mut objects: Vec<Vec<WireField>> = Vec::new();
        let mut i: usize = 0;
        while i < column_defs.len()
            invariant
                0 <= i <= column_defs@.len(),
                objects@.map_values(|o: Vec<WireField>| fields_view(o@)) =~= column_defs@.take(
                    i as int,
                ).map_values(|c: ColumnDefinition| column_wire(c@)),
            decreases column_defs@.len() - i,
        {
            let obj = column_to_wire(&column_defs[i]);
            let ghost before = objects@;
            objects.push(obj);
            assert(column_defs@.take(i + 1) =~= column_defs@.take(i as int).push(column_defs@[i as int]));
            assert(objects@ =~= before.push(obj));
            assert(objects@.map_values(|o: Vec<WireField>| fields_view(o@)) =~= before.map_values(
                |o: Vec<WireField>| fields_view(o@),
            ).push(fields_view(obj@)));
            i = i + 1;
        }
        assert(column_defs@.take(i as int) =~= column_defs@);
        assert(model.column_defs.map_values(|c: ColumnModel| column_wire(c)) =~= column_defs@.map_values(
            |c: ColumnDefinition| column_wire(c@),
        ));
        let mut entries: Vec<WireEntry<T>> = Vec::new();
        entries.push(WireEntry { key: "rowData".to_string(), value: WireMember::Rows(row_data) });
        entries.push(WireEntry { key: "columnDefs".to_string(), value: WireMember::Objects(objects) });
        let default_fields = default_col_def_to_wire(&default_col_def);
        entries.push(
            WireEntry { key: "defaultColDef".to_string(), value: WireMember::Object(default_fields) },
        );
        assert(entries@.map_values(|e: WireEntry<T>| e@) =~= options_wire(model).take(3));
        let p = match pagination {
            Some(b) => Some(WireScalar::Bool(b)),
            None => None,
        };
        push_member(&mut entries, "pagination", p);
        let s = match pagination_page_size {
            Some(n) => Some(WireScalar::Int(n)),
            None => None,
        };
        push_member(&mut entries, "paginationPageSize", s);
        let m = match row_selection {
            Some(t) => Some(WireScalar::Text(t)),
            None => None,
        };
        push_member(&mut entries, "rowSelection", m);
        let r = WireOptions { entries };
        assert(r@ =~= options_wire(model));
        r
    }
}

/// Turning paging off without a page size puts `pagination: false` in the
/// wire format and leaves `paginationPageSize` out of it.
pub proof fn lemma_pagination_off_wire<T>(o: OptionsModel<T>)
    ensures
        options_wire(o.with_pagination(false, None)).contains(
            ("pagination"@, MemberModel::Scalar(ScalarModel::Bool(false))),
        ),
        forall|i: int|
            0 <= i < options_wire(o.with_pagination(false, None)).len() ==> (#[trigger] options_wire(
                o.with_pagination(false, None),
            )[i]).0 != "paginationPageSize"@,
{
    reveal_strlit("rowData");
    reveal_strlit("columnDefs");
    reveal_strlit("defaultColDef");
    reveal_strlit("pagination");
    reveal_strlit("paginationPageSize");
    reveal_strlit("rowSelection");
    let w = options_wire(o.with_pagination(false, None));
    assert(w[3] == ("pagination"@, MemberModel::<T>::Scalar(ScalarModel::Bool(false))));
    assert forall|i: int| 0 <= i < w.len() implies (#[trigger] w[i]).0 != "paginationPageSize"@ by {
        assert(w[i].0.len() != "paginationPageSize"@.len());
    }
}

/// Whatever mode is chosen, the wire format holds exactly that mode under
/// `rowSelection`, and nothing else under that key.
pub proof fn lemma_row_selection_wire<T>(o: OptionsModel<T>, mode: Seq<char>)
    ensures
        options_wire(o.with_row_selection(mode)).contains(
            ("rowSelection"@, MemberModel::Scalar(ScalarModel::Text(mode))),
        ),
        forall|i: int|
            0 <= i < options_wire(o.with_row_selection(mode)).len() && (#[trigger] options_wire(
                o.with_row_selection(mode),
            )[i]).0 == "rowSelection"@ ==> options_wire(o.with_row_selection(mode))[i].1
                == MemberModel::<T>::Scalar(ScalarModel::Text(mode)),
{
    reveal_strlit("rowData");
    reveal_strlit("columnDefs");
    reveal_strlit("defaultColDef");
    reveal_strlit("pagination");
    reveal_strlit("paginationPageSize");
    reveal_strlit("rowSelection");
    let w = options_wire(o.with_row_selection(mode));
    assert(w[w.len() - 1] == ("rowSelection"@, MemberModel::<T>::Scalar(ScalarModel::Text(mode))));
    assert forall|i: int| 0 <= i < w.len() - 1 implies (#[trigger] w[i]).0 != "rowSelection"@ by {
        assert(w[i].0.len() != "rowSelection"@.len());
    }
}

/// `columnDefs` in the wire format has one object per column, in the order
/// of the columns, each starting with that column's `field`.
pub proof fn lemma_column_defs_wire<T>(o: OptionsModel<T>)
    ensures
        options_wire(o)[1].0 == "columnDefs"@,
        match options_wire(o)[1].1 {
            MemberModel::Objects(s) => {
                &&& s.len() == o.column_defs.len()
                &&& forall|i: int|
                    0 <= i < s.len() ==> #[trigger] s[i] == column_wire(o.column_defs[i])
                        && s[i][0] == ("field"@, ScalarModel::Text(o.column_defs[i].field))
            },
            _ => false,
        },
{
}

} // verus!
