use vstd::prelude::*;
use vstd::std_specs::cmp::PartialEqSpec;
use crate::column::{ColumnDefinition, ColumnModel};
use crate::options::{new_options, AgGridOptions, OptionsModel};
use crate::wire::{options_wire, MemberModel, WireMember, WireModel, WireOptions};

verus! {

/// What the grid component is given, as mathematical values.
pub struct PropsModel<T> {
    pub data: Seq<T>,
    pub columns: Seq<ColumnModel>,
    pub pagination: bool,
    pub page_size: int,
    pub auto_size: bool,
}

/// What the grid component is given by its host: the rows, the columns, and
/// the paging and sizing settings.
#[derive(Debug, Clone, PartialEq)]
pub struct AgGridProps<T> {
    pub data: Vec<T>,
    pub columns: Vec<ColumnDefinition>,
    pub pagination: bool,
    pub page_size: i32,
    pub auto_size: bool,
}

impl<T> View for AgGridProps<T> {
    type V = PropsModel<T>;

    open spec fn view(&self) -> PropsModel<T> {
        PropsModel {
            data: self.data@,
            columns: self.columns@.map_values(|c: ColumnDefinition| c@),
            pagination: self.pagination,
            page_size: self.page_size as int,
            auto_size: self.auto_size,
        }
    }
}

impl<T> AgGridProps<T> {
    /// Props for `data` shown in `columns`, with paging off, 10 rows a page
    /// and no automatic column sizing.
    pub fn new(data: Vec<T>, columns: Vec<ColumnDefinition>) -> (r: Self)
        ensures
            r@ == (PropsModel {
                data: data@,
                columns: columns@.map_values(|c: ColumnDefinition| c@),
                pagination: false,
                page_size: 10,
                auto_size: false,
            }),
    {
        AgGridProps { data, columns, pagination: false, page_size: 10, auto_size: false }
    }
}

/// The configuration the component builds from its props: the rows and
/// columns, paging as the props say, single-row selection.
pub open spec fn grid_options<T>(p: PropsModel<T>) -> OptionsModel<T> {
    new_options(p.data).with_columns(p.columns).with_pagination(
        p.pagination,
        Some(p.page_size),
    ).with_row_selection("single"@)
}

/// An operation on the widget, as a mathematical value.
pub enum CallModel<T> {
    Create(WireModel<T>),
    SetOption(Seq<char>, MemberModel<T>),
    RefreshCells,
    SizeColumnsToFit,
}

/// An operation the host performs on the widget: create it from a wire
/// object, replace one named option, redraw the cells, or fit the column
/// widths to the container.
#[derive(Debug, Clone, PartialEq)]
pub enum WidgetCall<T> {
    Create(WireOptions<T>),
    SetOption(String, WireMember<T>),
    RefreshCells,
    SizeColumnsToFit,
}

impl<T> View for WidgetCall<T> {
    type V = CallModel<T>;

    open spec fn view(&self) -> CallModel<T> {
        match self {
            WidgetCall::Create(w) => CallModel::Create(w@),
            WidgetCall::SetOption(name, value) => CallModel::SetOption(name@, value@),
            WidgetCall::RefreshCells => CallModel::RefreshCells,
            WidgetCall::SizeColumnsToFit => CallModel::SizeColumnsToFit,
        }
    }
}

pub open spec fn calls_view<T>(calls: Seq<WidgetCall<T>>) -> Seq<CallModel<T>> {
    calls.map_values(|c: WidgetCall<T>| c@)
}

pub open spec fn size_call<T>(auto_size: bool) -> Seq<CallModel<T>> {
    if auto_size {
        seq![CallModel::SizeColumnsToFit]
    } else {
        Seq::empty()
    }
}

/// The calls of the mount transition: create the widget from the props'
/// configuration, then fit the columns if automatic sizing is on.
pub open spec fn mount_calls<T>(p: PropsModel<T>) -> Seq<CallModel<T>> {
    seq![CallModel::Create(options_wire(grid_options(p)))] + size_call(p.auto_size)
}

/// The calls of the update transition: replace `rowData`, redraw, then fit
/// the columns if automatic sizing is on.
pub open spec fn update_calls<T>(p: PropsModel<T>) -> Seq<CallModel<T>> {
    seq![
        CallModel::SetOption("rowData"@, MemberModel::Rows(p.data)),
        CallModel::RefreshCells,
    ] + size_call(p.auto_size)
}

/// Two row sequences that the rows' own equality finds the same.
pub open spec fn rows_same<T: PartialEq>(a: Seq<T>, b: Seq<T>) -> bool {
    &&& a.len() == b.len()
    &&& forall|i: int| 0 <= i < a.len() ==> #[trigger] a[i].eq_spec(&b[i])
}

/// Whether the props that the update transition depends on, the rows and
/// the columns, differ. Paging and sizing settings are not among them.
pub open spec fn deps_changed<T: PartialEq>(prev: PropsModel<T>, next: PropsModel<T>) -> bool {
    !rows_same(prev.data, next.data) || prev.columns != next.columns
}

/// Where the component stands in its life: not yet on screen, created, or
/// updated since.
#[derive(Debug, Clone, Copy, PartialEq, Eq, Structural)]
pub enum GridPhase {
    Uninitialized,
    Mounted,
    Updated,
}

/// The calls a change of props leads to, from a given phase.
pub open spec fn change_calls<T: PartialEq>(
    phase: GridPhase,
    prev: PropsModel<T>,
    next: PropsModel<T>,
) -> Seq<CallModel<T>> {
    if phase != GridPhase::Uninitialized && deps_changed(prev, next) {
        update_calls(next)
    } else {
        Seq::empty()
    }
}

fn build_options<T>(props: AgGridProps<T>) -> (r: AgGridOptions<T>)
    ensures
        r@ == grid_options(props@),
{
    let AgGridProps { data, columns, pagination, page_size, .. } = props;
    AgGridOptions::new(data).with_columns(columns).with_pagination(
        pagination,
        Some(page_size),
    ).with_row_selection("single")
}

/// Whether the rows or the columns differ between two sets of props.
pub fn props_deps_changed<T: PartialEq>(prev: &AgGridProps<T>, next: &AgGridProps<T>) -> (r: bool)
    ensures
        prev@.columns != next@.columns ==> r,
        T::obeys_eq_spec() ==> r == deps_changed(prev@, next@),
{
    let same_rows = prev.data == next.data;
    let same_columns = prev.columns == next.columns;
    if !same_columns {
        if prev.columns.len() == next.columns.len() {
            let ghost i = choose|i: int|
                0 <= i < prev.columns@.len() && !(#[trigger] prev.columns@[i]).eq_spec(
                    &next.columns@[i],
                );
            assert(prev@.columns[i] != next@.columns[i]);
        } else {
            assert(prev@.columns.len() != next@.columns.len());
        }
        assert(prev@.columns != next@.columns);
    }
    if same_columns {
        assert(prev@.columns =~= next@.columns);
    }
    !(same_rows && same_columns)
}

/// The state that decides which widget calls the component makes, and when.
/// The widget handle itself stays with the host.
#[derive(Debug)]
pub struct GridLifecycle {
    pub phase: GridPhase,
}

impl GridLifecycle {
    pub fn new() -> (r: Self)
        ensures
            r.phase == GridPhase::Uninitialized,
    {
        GridLifecycle { phase: GridPhase::Uninitialized }
    }

    /// The mount transition. It fires once, the first time the container is
    /// there: it creates the widget from the props and, with automatic sizing
    /// on, fits the columns after that. Otherwise it makes no call.
    pub fn mount<T>(&mut self, props: AgGridProps<T>, container_available: bool) -> (calls: Vec<
        WidgetCall<T>,
    >)
        ensures
            old(self).phase == GridPhase::Uninitialized && container_available ==> {
                &&& calls_view(calls@) == mount_calls(props@)
                &&& final(self).phase == GridPhase::Mounted
            },
            !(old(self).phase == GridPhase::Uninitialized && container_available) ==> {
                &&& calls@.len() == 0
                &&& final(self).phase == old(self).phase
            },
    {
        let mut calls: Vec<WidgetCall<T>> = Vec::new();
        if self.phase == GridPhase::Uninitialized && container_available {
            let ghost p = props@;
            let auto_size = props.auto_size;
            let wire = build_options(props).to_wire_format();
            calls.push(WidgetCall::Create(wire));
            if auto_size {
                calls.push(WidgetCall::SizeColumnsToFit);
            }
            self.phase = GridPhase::Mounted;
            assert(calls_view(calls@) =~= mount_calls(p));
        }
        calls
    }

    /// The update transition, run when the host's props go from `prev` to
    /// `next`. Once the widget exists and the rows or the columns have
    /// changed, it replaces `rowData`, redraws, and with automatic sizing on
    /// fits the columns. A change of paging or sizing settings alone makes
    /// no call.
    pub fn props_changed<T: PartialEq>(&mut self, prev: &AgGridProps<T>, next: AgGridProps<T>) -> (calls:
        Vec<WidgetCall<T>>)
        ensures
            T::obeys_eq_spec() ==> calls_view(calls@) == change_calls(old(self).phase, prev@, next@),
            old(self).phase != GridPhase::Uninitialized && prev@.columns != next@.columns
                ==> calls_view(calls@) == update_calls(next@),
            calls@.len() == 0 || calls_view(calls@) == update_calls(next@),
            old(self).phase == GridPhase::Uninitialized ==> calls@.len() == 0,
            calls@.len() == 0 ==> final(self).phase == old(self).phase,
            calls@.len() != 0 ==> final(self).phase == GridPhase::Updated,
    {
        let mut calls: Vec<WidgetCall<T>> = Vec::new();
        if self.phase != GridPhase::Uninitialized && props_deps_changed(prev, &next) {
            let ghost p = next@;
            let auto_size = next.auto_size;
            let wire = build_options(next).to_wire_format();
            assert(wire@[0] == ("rowData"@, MemberModel::Rows(p.data)));
            assert(wire@.len() == wire.entries@.len());
            let mut entries = wire.entries;
            let row_data = entries.remove(0);
            assert(row_data@ == wire@[0]);
            calls.push(WidgetCall::SetOption("rowData".to_string(), row_data.value));
            calls.push(WidgetCall::RefreshCells);
            if auto_size {
                calls.push(WidgetCall::SizeColumnsToFit);
            }
            self.phase = GridPhase::Updated;
            assert(calls_view(calls@) =~= update_calls(p));
        }
        calls
    }
}

/// With automatic sizing on, mounting makes exactly two calls: the one
/// `create`, then the one `sizeColumnsToFit`.
pub proof fn lemma_mount_auto_size<T>(p: PropsModel<T>)
    requires
        p.auto_size,
    ensures
        mount_calls(p).len() == 2,
        mount_calls(p)[0] == CallModel::Create(options_wire(grid_options(p))),
        mount_calls(p)[1] == CallModel::<T>::SizeColumnsToFit,
{
}

/// Once mounted, a change of rows leads to exactly one `setOption` of
/// `rowData` with the new rows, then exactly one `refreshCells`; all that may
/// follow is the column fit.
pub proof fn lemma_rows_change_calls<T: PartialEq>(
    phase: GridPhase,
    prev: PropsModel<T>,
    next: PropsModel<T>,
)
    requires
        phase != GridPhase::Uninitialized,
        !rows_same(prev.data, next.data),
    ensures
        change_calls(phase, prev, next)[0] == CallModel::SetOption(
            "rowData"@,
            MemberModel::Rows(next.data),
        ),
        change_calls(phase, prev, next)[1] == CallModel::<T>::RefreshCells,
        2 <= change_calls(phase, prev, next).len() <= 3,
        forall|i: int|
            2 <= i < change_calls(phase, prev, next).len() ==> #[trigger] change_calls(
                phase,
                prev,
                next,
            )[i] == CallModel::<T>::SizeColumnsToFit,
{
}

/// A change of props that leaves the rows and the columns the same (paging,
/// page size or sizing alone) leads to no call at all.
pub proof fn lemma_settings_change_no_calls<T: PartialEq>(
    phase: GridPhase,
    prev: PropsModel<T>,
    next: PropsModel<T>,
)
    requires
        rows_same(prev.data, next.data),
        prev.columns == next.columns,
    ensures
        change_calls(phase, prev, next).len() == 0,
{
}

} // verus!
