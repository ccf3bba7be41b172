//! The host's row as far as the bridge reads and writes it, and the
//! conversion of its columns into the value model.

use vstd::prelude::*;
use crate::value::{Cell, CellView, DbValue, DbValueView, Row};

verus! {

/// Type identifier of the host's boolean columns.
pub const BOOLOID: u32 = 16;

/// Type identifier of the host's unbounded text columns.
pub const TEXTOID: u32 = 25;

/// Type identifier of the host's length-limited character columns.
pub const VARCHAROID: u32 = 1043;

/// How the bridge marshals a column, decided by the column's type alone.
#[derive(Clone, Copy, Debug, PartialEq, Eq, Structural)]
pub enum ColumnKind {
    Boolean,
    Text,
    /// Every type that the bridge does not marshal, binary blobs among them.
    Unsupported,
}

pub open spec fn spec_column_kind(type_oid: u32) -> ColumnKind {
    if type_oid == BOOLOID {
        ColumnKind::Boolean
    } else if type_oid == VARCHAROID || type_oid == TEXTOID {
        ColumnKind::Text
    } else {
        ColumnKind::Unsupported
    }
}

/// Classifies a column type: boolean, character data, or not marshalled.
pub fn column_kind(type_oid: u32) -> (kind: ColumnKind)
    ensures
        kind == spec_column_kind(type_oid),
{
    if type_oid == BOOLOID {
        ColumnKind::Boolean
    } else if type_oid == VARCHAROID || type_oid == TEXTOID {
        ColumnKind::Text
    } else {
        ColumnKind::Unsupported
    }
}

/// What a host column stores, as far as the bridge can read it.
#[derive(Debug, PartialEq, Eq)]
pub enum HostValue {
    Null,
    Boolean(bool),
    Text(String),
    /// Content that the bridge carries along without reading it.
    Opaque,
}

/// Mathematical model of a [`HostValue`].
pub enum HostValueView {
    Null,
    Boolean(bool),
    Text(Seq<char>),
    Opaque,
}

impl View for HostValue {
    type V = HostValueView;

    open spec fn view(&self) -> HostValueView {
        match self {
            HostValue::Null => HostValueView::Null,
            HostValue::Boolean(b) => HostValueView::Boolean(*b),
            HostValue::Text(s) => HostValueView::Text(s@),
            HostValue::Opaque => HostValueView::Opaque,
        }
    }
}

impl Clone for HostValue {
    fn clone(&self) -> (res: Self)
        ensures
            res@ == self@,
    {
        match self {
            HostValue::Null => HostValue::Null,
            HostValue::Boolean(b) => HostValue::Boolean(*b),
            HostValue::Text(s) => HostValue::Text(s.clone()),
            HostValue::Opaque => HostValue::Opaque,
        }
    }
}

/// One column of the host's row: its name, its type and what it stores.
#[derive(Debug, PartialEq, Eq)]
pub struct HostColumn {
    pub name: String,
    pub type_oid: u32,
    pub value: HostValue,
}

/// Mathematical model of a [`HostColumn`].
pub struct HostColumnView {
    pub name: Seq<char>,
    pub type_oid: u32,
    pub value: HostValueView,
}

impl View for HostColumn {
    type V = HostColumnView;

    open spec fn view(&self) -> HostColumnView {
        HostColumnView { name: self.name@, type_oid: self.type_oid, value: self.value@ }
    }
}

impl Clone for HostColumn {
    fn clone(&self) -> (res: Self)
        ensures
            res@ == self@,
    {
        HostColumn { name: self.name.clone(), type_oid: self.type_oid, value: self.value.clone() }
    }
}

impl HostColumn {
    /// A column called `name`, of type `type_oid`, that stores `value`.
    pub fn new(name: &str, type_oid: u32, value: HostValue) -> (res: Self)
        ensures
            res@ == (HostColumnView { name: name@, type_oid, value: value@ }),
    {
        HostColumn { name: name.to_owned(), type_oid, value }
    }
}

/// The host's row: its columns in the host's order.
#[derive(Debug, PartialEq, Eq)]
pub struct HostRow {
    pub columns: Vec<HostColumn>,
}

impl View for HostRow {
    type V = Seq<HostColumnView>;

    open spec fn view(&self) -> Seq<HostColumnView> {
        Seq::new(self.columns@.len(), |i: int| self.columns@[i]@)
    }
}

impl Clone for HostRow {
    fn clone(&self) -> (res: Self)
        ensures
            res@ == self@,
    {
        let mut columns: Vec<HostColumn> = Vec::new();
        let mut i: usize = 0;
        while i < self.columns.len()
            invariant
                i <= self.columns.len(),
                columns@.len() == i,
                forall|j: int| 0 <= j < i ==> columns@[j]@ == self.columns@[j]@,
            decreases self.columns.len() - i,
        {
            columns.push(self.columns[i].clone());
            i += 1;
        }
        let res = HostRow { columns };
        res
    }
}

/// The value that the guest is shown for a column: a boolean column gives
/// its boolean, a character column its text, either of them `DbNull` when
/// it stores nothing, and every other column the `Unsupported` marker.
pub open spec fn spec_to_param(column: HostColumnView) -> DbValueView {
    match spec_column_kind(column.type_oid) {
        ColumnKind::Boolean => match column.value {
            HostValueView::Boolean(b) => DbValueView::Boolean(b),
            HostValueView::Null => DbValueView::DbNull,
            _ => DbValueView::Unsupported,
        },
        ColumnKind::Text => match column.value {
            HostValueView::Text(s) => DbValueView::Str(s),
            HostValueView::Null => DbValueView::DbNull,
            _ => DbValueView::Unsupported,
        },
        ColumnKind::Unsupported => DbValueView::Unsupported,
    }
}

/// Converts what a host column stores into the value model.
///
/// The conversion never fails: content that does not fit the column's type
/// is shown as `Unsupported`.
pub fn to_param(column: &HostColumn) -> (value: DbValue)
    ensures
        value@ == spec_to_param(column@),
{
    match column_kind(column.type_oid) {
        ColumnKind::Boolean => match &column.value {
            HostValue::Boolean(b) => DbValue::Boolean(*b),
            HostValue::Null => DbValue::DbNull,
            _ => DbValue::Unsupported,
        },
        ColumnKind::Text => match &column.value {
            HostValue::Text(s) => DbValue::Str(s.clone()),
            HostValue::Null => DbValue::DbNull,
            _ => DbValue::Unsupported,
        },
        ColumnKind::Unsupported => DbValue::Unsupported,
    }
}

/// The parameter row of a host row: one cell per column, in the host's
/// order, under the column's name.
pub open spec fn spec_param_row(row: Seq<HostColumnView>) -> Seq<CellView> {
    Seq::new(row.len(), |i: int| CellView { name: row[i].name, value: spec_to_param(row[i]) })
}

/// Builds the parameter row that is handed to the guest.
pub fn param_row(row: &HostRow) -> (param: Row)
    ensures
        param@ == spec_param_row(row@),
{
    let mut columns: Vec<Cell> = Vec::new();
    let mut i: usize = 0;
    while i < row.columns.len()
        invariant
            i <= row.columns.len(),
            columns@.len() == i,
            forall|j: int| 0 <= j < i ==> columns@[j]@ == spec_param_row(row@)[j],
        decreases row.columns.len() - i,
    {
        let column = &row.columns[i];
        columns.push(Cell { name: column.name.clone(), value: to_param(column) });
        i += 1;
    }
    let param = Row { columns };
    param
}

} // verus!
