//! Writing a guest's result row back into the host's row.
//!
//! A result row names the columns that the guest chose to change. Each of
//! its cells is written to the first host column of that name; a cell that
//! holds `Unsupported` writes nothing; where several cells name one column,
//! the last one stays. A cell that names no column, or whose value the
//! column's type cannot take, fails the whole merge.

use vstd::prelude::*;
use crate::host::{
    column_kind, spec_column_kind, spec_param_row, spec_to_param, ColumnKind, HostColumn,
    HostColumnView, HostRow, HostValue, HostValueView,
};
use crate::text::str_eq;
use crate::value::{CellView, DbValue, DbValueView, Row};

verus! {

/// Why a result cell could not be written.
#[derive(Debug, PartialEq, Eq)]
pub enum WriteError {
    /// The host row has no column of this name.
    NoSuchColumn(String),
    /// The column's type cannot take the value.
    IncompatibleTypes { column: String, type_oid: u32 },
}

/// Mathematical model of a [`WriteError`].
pub enum WriteErrorView {
    NoSuchColumn(Seq<char>),
    IncompatibleTypes { column: Seq<char>, type_oid: u32 },
}

impl View for WriteError {
    type V = WriteErrorView;

    open spec fn view(&self) -> WriteErrorView {
        match self {
            WriteError::NoSuchColumn(name) => WriteErrorView::NoSuchColumn(name@),
            WriteError::IncompatibleTypes { column, type_oid } => {
                WriteErrorView::IncompatibleTypes { column: column@, type_oid: *type_oid }
            },
        }
    }
}

impl Clone for WriteError {
    fn clone(&self) -> (res: Self)
        ensures
            res@ == self@,
    {
        match self {
            WriteError::NoSuchColumn(name) => WriteError::NoSuchColumn(name.clone()),
            WriteError::IncompatibleTypes { column, type_oid } => WriteError::IncompatibleTypes {
                column: column.clone(),
                type_oid: *type_oid,
            },
        }
    }
}

/// What a result value asks of a column: `Ok(None)` leaves the column as
/// it is, `Ok(Some(v))` stores `v`, and `Err` says that the column's type
/// cannot take the value.
///
/// `Unsupported` leaves every column as it is. A boolean goes into a
/// boolean column, a string into a character column, and `DbNull` into
/// either of them.
pub open spec fn spec_from_result(value: DbValueView, column: HostColumnView) -> Result<
    Option<HostValueView>,
    WriteErrorView,
> {
    let kind = spec_column_kind(column.type_oid);
    let refused = Err(
        WriteErrorView::IncompatibleTypes { column: column.name, type_oid: column.type_oid },
    );
    match value {
        DbValueView::Unsupported => Ok(None),
        DbValueView::Boolean(b) => if kind == ColumnKind::Boolean {
            Ok(Some(HostValueView::Boolean(b)))
        } else {
            refused
        },
        DbValueView::Str(s) => if kind == ColumnKind::Text {
            Ok(Some(HostValueView::Text(s)))
        } else {
            refused
        },
        DbValueView::DbNull => if kind == ColumnKind::Unsupported {
            refused
        } else {
            Ok(Some(HostValueView::Null))
        },
    }
}

/// The model of what [`from_result`] returns.
pub open spec fn write_view(res: Result<Option<HostValue>, WriteError>) -> Result<
    Option<HostValueView>,
    WriteErrorView,
> {
    match res {
        Ok(Some(v)) => Ok(Some(v@)),
        Ok(None) => Ok(None),
        Err(e) => Err(e@),
    }
}

/// Converts a result value into what is to be stored in `column`.
pub fn from_result(value: &DbValue, column: &HostColumn) -> (res: Result<
    Option<HostValue>,
    WriteError,
>)
    ensures
        write_view(res) == spec_from_result(value@, column@),
{
    let kind = column_kind(column.type_oid);
    match value {
        DbValue::Unsupported => Ok(None),
        DbValue::Boolean(b) => match kind {
            ColumnKind::Boolean => Ok(Some(HostValue::Boolean(*b))),
            _ => Err(
                WriteError::IncompatibleTypes {
                    column: column.name.clone(),
                    type_oid: column.type_oid,
                },
            ),
        },
        DbValue::Str(s) => match kind {
            ColumnKind::Text => Ok(Some(HostValue::Text(s.clone()))),
            _ => Err(
                WriteError::IncompatibleTypes {
                    column: column.name.clone(),
                    type_oid: column.type_oid,
                },
            ),
        },
        DbValue::DbNull => match kind {
            ColumnKind::Unsupported => Err(
                WriteError::IncompatibleTypes {
                    column: column.name.clone(),
                    type_oid: column.type_oid,
                },
            ),
            _ => Ok(Some(HostValue::Null)),
        },
    }
}

/// The column after `value` was written to it; a value that the column
/// cannot take, or that asks for nothing, leaves the column as it is.
pub open spec fn spec_write(column: HostColumnView, value: DbValueView) -> HostColumnView {
    match spec_from_result(value, column) {
        Ok(Some(v)) => HostColumnView { name: column.name, type_oid: column.type_oid, value: v },
        _ => column,
    }
}

/// The names of a row's columns, in order.
pub open spec fn column_names(row: Seq<HostColumnView>) -> Seq<Seq<char>> {
    Seq::new(row.len(), |i: int| row[i].name)
}

/// The column that a name stands for: the first one so called.
pub open spec fn spec_find_column(row: Seq<HostColumnView>, name: Seq<char>) -> Option<int> {
    column_names(row).index_of_first(name)
}

/// Finds the first column called `name`.
pub fn find_column(row: &HostRow, name: &str) -> (found: Option<usize>)
    ensures
        match found {
            Some(i) => spec_find_column(row@, name@) == Some(i as int) && i < row.columns.len(),
            None => spec_find_column(row@, name@) is None,
        },
{
    let mut i: usize = 0;
    while i < row.columns.len()
        invariant
            i <= row.columns.len(),
            forall|j: int| 0 <= j < i ==> column_names(row@)[j] != name@,
        decreases row.columns.len() - i,
    {
        if str_eq(row.columns[i].name.as_str(), name) {
            proof {
                let names = column_names(row@);
                names.index_of_first_ensures(name@);
                assert(names[i as int] == name@);
            }
            return Some(i);
        }
        i += 1;
    }
    proof {
        column_names(row@).index_of_first_ensures(name@);
    }
    None
}

/// Whether `cell` writes to column `i` of `row`: it holds more than the
/// `Unsupported` marker, and `i` is the first column of its name.
pub open spec fn spec_writes_to(row: Seq<HostColumnView>, cell: CellView, i: int) -> bool {
    cell.value != DbValueView::Unsupported && spec_find_column(row, cell.name) == Some(i)
}

/// Why `cell` cannot be written to `row`, if it cannot.
pub open spec fn spec_cell_fault(row: Seq<HostColumnView>, cell: CellView) -> Option<
    WriteErrorView,
> {
    if cell.value == DbValueView::Unsupported {
        None
    } else {
        match spec_find_column(row, cell.name) {
            None => Some(WriteErrorView::NoSuchColumn(cell.name)),
            Some(i) => match spec_from_result(cell.value, row[i]) {
                Err(e) => Some(e),
                Ok(_) => None,
            },
        }
    }
}

/// The fault of the first cell of `result` that cannot be written.
pub open spec fn spec_first_fault(row: Seq<HostColumnView>, result: Seq<CellView>) -> Option<
    WriteErrorView,
>
    decreases result.len(),
{
    if result.len() == 0 {
        None
    } else {
        match spec_first_fault(row, result.drop_last()) {
            Some(e) => Some(e),
            None => spec_cell_fault(row, result.last()),
        }
    }
}

/// The position in `result` of the last cell that writes to column `i`.
pub open spec fn spec_last_write(row: Seq<HostColumnView>, result: Seq<CellView>, i: int) -> Option<
    int,
>
    decreases result.len(),
{
    if result.len() == 0 {
        None
    } else if spec_writes_to(row, result.last(), i) {
        Some(result.len() - 1)
    } else {
        spec_last_write(row, result.drop_last(), i)
    }
}

/// Column `i` after the merge: written by the last cell that writes to
/// it, and as it was where no cell does.
pub open spec fn spec_merged_column(
    row: Seq<HostColumnView>,
    result: Seq<CellView>,
    i: int,
) -> HostColumnView {
    match spec_last_write(row, result, i) {
        Some(j) => spec_write(row[i], result[j].value),
        None => row[i],
    }
}

/// The host row after `result` was merged into it, or the fault of the
/// first cell that cannot be written.
pub open spec fn spec_merge(row: Seq<HostColumnView>, result: Seq<CellView>) -> Result<
    Seq<HostColumnView>,
    WriteErrorView,
> {
    match spec_first_fault(row, result) {
        Some(e) => Err(e),
        None => Ok(Seq::new(row.len(), |i: int| spec_merged_column(row, result, i))),
    }
}

/// The model of what [`merge`] returns.
pub open spec fn merge_view(res: Result<HostRow, WriteError>) -> Result<
    Seq<HostColumnView>,
    WriteErrorView,
> {
    match res {
        Ok(row) => Ok(row@),
        Err(e) => Err(e@),
    }
}

/// A fault among the first `k` cells is the fault of the whole result.
pub proof fn lemma_first_fault_of_prefix(row: Seq<HostColumnView>, result: Seq<CellView>, k: int)
    requires
        0 <= k <= result.len(),
        spec_first_fault(row, result.take(k)) is Some,
    ensures
        spec_first_fault(row, result) == spec_first_fault(row, result.take(k)),
    decreases result.len() - k,
{
    if k == result.len() {
        assert(result.take(k) =~= result);
    } else {
        assert(result.take(k + 1).drop_last() =~= result.take(k));
        lemma_first_fault_of_prefix(row, result, k + 1);
    }
}

/// Merges a guest's result row into the host's row.
///
/// Each cell is written to the first column of its name, in the order of
/// the result row. Cells that hold `Unsupported` are skipped. The merge
/// fails at the first cell that names no column or whose value the
/// column's type cannot take.
pub fn merge(row: HostRow, result: &Row) -> (res: Result<HostRow, WriteError>)
    ensures
        merge_view(res) == spec_merge(row@, result@),
{
    let ghost before = row@;
    let ghost cells = result@;
    let mut merged = row;
    let mut k: usize = 0;
    while k < result.columns.len()
        invariant
            k <= result.columns.len(),
            before == row@,
            cells == result@,
            cells.len() == result.columns.len(),
            merged@.len() == before.len(),
            spec_first_fault(before, cells.take(k as int)) is None,
            forall|i: int|
                0 <= i < before.len() ==> merged@[i] == spec_merged_column(
                    before,
                    cells.take(k as int),
                    i,
                ),
        decreases result.columns.len() - k,
    {
        let cell = &result.columns[k];
        let ghost seen = cells.take(k as int);
        let ghost next = cells.take(k as int + 1);
        proof {
            assert(next.drop_last() =~= seen);
            assert(column_names(merged@) =~= column_names(before));
        }
        match &cell.value {
            DbValue::Unsupported => {},
            value => {
                match find_column(&merged, cell.name.as_str()) {
                    None => {
                        proof {
                            lemma_first_fault_of_prefix(before, cells, k as int + 1);
                        }
                        return Err(WriteError::NoSuchColumn(cell.name.clone()));
                    },
                    Some(i) => {
                        let column = &merged.columns[i];
                        assert(column@ == merged@[i as int]);
                        match from_result(value, column) {
                            Err(e) => {
                                proof {
                                    lemma_first_fault_of_prefix(before, cells, k as int + 1);
                                }
                                return Err(e);
                            },
                            Ok(None) => {},
                            Ok(Some(v)) => {
                                let written = HostColumn {
                                    name: column.name.clone(),
                                    type_oid: column.type_oid,
                                    value: v,
                                };
                                merged.columns.set(i, written);
                            },
                        }
                    },
                }
            },
        }
        proof {
            assert forall|i: int| 0 <= i < before.len() implies merged@[i] == spec_merged_column(
                before,
                next,
                i,
            ) by {
                lemma_last_write_in_range(before, seen, i);
            }
        }
        k += 1;
    }
    proof {
        assert(cells.take(k as int) =~= cells);
        assert(merged@ =~= Seq::new(before.len(), |i: int| spec_merged_column(before, cells, i)));
    }
    Ok(merged)
}

/// The last write to a column, where there is one, is a cell of the
/// result that writes to it, and no later cell does.
pub proof fn lemma_last_write_in_range(row: Seq<HostColumnView>, result: Seq<CellView>, i: int)
    ensures
        match spec_last_write(row, result, i) {
            Some(j) => 0 <= j < result.len() && spec_writes_to(row, result[j], i) && forall|k: int|
                j < k < result.len() ==> !spec_writes_to(row, #[trigger] result[k], i),
            None => forall|k: int|
                0 <= k < result.len() ==> !spec_writes_to(row, #[trigger] result[k], i),
        },
    decreases result.len(),
{
    if result.len() == 0 {
    } else if spec_writes_to(row, result.last(), i) {
    } else {
        lemma_last_write_in_range(row, result.drop_last(), i);
        let shorter = result.drop_last();
        assert forall|k: int| 0 <= k < shorter.len() implies shorter[k] == result[k] by {}
    }
}

/// Round trip of one column: the value that the guest is shown for a
/// column can always be written back to that column, and writing it back
/// leaves the column as it was. A column that is shown as `Unsupported`
/// is left untouched.
pub proof fn lemma_round_trip(column: HostColumnView)
    ensures
        spec_from_result(spec_to_param(column), column) is Ok,
        spec_write(column, spec_to_param(column)) == column,
        spec_to_param(column) == DbValueView::Unsupported ==> spec_from_result(
            spec_to_param(column),
            column,
        ) == Ok::<Option<HostValueView>, WriteErrorView>(None),
{
}

/// A merge changes what columns store and nothing else: the merged row
/// has the columns of the row it was made from, under the same names and
/// of the same types.
pub proof fn lemma_merge_keeps_shape(row: Seq<HostColumnView>, result: Seq<CellView>)
    requires
        spec_merge(row, result) is Ok,
    ensures
        spec_merge(row, result)->Ok_0.len() == row.len(),
        forall|i: int|
            0 <= i < row.len() ==> {
                &&& (#[trigger] spec_merge(row, result)->Ok_0[i]).name == row[i].name
                &&& spec_merge(row, result)->Ok_0[i].type_oid == row[i].type_oid
            },
{
}

/// Partial merge: a column that no cell of the result names, or that is
/// named only by cells that hold `Unsupported`, stores after the merge
/// what it stored before.
pub proof fn lemma_merge_leaves_other_columns(
    row: Seq<HostColumnView>,
    result: Seq<CellView>,
    i: int,
)
    requires
        0 <= i < row.len(),
        spec_merge(row, result) is Ok,
        forall|j: int|
            0 <= j < result.len() && (#[trigger] result[j]).name == row[i].name ==> result[j].value
                == DbValueView::Unsupported,
    ensures
        spec_merge(row, result)->Ok_0[i] == row[i],
{
    lemma_last_write_in_range(row, result, i);
    match spec_last_write(row, result, i) {
        Some(j) => {
            column_names(row).index_of_first_ensures(result[j].name);
        },
        None => {},
    }
}

/// A column that is written holds what its last writer asked for: the
/// value of the last cell of the result that names it and holds more than
/// `Unsupported`, provided the column is the first of its name.
pub proof fn lemma_merge_stores_last_write(
    row: Seq<HostColumnView>,
    result: Seq<CellView>,
    i: int,
    j: int,
)
    requires
        0 <= i < row.len(),
        0 <= j < result.len(),
        spec_merge(row, result) is Ok,
        spec_writes_to(row, result[j], i),
        forall|k: int| j < k < result.len() ==> !spec_writes_to(row, #[trigger] result[k], i),
    ensures
        spec_merge(row, result)->Ok_0[i] == spec_write(row[i], result[j].value),
{
    lemma_last_write_in_range(row, result, i);
}

/// Rows of one shape fail on the same cells and are written by the same
/// cells, whatever their columns store.
pub proof fn lemma_merge_goes_by_shape(
    a: Seq<HostColumnView>,
    b: Seq<HostColumnView>,
    result: Seq<CellView>,
)
    requires
        a.len() == b.len(),
        forall|i: int|
            0 <= i < a.len() ==> (#[trigger] a[i]).name == b[i].name && a[i].type_oid
                == b[i].type_oid,
    ensures
        spec_first_fault(a, result) == spec_first_fault(b, result),
        forall|i: int| #[trigger] spec_last_write(a, result, i) == spec_last_write(b, result, i),
    decreases result.len(),
{
    assert(column_names(a) =~= column_names(b));
    if result.len() > 0 {
        lemma_merge_goes_by_shape(a, b, result.drop_last());
        let cell = result.last();
        column_names(a).index_of_first_ensures(cell.name);
        assert forall|i: int| #[trigger]
            spec_last_write(a, result, i) == spec_last_write(b, result, i) by {
            assert(spec_last_write(a, result.drop_last(), i) == spec_last_write(
                b,
                result.drop_last(),
                i,
            ));
        }
    }
}

/// Merging is idempotent: merging a result row into a row that it was
/// already merged into changes nothing.
pub proof fn lemma_merge_is_idempotent(row: Seq<HostColumnView>, result: Seq<CellView>)
    requires
        spec_merge(row, result) is Ok,
    ensures
        spec_merge(spec_merge(row, result)->Ok_0, result) == spec_merge(row, result),
{
    let once = spec_merge(row, result)->Ok_0;
    lemma_merge_keeps_shape(row, result);
    lemma_merge_goes_by_shape(once, row, result);
    let twice = Seq::new(once.len(), |i: int| spec_merged_column(once, result, i));
    assert forall|i: int| 0 <= i < once.len() implies twice[i] == once[i] by {
    }
    assert(twice =~= once);
}

/// Round trip of a whole row: where no two columns share a name, a guest
/// that hands its parameter row back leaves the host row as it was.
pub proof fn lemma_echo_changes_nothing(row: Seq<HostColumnView>)
    requires
        column_names(row).no_duplicates(),
    ensures
        spec_merge(row, spec_param_row(row)) == Ok::<Seq<HostColumnView>, WriteErrorView>(row),
{
    let echo = spec_param_row(row);
    let names = column_names(row);
    assert forall|j: int| 0 <= j < echo.len() implies spec_find_column(row, echo[j].name) == Some(
        j,
    ) by {
        names.index_of_first_ensures(echo[j].name);
        assert(names[j] == echo[j].name);
    }
    lemma_echo_has_no_fault(row, echo.len() as int);
    assert(echo.take(echo.len() as int) =~= echo);
    let merged = Seq::new(row.len(), |i: int| spec_merged_column(row, echo, i));
    assert forall|i: int| 0 <= i < row.len() implies merged[i] == row[i] by {
        lemma_last_write_in_range(row, echo, i);
        lemma_round_trip(row[i]);
    }
    assert(merged =~= row);
}

/// No cell of a row's own parameter row fails to be written.
proof fn lemma_echo_has_no_fault(row: Seq<HostColumnView>, k: int)
    requires
        0 <= k <= row.len(),
        forall|j: int|
            0 <= j < row.len() ==> spec_find_column(row, #[trigger] spec_param_row(row)[j].name)
                == Some(j),
    ensures
        spec_first_fault(row, spec_param_row(row).take(k)) is None,
    decreases k,
{
    let echo = spec_param_row(row);
    if k > 0 {
        lemma_echo_has_no_fault(row, k - 1);
        assert(echo.take(k).drop_last() =~= echo.take(k - 1));
        lemma_round_trip(row[k - 1]);
    }
}

} // verus!
