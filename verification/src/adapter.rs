//! The adapter between the host's row-insert hook and the dispatcher.
//!
//! A row event first asks [`running_app`] for the running application,
//! which bootstraps it at the first event of the process. It then passes
//! through the adapter twice. [`on_row_event`] takes what the host handed
//! over and says whether the row goes back as it is or a component is to
//! be run on it. [`complete_row_event`] takes the engine's reply and
//! gives the row that goes back to the host.

use vstd::prelude::*;
use crate::cell::{spec_install, Admission, RuntimeCell};
use crate::host::{param_row, spec_param_row, HostColumnView, HostRow};
use crate::merge::{
    lemma_merge_is_idempotent, lemma_merge_leaves_other_columns, merge, spec_merge, WriteError,
    WriteErrorView,
};
use crate::run::{BootstrapError, BootstrapErrorView, RunningApp};
use crate::trigger::{
    settle, spec_settle, Dispatch, DispatchError, DispatchErrorView, EngineReply, EngineReplyView,
};
use crate::value::{CellView, DbValueView, Row};

verus! {

/// Why the hook fails the host's row operation.
#[derive(Debug, PartialEq, Eq)]
pub enum TriggerError {
    /// The host handed over no new row.
    NullTriggerTuple,
    /// The host could not name the table of the event.
    CantTable(String),
    /// A result cell could not be written into the host's row.
    TryFromDatum(WriteError),
    /// The application could not be brought up.
    Bootstrap(BootstrapError),
    /// The component could not be run.
    Dispatch(DispatchError),
}

/// Mathematical model of a [`TriggerError`].
pub enum TriggerErrorView {
    NullTriggerTuple,
    CantTable(Seq<char>),
    TryFromDatum(WriteErrorView),
    Bootstrap(BootstrapErrorView),
    Dispatch(DispatchErrorView),
}

impl View for TriggerError {
    type V = TriggerErrorView;

    open spec fn view(&self) -> TriggerErrorView {
        match self {
            TriggerError::NullTriggerTuple => TriggerErrorView::NullTriggerTuple,
            TriggerError::CantTable(m) => TriggerErrorView::CantTable(m@),
            TriggerError::TryFromDatum(e) => TriggerErrorView::TryFromDatum(e@),
            TriggerError::Bootstrap(e) => TriggerErrorView::Bootstrap(e@),
            TriggerError::Dispatch(e) => TriggerErrorView::Dispatch(e@),
        }
    }
}

impl Clone for TriggerError {
    fn clone(&self) -> (res: Self)
        ensures
            res@ == self@,
    {
        match self {
            TriggerError::NullTriggerTuple => TriggerError::NullTriggerTuple,
            TriggerError::CantTable(m) => TriggerError::CantTable(m.clone()),
            TriggerError::TryFromDatum(e) => TriggerError::TryFromDatum(e.clone()),
            TriggerError::Bootstrap(e) => TriggerError::Bootstrap(e.clone()),
            TriggerError::Dispatch(e) => TriggerError::Dispatch(e.clone()),
        }
    }
}

/// Takes the running application out of the holder for one row event,
/// bootstrapping first where no call has done so yet. A bootstrap that
/// failed, now or at an earlier call, fails the row event.
pub fn running_app<T, F: FnOnce() -> Result<T, BootstrapError>>(
    cell: &mut RuntimeCell<T>,
    bootstrap: F,
) -> (res: Result<&T, TriggerError>)
    requires
        bootstrap.requires(()),
    ensures
        !(*old(cell) is Uninitialized) ==> *final(cell) == *old(cell),
        *old(cell) is Uninitialized ==> exists|outcome: Result<T, BootstrapError>|
            bootstrap.ensures((), outcome) && *final(cell) == spec_install(*old(cell), outcome),
        match *final(cell) {
            RuntimeCell::Ready(running) => res == Ok::<&T, TriggerError>(&running),
            RuntimeCell::Failed(e) => res is Err && res->Err_0@ == TriggerErrorView::Bootstrap(e@),
            RuntimeCell::Uninitialized => false,
        },
{
    cell.get_or_init(bootstrap);
    match cell.enter() {
        Admission::Proceed(running) => Ok(running),
        Admission::Refuse(e) => Err(TriggerError::Bootstrap(e.clone())),
        Admission::Bootstrap => unreached(),
    }
}

/// What becomes of a row event before any component has run.
#[derive(Debug, PartialEq, Eq)]
pub enum RowEvent {
    /// No component handles the table: the row goes back as it came.
    Return(HostRow),
    /// Run `component` on `param`, then hand `row` and the engine's reply
    /// to [`complete_row_event`].
    Invoke { component: String, param: Row, row: HostRow },
}

/// Mathematical model of a [`RowEvent`].
pub enum RowEventView {
    Return(Seq<HostColumnView>),
    Invoke { component: Seq<char>, param: Seq<CellView>, row: Seq<HostColumnView> },
}

impl View for RowEvent {
    type V = RowEventView;

    open spec fn view(&self) -> RowEventView {
        match self {
            RowEvent::Return(row) => RowEventView::Return(row@),
            RowEvent::Invoke { component, param, row } => RowEventView::Invoke {
                component: component@,
                param: param@,
                row: row@,
            },
        }
    }
}

/// The first half of a row event. The table is looked at before the row:
/// a host that cannot name the table fails with `CantTable`, one that
/// hands over no row with `NullTriggerTuple`. Otherwise the row of an
/// unrouted table goes back untouched, and the row of a routed table is
/// shown to the routed component as its parameter row.
pub open spec fn spec_on_row_event(
    routes: Map<Seq<char>, Seq<char>>,
    table: Result<Seq<char>, Seq<char>>,
    row: Option<Seq<HostColumnView>>,
) -> Result<RowEventView, TriggerErrorView> {
    match table {
        Err(m) => Err(TriggerErrorView::CantTable(m)),
        Ok(t) => match row {
            None => Err(TriggerErrorView::NullTriggerTuple),
            Some(r) => if routes.contains_key(t) {
                Ok(RowEventView::Invoke { component: routes[t], param: spec_param_row(r), row: r })
            } else {
                Ok(RowEventView::Return(r))
            },
        },
    }
}

/// The model of a table name, or of the host's complaint.
pub open spec fn table_view(table: Result<String, String>) -> Result<Seq<char>, Seq<char>> {
    match table {
        Ok(t) => Ok(t@),
        Err(m) => Err(m@),
    }
}

/// The model of the host's new row, where it handed one over.
pub open spec fn row_view(row: Option<HostRow>) -> Option<Seq<HostColumnView>> {
    match row {
        Some(r) => Some(r@),
        None => None,
    }
}

/// The model of what [`on_row_event`] returns.
pub open spec fn row_event_view(res: Result<RowEvent, TriggerError>) -> Result<
    RowEventView,
    TriggerErrorView,
> {
    match res {
        Ok(event) => Ok(event@),
        Err(e) => Err(e@),
    }
}

/// Takes a row event from the host: `table` is the table's name or the
/// host's complaint that it has none, `row` the new row where the host
/// handed one over.
pub fn on_row_event(app: &RunningApp, table: Result<String, String>, row: Option<HostRow>) -> (res:
    Result<RowEvent, TriggerError>)
    ensures
        row_event_view(res) == spec_on_row_event(app.routes(), table_view(table), row_view(row)),
        table is Ok && row is Some && !app.routes().contains_key(table->Ok_0@) ==> (res matches Ok(
            RowEvent::Return(back),
        ) && back@ == row->Some_0@),
{
    let table = match table {
        Ok(t) => t,
        Err(m) => {
            return Err(TriggerError::CantTable(m));
        },
    };
    let row = match row {
        Some(r) => r,
        None => {
            return Err(TriggerError::NullTriggerTuple);
        },
    };
    let param = param_row(&row);
    match app.handle_pg_event(table.as_str(), param) {
        Dispatch::Unhandled => Ok(RowEvent::Return(row)),
        Dispatch::Invoke { component, row: param } => Ok(
            RowEvent::Invoke { component, param, row },
        ),
    }
}

/// The second half of a row event: a component that returned nothing
/// leaves the row as it was, a result row is merged into it, and a
/// failure of the engine or of the merge fails the row operation.
pub open spec fn spec_complete_row_event(
    row: Seq<HostColumnView>,
    reply: EngineReplyView,
) -> Result<Seq<HostColumnView>, TriggerErrorView> {
    match spec_settle(reply) {
        Err(e) => Err(TriggerErrorView::Dispatch(e)),
        Ok(None) => Ok(row),
        Ok(Some(result)) => match spec_merge(row, result) {
            Ok(merged) => Ok(merged),
            Err(e) => Err(TriggerErrorView::TryFromDatum(e)),
        },
    }
}

/// The model of what [`complete_row_event`] returns.
pub open spec fn completed_view(res: Result<HostRow, TriggerError>) -> Result<
    Seq<HostColumnView>,
    TriggerErrorView,
> {
    match res {
        Ok(row) => Ok(row@),
        Err(e) => Err(e@),
    }
}

/// Gives the row that goes back to the host once the engine has replied.
pub fn complete_row_event(row: HostRow, reply: EngineReply) -> (res: Result<HostRow, TriggerError>)
    ensures
        completed_view(res) == spec_complete_row_event(row@, reply@),
        reply@ == EngineReplyView::Returned(None) ==> (res matches Ok(back) && back@ == row@),
{
    match settle(reply) {
        Err(e) => Err(TriggerError::Dispatch(e)),
        Ok(None) => Ok(row),
        Ok(Some(result)) => match merge(row, &result) {
            Ok(merged) => Ok(merged),
            Err(e) => Err(TriggerError::TryFromDatum(e)),
        },
    }
}

/// A whole row event, from the host's row to the row that goes back:
/// both halves one after the other, with `reply` for what the engine
/// answers if a component is run.
pub open spec fn spec_row_event(
    routes: Map<Seq<char>, Seq<char>>,
    table: Seq<char>,
    row: Seq<HostColumnView>,
    reply: EngineReplyView,
) -> Result<Seq<HostColumnView>, TriggerErrorView> {
    match spec_on_row_event(routes, Ok(table), Some(row)) {
        Ok(RowEventView::Return(back)) => Ok(back),
        Ok(RowEventView::Invoke { row: kept, .. }) => spec_complete_row_event(kept, reply),
        Err(e) => Err(e),
    }
}

/// A row event on a table that the router does not know never fails and
/// gives the row back as it came, whatever an engine would have answered.
pub proof fn lemma_unrouted_row_is_unchanged(
    routes: Map<Seq<char>, Seq<char>>,
    table: Seq<char>,
    row: Seq<HostColumnView>,
    reply: EngineReplyView,
)
    requires
        !routes.contains_key(table),
    ensures
        spec_row_event(routes, table, row, reply) == Ok::<Seq<HostColumnView>, TriggerErrorView>(
            row,
        ),
{
}

/// A row event whose component returns nothing gives the row back as it
/// came.
pub proof fn lemma_no_result_leaves_row_unchanged(
    routes: Map<Seq<char>, Seq<char>>,
    table: Seq<char>,
    row: Seq<HostColumnView>,
)
    ensures
        spec_row_event(routes, table, row, EngineReplyView::Returned(None)) == Ok::<
            Seq<HostColumnView>,
            TriggerErrorView,
        >(row),
{
}

/// A row event whose component returns a result row changes no column
/// but those that the result row names: a column that no cell names, or
/// that is named only by cells that hold `Unsupported`, goes back as it
/// came.
pub proof fn lemma_result_changes_named_columns_only(
    routes: Map<Seq<char>, Seq<char>>,
    table: Seq<char>,
    row: Seq<HostColumnView>,
    result: Seq<CellView>,
    i: int,
)
    requires
        0 <= i < row.len(),
        spec_row_event(routes, table, row, EngineReplyView::Returned(Some(result))) is Ok,
        forall|j: int|
            0 <= j < result.len() && (#[trigger] result[j]).name == row[i].name ==> result[j].value
                == DbValueView::Unsupported,
    ensures
        spec_row_event(routes, table, row, EngineReplyView::Returned(Some(result)))->Ok_0[i]
            == row[i],
{
    if routes.contains_key(table) {
        lemma_merge_leaves_other_columns(row, result, i);
    }
}

/// Handing a row that a result row was merged into to the same result
/// once more changes nothing.
pub proof fn lemma_result_applies_once(
    routes: Map<Seq<char>, Seq<char>>,
    table: Seq<char>,
    row: Seq<HostColumnView>,
    result: Seq<CellView>,
)
    requires
        spec_row_event(routes, table, row, EngineReplyView::Returned(Some(result))) is Ok,
    ensures
        spec_row_event(
            routes,
            table,
            spec_row_event(routes, table, row, EngineReplyView::Returned(Some(result)))->Ok_0,
            EngineReplyView::Returned(Some(result)),
        ) == spec_row_event(routes, table, row, EngineReplyView::Returned(Some(result))),
{
    if routes.contains_key(table) {
        lemma_merge_is_idempotent(row, result);
    }
}

} // verus!
