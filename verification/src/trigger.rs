//! Routing of tables to components, and the dispatch decision.
//!
//! The router is built once, from the per-component settings of the
//! application, and never changes afterwards. A dispatch looks the table
//! up: where no component claims it, the row event is unhandled and no
//! component runs; where one does, the driver is told to run that
//! component on the parameter row and hands the engine's reply to
//! [`settle`].

use vstd::hash_map::StringHashMap;
use vstd::prelude::*;
use vstd::std_specs::iter::IteratorSpec;
use vstd::string::*;
use crate::value::{CellView, Row};

verus! {

/// Per-component settings: the component claims the rows of one table.
#[derive(Debug, PartialEq, Eq)]
pub struct PgEventTriggerConfig {
    pub component: String,
    pub table: String,
}

/// Mathematical model of a [`PgEventTriggerConfig`].
pub struct PgEventTriggerConfigView {
    pub component: Seq<char>,
    pub table: Seq<char>,
}

impl View for PgEventTriggerConfig {
    type V = PgEventTriggerConfigView;

    open spec fn view(&self) -> PgEventTriggerConfigView {
        PgEventTriggerConfigView { component: self.component@, table: self.table@ }
    }
}

impl Clone for PgEventTriggerConfig {
    fn clone(&self) -> (res: Self)
        ensures
            res@ == self@,
    {
        PgEventTriggerConfig { component: self.component.clone(), table: self.table.clone() }
    }
}

impl PgEventTriggerConfig {
    /// The settings of `component`, which handles `table`.
    pub fn new(component: &str, table: &str) -> (res: Self)
        ensures
            res@ == (PgEventTriggerConfigView { component: component@, table: table@ }),
    {
        PgEventTriggerConfig { component: component.to_owned(), table: table.to_owned() }
    }
}

/// The models of a list of settings, in order.
pub open spec fn spec_configs(configs: Seq<PgEventTriggerConfig>) -> Seq<
    PgEventTriggerConfigView,
> {
    Seq::new(configs.len(), |i: int| configs[i]@)
}

/// The routes that a list of settings gives: each table goes to the
/// component of the last settings that claim it.
pub open spec fn spec_routes(configs: Seq<PgEventTriggerConfigView>) -> Map<Seq<char>, Seq<char>>
    decreases configs.len(),
{
    if configs.len() == 0 {
        Map::empty()
    } else {
        spec_routes(configs.drop_last()).insert(configs.last().table, configs.last().component)
    }
}

/// A table is routed exactly when some settings claim it, and then to the
/// component of the last settings that do.
pub proof fn lemma_routes_last_claim_wins(
    configs: Seq<PgEventTriggerConfigView>,
    table: Seq<char>,
)
    ensures
        spec_routes(configs).contains_key(table) <==> exists|j: int|
            0 <= j < configs.len() && (#[trigger] configs[j]).table == table,
        forall|j: int|
            0 <= j < configs.len() && (#[trigger] configs[j]).table == table && (forall|k: int|
                j < k < configs.len() ==> (#[trigger] configs[k]).table != table) ==> spec_routes(
                configs,
            )[table] == configs[j].component,
    decreases configs.len(),
{
    if configs.len() > 0 {
        let shorter = configs.drop_last();
        lemma_routes_last_claim_wins(shorter, table);
        assert forall|j: int| 0 <= j < shorter.len() implies shorter[j] == configs[j] by {}
        assert forall|j: int|
            0 <= j < configs.len() && (#[trigger] configs[j]).table == table && (forall|k: int|
                j < k < configs.len() ==> (#[trigger] configs[k]).table
                    != table) implies spec_routes(configs)[table] == configs[j].component by {
        }
    }
}

/// The trigger of the bridge: the static table-to-component routing table.
pub struct PgEventTrigger {
    component_tables: StringHashMap<String>,
}

impl PgEventTrigger {
    /// The routes of this trigger: table name to component id.
    pub closed spec fn routes(&self) -> Map<Seq<char>, Seq<char>> {
        self.component_tables@.map_values(|component: String| component@)
    }

    /// Builds the router from the per-component settings. No component
    /// runs. Where two settings claim one table, the later one wins.
    pub fn new(configs: &Vec<PgEventTriggerConfig>) -> (trigger: Self)
        ensures
            trigger.routes() == spec_routes(spec_configs(configs@)),
    {
        let ghost all = spec_configs(configs@);
        let mut component_tables: StringHashMap<String> = StringHashMap::new();
        let mut i: usize = 0;
        assert(component_tables@.map_values(|component: String| component@) =~= spec_routes(
            all.take(0),
        ));
        while i < configs.len()
            invariant
                i <= configs.len(),
                all == spec_configs(configs@),
                component_tables@.map_values(|component: String| component@) == spec_routes(
                    all.take(i as int),
                ),
            decreases configs.len() - i,
        {
            let config = &configs[i];
            let ghost before = component_tables@;
            component_tables.insert(config.table.clone(), config.component.clone());
            proof {
                let view = |component: String| component@;
                let next = all.take(i as int + 1);
                assert(next.drop_last() =~= all.take(i as int));
                assert(component_tables@.map_values(view) =~= before.map_values(view).insert(
                    config@.table,
                    config@.component,
                ));
            }
            i += 1;
        }
        assert(all.take(i as int) =~= all);
        PgEventTrigger { component_tables }
    }

    /// The component that handles `table`, if any does.
    pub fn component_for(&self, table: &str) -> (component: Option<&String>)
        ensures
            match component {
                Some(c) => self.routes().contains_key(table@) && c@ == self.routes()[table@],
                None => !self.routes().contains_key(table@),
            },
    {
        self.component_tables.get(table)
    }

    /// Decides what is to be done with a row event on `table`.
    ///
    /// A table that no component claims is unhandled: that is the normal
    /// outcome for such a table and no failure. For a table that is
    /// claimed, the driver is to run the component, fresh for this call,
    /// on `row`.
    pub fn handle_pg_event(&self, table: &str, row: Row) -> (dispatch: Dispatch)
        ensures
            dispatch@ == spec_dispatch(self.routes(), table@, row@),
    {
        match self.component_for(table) {
            Some(component) => Dispatch::Invoke { component: component.clone(), row },
            None => Dispatch::Unhandled,
        }
    }
}

/// What the dispatcher asks of its driver.
#[derive(Debug, PartialEq, Eq)]
pub enum Dispatch {
    /// No component handles the table; nothing is to be run.
    Unhandled,
    /// Run `component` on `row` and hand the engine's reply to [`settle`].
    Invoke { component: String, row: Row },
}

/// Mathematical model of a [`Dispatch`].
pub enum DispatchView {
    Unhandled,
    Invoke { component: Seq<char>, row: Seq<CellView> },
}

impl View for Dispatch {
    type V = DispatchView;

    open spec fn view(&self) -> DispatchView {
        match self {
            Dispatch::Unhandled => DispatchView::Unhandled,
            Dispatch::Invoke { component, row } => DispatchView::Invoke {
                component: component@,
                row: row@,
            },
        }
    }
}

/// The dispatch decision: the routed component is invoked on the row as
/// it came; an unrouted table is unhandled.
pub open spec fn spec_dispatch(
    routes: Map<Seq<char>, Seq<char>>,
    table: Seq<char>,
    row: Seq<CellView>,
) -> DispatchView {
    if routes.contains_key(table) {
        DispatchView::Invoke { component: routes[table], row }
    } else {
        DispatchView::Unhandled
    }
}

/// How the execution engine answered one invocation.
#[derive(Debug, PartialEq, Eq)]
pub enum EngineReply {
    /// The component ran and returned a result row, or none.
    Returned(Option<Row>),
    /// The component could not be instantiated, or its invocation failed.
    Failed(String),
    /// The component did not answer within the time it was given.
    TimedOut,
}

/// Mathematical model of an [`EngineReply`].
pub enum EngineReplyView {
    Returned(Option<Seq<CellView>>),
    Failed(Seq<char>),
    TimedOut,
}

impl View for EngineReply {
    type V = EngineReplyView;

    open spec fn view(&self) -> EngineReplyView {
        match self {
            EngineReply::Returned(Some(row)) => EngineReplyView::Returned(Some(row@)),
            EngineReply::Returned(None) => EngineReplyView::Returned(None),
            EngineReply::Failed(m) => EngineReplyView::Failed(m@),
            EngineReply::TimedOut => EngineReplyView::TimedOut,
        }
    }
}

/// Why one dispatch failed. The failure ends that call only.
#[derive(Debug, PartialEq, Eq)]
pub enum DispatchError {
    /// The engine could not instantiate or invoke the component.
    Engine(String),
    /// The engine call was given up after its time ran out.
    Timeout,
}

/// Mathematical model of a [`DispatchError`].
pub enum DispatchErrorView {
    Engine(Seq<char>),
    Timeout,
}

impl View for DispatchError {
    type V = DispatchErrorView;

    open spec fn view(&self) -> DispatchErrorView {
        match self {
            DispatchError::Engine(m) => DispatchErrorView::Engine(m@),
            DispatchError::Timeout => DispatchErrorView::Timeout,
        }
    }
}

impl Clone for DispatchError {
    fn clone(&self) -> (res: Self)
        ensures
            res@ == self@,
    {
        match self {
            DispatchError::Engine(m) => DispatchError::Engine(m.clone()),
            DispatchError::Timeout => DispatchError::Timeout,
        }
    }
}

/// The outcome of a dispatch whose component was invoked: what the
/// component returned, unchanged, or the engine's failure.
pub open spec fn spec_settle(reply: EngineReplyView) -> Result<
    Option<Seq<CellView>>,
    DispatchErrorView,
> {
    match reply {
        EngineReplyView::Returned(row) => Ok(row),
        EngineReplyView::Failed(m) => Err(DispatchErrorView::Engine(m)),
        EngineReplyView::TimedOut => Err(DispatchErrorView::Timeout),
    }
}

/// The model of a dispatch outcome.
pub open spec fn outcome_view(res: Result<Option<Row>, DispatchError>) -> Result<
    Option<Seq<CellView>>,
    DispatchErrorView,
> {
    match res {
        Ok(Some(row)) => Ok(Some(row@)),
        Ok(None) => Ok(None),
        Err(e) => Err(e@),
    }
}

/// Turns the engine's reply into the outcome of the dispatch.
pub fn settle(reply: EngineReply) -> (res: Result<Option<Row>, DispatchError>)
    ensures
        outcome_view(res) == spec_settle(reply@),
{
    match reply {
        EngineReply::Returned(row) => Ok(row),
        EngineReply::Failed(m) => Err(DispatchError::Engine(m)),
        EngineReply::TimedOut => Err(DispatchError::Timeout),
    }
}


/// A console command: the table's name before the first colon, and
/// behind it the text to be handled, as it stands. A line without a colon
/// is no command.
pub open spec fn spec_split_command(line: Seq<char>) -> Option<(Seq<char>, Seq<char>)> {
    match line.index_of_first(':') {
        Some(i) => Some((line.subrange(0, i), line.subrange(i + 1, line.len() as int))),
        None => None,
    }
}

/// The model of a command that was split.
pub open spec fn command_view(command: Option<(String, String)>) -> Option<
    (Seq<char>, Seq<char>),
> {
    match command {
        Some((table, text)) => Some((table@, text@)),
        None => None,
    }
}

/// Splits a console command of the form `table:text` at its first colon.
pub fn split_command(line: &str) -> (command: Option<(String, String)>)
    ensures
        command_view(command) == spec_split_command(line@),
{
    let len = line.unicode_len();
    let mut chars = line.chars();
    let mut i: usize = 0;
    loop
        invariant
            i <= len,
            len == line@.len(),
            chars.obeys_prophetic_iter_laws(),
            chars.remaining() == line@.skip(i as int),
            forall|j: int| 0 <= j < i ==> line@[j] != ':',
        decreases len - i,
    {
        broadcast use vstd::string::group_string_axioms;

        match chars.next() {
            None => {
                proof {
                    line@.index_of_first_ensures(':');
                }
                return None;
            },
            Some(c) => {
                if c == ':' {
                    proof {
                        line@.index_of_first_ensures(':');
                    }
                    let table = line.substring_char(0, i);
                    let text = line.substring_char(i + 1, len);
                    return Some((String::from_str(table), String::from_str(text)));
                }
                i += 1;
            },
        }
    }
}

} // verus!
