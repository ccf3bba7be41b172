use pg_event_trigger::adapter::{
    complete_row_event, on_row_event, running_app, RowEvent, TriggerError,
};
use pg_event_trigger::cell::RuntimeCell;
use pg_event_trigger::resolver::ResolveError;
use pg_event_trigger::run::BootstrapError;
use pg_event_trigger::host::{HostColumn, HostRow, HostValue, BOOLOID, TEXTOID, VARCHAROID};
use pg_event_trigger::merge::WriteError;
use pg_event_trigger::run::RunningApp;
use pg_event_trigger::sample_app::{Bestseller, SpinPgEvent, Titler};
use pg_event_trigger::trigger::{DispatchError, EngineReply, PgEventTrigger, PgEventTriggerConfig};
use pg_event_trigger::value::{Cell, DbValue, Row};

const JSONBOID: u32 = 3802;

fn text(s: &str) -> HostValue {
    HostValue::Text(s.to_string())
}

fn str_value(s: &str) -> DbValue {
    DbValue::Str(s.to_string())
}

fn books_app() -> RunningApp {
    RunningApp::new(PgEventTrigger::new(&vec![PgEventTriggerConfig::new("titler", "books")]))
}

fn fox() -> HostRow {
    HostRow {
        columns: vec![
            HostColumn::new("title", VARCHAROID, text("Fox")),
            HostColumn::new("description", TEXTOID, text("foxy")),
        ],
    }
}

fn fox_with_payload() -> HostRow {
    HostRow {
        columns: vec![
            HostColumn::new("title", VARCHAROID, text("Fox")),
            HostColumn::new("description", TEXTOID, text("foxy")),
            HostColumn::new("payload", JSONBOID, HostValue::Opaque),
        ],
    }
}

fn table(name: &str) -> Result<String, String> {
    Ok(name.to_string())
}

#[test]
fn books_row_is_retitled_by_titler() {
    let app = books_app();
    let event = on_row_event(&app, table("books"), Some(fox())).unwrap();
    let (component, param, row) = match event {
        RowEvent::Invoke { component, param, row } => (component, param, row),
        RowEvent::Return(_) => panic!("the table is routed"),
    };
    assert_eq!(component, "titler");
    assert_eq!(
        param,
        Row {
            columns: vec![
                Cell::new("title", str_value("Fox")),
                Cell::new("description", str_value("foxy")),
            ],
        }
    );
    assert_eq!(row, fox());

    let result = Row { columns: vec![Cell::new("title", str_value("MOAR Fox"))] };
    let back = complete_row_event(row, EngineReply::Returned(Some(result))).unwrap();
    let expected = HostRow {
        columns: vec![
            HostColumn::new("title", VARCHAROID, text("MOAR Fox")),
            HostColumn::new("description", TEXTOID, text("foxy")),
        ],
    };
    assert_eq!(back, expected);
}

#[test]
fn unmapped_table_leaves_the_row_unchanged() {
    let app = books_app();
    let event = on_row_event(&app, table("unmapped"), Some(fox())).unwrap();
    assert_eq!(event, RowEvent::Return(fox()));
}

#[test]
fn unsupported_payload_in_result_leaves_payload_untouched() {
    let result = Row { columns: vec![Cell::new("payload", DbValue::Unsupported)] };
    let back = complete_row_event(fox_with_payload(), EngineReply::Returned(Some(result)));
    assert_eq!(back, Ok(fox_with_payload()));
}

#[test]
fn component_that_returns_nothing_leaves_the_row_unchanged() {
    assert_eq!(complete_row_event(fox(), EngineReply::Returned(None)), Ok(fox()));
    assert_eq!(
        complete_row_event(fox_with_payload(), EngineReply::Returned(None)),
        Ok(fox_with_payload())
    );
    let empty = HostRow { columns: vec![] };
    let back = complete_row_event(empty, EngineReply::Returned(None));
    assert_eq!(back, Ok(HostRow { columns: vec![] }));
}

#[test]
fn partial_result_changes_named_columns_only() {
    let row = HostRow {
        columns: vec![
            HostColumn::new("title", VARCHAROID, text("Fox")),
            HostColumn::new("description", TEXTOID, text("foxy")),
            HostColumn::new("sold", BOOLOID, HostValue::Boolean(false)),
            HostColumn::new("payload", JSONBOID, HostValue::Opaque),
        ],
    };
    let result = Row { columns: vec![Cell::new("sold", DbValue::Boolean(true))] };
    let back = complete_row_event(row.clone(), EngineReply::Returned(Some(result))).unwrap();
    assert_eq!(back.columns[0], row.columns[0]);
    assert_eq!(back.columns[1], row.columns[1]);
    assert_eq!(back.columns[2], HostColumn::new("sold", BOOLOID, HostValue::Boolean(true)));
    assert_eq!(back.columns[3], row.columns[3]);
}

#[test]
fn engine_failure_fails_the_row_operation() {
    assert_eq!(
        complete_row_event(fox(), EngineReply::Failed("trap".to_string())),
        Err(TriggerError::Dispatch(DispatchError::Engine("trap".to_string())))
    );
}

#[test]
fn engine_timeout_fails_the_row_operation() {
    assert_eq!(
        complete_row_event(fox(), EngineReply::TimedOut),
        Err(TriggerError::Dispatch(DispatchError::Timeout))
    );
}

#[test]
fn result_that_cannot_be_written_fails_the_row_operation() {
    let result = Row { columns: vec![Cell::new("author", str_value("Aesop"))] };
    assert_eq!(
        complete_row_event(fox(), EngineReply::Returned(Some(result))),
        Err(TriggerError::TryFromDatum(WriteError::NoSuchColumn("author".to_string())))
    );
    let result = Row { columns: vec![Cell::new("title", DbValue::Boolean(true))] };
    assert_eq!(
        complete_row_event(fox(), EngineReply::Returned(Some(result))),
        Err(TriggerError::TryFromDatum(WriteError::IncompatibleTypes {
            column: "title".to_string(),
            type_oid: VARCHAROID,
        }))
    );
}

#[test]
fn host_without_table_name_fails_first() {
    let app = books_app();
    assert_eq!(
        on_row_event(&app, Err("not fired by the trigger manager".to_string()), Some(fox())),
        Err(TriggerError::CantTable("not fired by the trigger manager".to_string()))
    );
    assert_eq!(
        on_row_event(&app, Err("no table".to_string()), None),
        Err(TriggerError::CantTable("no table".to_string()))
    );
}

#[test]
fn host_without_new_row_fails() {
    let app = books_app();
    assert_eq!(on_row_event(&app, table("books"), None), Err(TriggerError::NullTriggerTuple));
    assert_eq!(on_row_event(&app, table("unmapped"), None), Err(TriggerError::NullTriggerTuple));
}

#[test]
fn unsupported_columns_are_shown_as_markers() {
    let app = books_app();
    let event = on_row_event(&app, table("books"), Some(fox_with_payload())).unwrap();
    match event {
        RowEvent::Invoke { param, .. } => {
            assert_eq!(param.columns[2], Cell::new("payload", DbValue::Unsupported));
        },
        RowEvent::Return(_) => panic!("the table is routed"),
    }
}

fn param_of(row: &HostRow) -> Row {
    match on_row_event(&books_app(), table("books"), Some(row.clone())).unwrap() {
        RowEvent::Invoke { param, .. } => param,
        RowEvent::Return(_) => panic!("the table is routed"),
    }
}

#[test]
fn titler_guest_puts_moar_before_the_title() {
    let returned = Titler::handle_pg_event(param_of(&fox_with_payload())).unwrap();
    assert_eq!(
        returned,
        Row {
            columns: vec![
                Cell::new("title", str_value("MOAR Fox")),
                Cell::new("description", str_value("foxy")),
                Cell::new("payload", DbValue::Unsupported),
            ],
        }
    );
    let reply = EngineReply::Returned(Some(returned));
    let back = complete_row_event(fox_with_payload(), reply).unwrap();
    let mut expected = fox_with_payload();
    expected.columns[0].value = text("MOAR Fox");
    assert_eq!(back, expected);
}

#[test]
fn bestseller_guest_praises_the_description() {
    let returned = Bestseller::handle_pg_event(param_of(&fox())).unwrap();
    assert_eq!(
        returned,
        Row {
            columns: vec![
                Cell::new("title", str_value("Fox")),
                Cell::new("description", str_value("foxy - now a the Sunday Times bestseller")),
            ],
        }
    );
}

#[test]
fn guests_return_nothing_without_their_column() {
    let row = Row { columns: vec![Cell::new("name", str_value("Fox"))] };
    assert_eq!(Titler::handle_pg_event(row.clone()), None);
    assert_eq!(Bestseller::handle_pg_event(row), None);
    assert_eq!(Titler::handle_pg_event(Row { columns: vec![] }), None);
}

#[test]
fn guests_return_nothing_where_their_column_holds_no_string() {
    let row = Row {
        columns: vec![
            Cell::new("title", DbValue::DbNull),
            Cell::new("description", DbValue::Boolean(true)),
        ],
    };
    assert_eq!(Titler::handle_pg_event(row.clone()), None);
    assert_eq!(Bestseller::handle_pg_event(row), None);
    let row = Row { columns: vec![Cell::new("title", DbValue::Unsupported)] };
    assert_eq!(Titler::handle_pg_event(row), None);
}

#[test]
fn guests_look_at_the_first_cell_of_the_name_only() {
    let row = Row {
        columns: vec![Cell::new("title", DbValue::DbNull), Cell::new("title", str_value("Fox"))],
    };
    assert_eq!(Titler::handle_pg_event(row), None);
    let row = Row {
        columns: vec![Cell::new("title", str_value("Fox")), Cell::new("title", str_value("Box"))],
    };
    assert_eq!(
        Titler::handle_pg_event(row),
        Some(Row {
            columns: vec![
                Cell::new("title", str_value("MOAR Fox")),
                Cell::new("title", str_value("Box")),
            ],
        })
    );
}

#[test]
fn titler_of_an_empty_title() {
    let row = Row { columns: vec![Cell::new("title", str_value(""))] };
    assert_eq!(
        Titler::handle_pg_event(row),
        Some(Row { columns: vec![Cell::new("title", str_value("MOAR "))] })
    );
}

#[test]
fn first_row_event_bootstraps_and_later_ones_reuse() {
    let mut cell: RuntimeCell<RunningApp> = RuntimeCell::new();
    let mut bootstraps = 0;
    for _ in 0..4 {
        let app = running_app(&mut cell, || {
            bootstraps += 1;
            Ok(books_app())
        })
        .unwrap();
        let event = on_row_event(app, table("books"), Some(fox())).unwrap();
        assert!(matches!(event, RowEvent::Invoke { .. }));
    }
    assert_eq!(bootstraps, 1);
}

#[test]
fn failed_bootstrap_fails_every_row_event() {
    let mut cell: RuntimeCell<RunningApp> = RuntimeCell::new();
    let mut bootstraps = 0;
    for _ in 0..4 {
        let res = running_app(&mut cell, || {
            bootstraps += 1;
            Err(BootstrapError::Resolve(ResolveError::Fetch(format!("attempt {}", bootstraps))))
        });
        match res {
            Err(e) => assert_eq!(
                e,
                TriggerError::Bootstrap(BootstrapError::Resolve(ResolveError::Fetch(
                    "attempt 1".to_string()
                )))
            ),
            Ok(_) => panic!("the bootstrap failed"),
        }
    }
    assert_eq!(bootstraps, 1);
}
