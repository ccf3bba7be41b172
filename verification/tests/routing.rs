use pg_event_trigger::trigger::{
    settle, split_command, Dispatch, DispatchError, EngineReply, PgEventTrigger,
    PgEventTriggerConfig,
};
use pg_event_trigger::value::{Cell, DbValue, Row};

fn fox() -> Row {
    Row {
        columns: vec![
            Cell::new("title", DbValue::Str("Fox".to_string())),
            Cell::new("description", DbValue::Str("foxy".to_string())),
        ],
    }
}

fn books_router() -> PgEventTrigger {
    PgEventTrigger::new(&vec![PgEventTriggerConfig::new("titler", "books")])
}

#[test]
fn config_holds_component_and_table() {
    let config = PgEventTriggerConfig::new("titler", "books");
    assert_eq!(config.component, "titler");
    assert_eq!(config.table, "books");
}

#[test]
fn routed_table_invokes_its_component_on_the_row() {
    let dispatch = books_router().handle_pg_event("books", fox());
    assert_eq!(dispatch, Dispatch::Invoke { component: "titler".to_string(), row: fox() });
}

#[test]
fn unmapped_table_is_unhandled() {
    assert_eq!(books_router().handle_pg_event("unmapped", fox()), Dispatch::Unhandled);
}

#[test]
fn empty_router_handles_nothing() {
    let trigger = PgEventTrigger::new(&vec![]);
    assert_eq!(trigger.handle_pg_event("books", fox()), Dispatch::Unhandled);
    assert_eq!(trigger.component_for("books"), None);
    assert_eq!(trigger.component_for(""), None);
}

#[test]
fn table_names_are_matched_exactly() {
    let trigger = books_router();
    assert_eq!(trigger.component_for("books"), Some(&"titler".to_string()));
    assert_eq!(trigger.component_for("Books"), None);
    assert_eq!(trigger.component_for("books "), None);
    assert_eq!(trigger.component_for("book"), None);
    assert_eq!(trigger.component_for("titler"), None);
}

#[test]
fn many_tables_map_to_their_components() {
    let trigger = PgEventTrigger::new(&vec![
        PgEventTriggerConfig::new("test", "test"),
        PgEventTriggerConfig::new("test2", "test2"),
        PgEventTriggerConfig::new("test", "archive"),
    ]);
    assert_eq!(trigger.component_for("test"), Some(&"test".to_string()));
    assert_eq!(trigger.component_for("test2"), Some(&"test2".to_string()));
    assert_eq!(trigger.component_for("archive"), Some(&"test".to_string()));
    assert_eq!(trigger.component_for("test3"), None);
}

#[test]
fn later_claim_of_a_table_wins() {
    let trigger = PgEventTrigger::new(&vec![
        PgEventTriggerConfig::new("first", "books"),
        PgEventTriggerConfig::new("other", "films"),
        PgEventTriggerConfig::new("second", "books"),
    ]);
    assert_eq!(trigger.component_for("books"), Some(&"second".to_string()));
    assert_eq!(trigger.component_for("films"), Some(&"other".to_string()));
}

#[test]
fn settle_hands_the_result_through_unchanged() {
    assert_eq!(settle(EngineReply::Returned(Some(fox()))), Ok(Some(fox())));
    assert_eq!(settle(EngineReply::Returned(None)), Ok(None));
    let empty = Row { columns: vec![] };
    assert_eq!(settle(EngineReply::Returned(Some(empty))), Ok(Some(Row { columns: vec![] })));
}

#[test]
fn settle_turns_engine_failure_into_dispatch_error() {
    assert_eq!(
        settle(EngineReply::Failed("no such component".to_string())),
        Err(DispatchError::Engine("no such component".to_string()))
    );
}

#[test]
fn settle_turns_timeout_into_dispatch_timeout() {
    assert_eq!(settle(EngineReply::TimedOut), Err(DispatchError::Timeout));
}

#[test]
fn command_splits_at_first_colon() {
    assert_eq!(split_command("books:Fox"), Some(("books".to_string(), "Fox".to_string())));
    assert_eq!(split_command("books:a:b"), Some(("books".to_string(), "a:b".to_string())));
    assert_eq!(split_command("books:Fox\n"), Some(("books".to_string(), "Fox\n".to_string())));
}

#[test]
fn command_may_have_empty_parts() {
    assert_eq!(split_command(":"), Some((String::new(), String::new())));
    assert_eq!(split_command(":x"), Some((String::new(), "x".to_string())));
    assert_eq!(split_command("x:"), Some(("x".to_string(), String::new())));
}

#[test]
fn line_without_colon_is_no_command() {
    assert_eq!(split_command(""), None);
    assert_eq!(split_command("books"), None);
    assert_eq!(split_command("books Fox\n"), None);
}

#[test]
fn command_keeps_characters_beyond_ascii() {
    assert_eq!(
        split_command("b\u{fc}cher:Fuchs \u{1f98a}: gr\u{fc}\u{df}e"),
        Some(("b\u{fc}cher".to_string(), "Fuchs \u{1f98a}: gr\u{fc}\u{df}e".to_string()))
    );
}
