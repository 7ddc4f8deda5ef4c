use sqlite_bridge::commands::select::execute_select;
use sqlite_bridge::error::{BindFailure, BridgeError};
use sqlite_bridge::registry::{
    connect, key_to_hand, open_call, with_key, OpenCall, Opener, Registry, Target,
};
use sqlite_bridge::types::{MigrationStep, NamedParameters};
use sqlite_bridge::value::DynamicValue;

fn none() -> NamedParameters {
    NamedParameters::new()
}

fn has_table(registry: &Registry, name: &str, table: &str) -> bool {
    let mut params = NamedParameters::new();
    params.insert(":name".to_string(), DynamicValue::Text(table.to_string()));
    let rows = registry
        .select(name, "SELECT name FROM sqlite_master WHERE type = 'table' AND name = :name", &params)
        .unwrap();
    rows.len() == 1
}

#[test]
fn new_registry_is_empty() {
    let registry = Registry::new();
    assert_eq!(registry.len(), 0);
    assert!(!registry.contains("a"));
}

#[test]
fn open_registers_the_name() {
    let mut registry = Registry::new();
    assert_eq!(registry.open_in_memory("a".to_string()), Ok(()));
    assert!(registry.contains("a"));
    assert_eq!(registry.len(), 1);
}

#[test]
fn opening_a_name_twice_keeps_the_first_connection() {
    let mut registry = Registry::new();
    registry.open_in_memory("a".to_string()).unwrap();
    registry.batch("a", "CREATE TABLE t(x)").unwrap();
    let other = Opener {
        target: Target::Path("/no/such/directory/db.sqlite".to_string()),
        use_sqlcipher: true,
        cipher_key: Some("k".to_string()),
    };
    assert_eq!(registry.open("a".to_string(), &other), Ok(()));
    assert_eq!(registry.len(), 1);
    assert!(has_table(&registry, "a", "t"));
}

#[test]
fn opening_a_taken_name_does_not_call_the_opener() {
    let mut registry = Registry::new();
    registry.open_in_memory("/no/such/directory/db.sqlite".to_string()).unwrap();
    assert_eq!(registry.open_in_path("/no/such/directory/db.sqlite".to_string(), false, None), Ok(()));
    assert_eq!(registry.len(), 1);
}

#[test]
fn open_in_path_uses_the_path_as_the_name() {
    let mut registry = Registry::new();
    assert_eq!(registry.open_in_path(":memory:".to_string(), false, None), Ok(()));
    assert!(registry.contains(":memory:"));
    assert_eq!(registry.batch(":memory:", "CREATE TABLE t(x)"), Ok(()));
}

#[test]
fn open_in_path_hands_the_key_to_the_engine() {
    let mut registry = Registry::new();
    let result = registry.open_in_path(":memory:".to_string(), true, Some("secret".to_string()));
    assert_eq!(
        result,
        Err(BridgeError::OpeningConnectionFailed("Invalid pragma \"key\"".to_string()))
    );
    assert!(!registry.contains(":memory:"));
}

#[test]
fn open_in_path_without_a_key_sets_none() {
    let mut registry = Registry::new();
    assert_eq!(registry.open_in_path(":memory:".to_string(), true, None), Ok(()));
    assert_eq!(registry.batch(":memory:", "CREATE TABLE t(x)"), Ok(()));
}

#[test]
fn a_key_without_the_cipher_flag_is_not_used() {
    let mut registry = Registry::new();
    assert_eq!(
        registry.open_in_path(":memory:".to_string(), false, Some("secret".to_string())),
        Ok(())
    );
}

#[test]
fn open_reports_a_path_that_cannot_be_opened() {
    let mut registry = Registry::new();
    let result = registry.open_in_path("/no/such/directory/db.sqlite".to_string(), false, None);
    assert!(matches!(result, Err(BridgeError::OpeningConnectionFailed(_))));
    assert!(!registry.contains("/no/such/directory/db.sqlite"));
    assert_eq!(registry.len(), 0);
    let result = registry.open_in_path("/no/such/directory/db.sqlite".to_string(), true, None);
    assert!(matches!(result, Err(BridgeError::OpeningConnectionFailed(_))));
}

#[test]
fn connect_opens_what_the_opener_says() {
    let opener = Opener { target: Target::Memory, use_sqlcipher: false, cipher_key: None };
    let connection = connect(&opener).unwrap();
    let rows = execute_select(&connection, "SELECT 1 AS one", &none()).unwrap();
    assert_eq!(rows[0].get("one"), Some(&DynamicValue::Int(1)));
}

#[test]
fn insert_connection_keeps_the_connection_that_holds_the_name() {
    let mut registry = Registry::new();
    let first = rusqlite::Connection::open_in_memory().unwrap();
    first.execute_batch("CREATE TABLE first(x)").unwrap();
    let second = rusqlite::Connection::open_in_memory().unwrap();
    second.execute_batch("CREATE TABLE second(x)").unwrap();
    assert_eq!(registry.insert_connection(first, "a".to_string()), Ok(()));
    assert_eq!(registry.insert_connection(second, "a".to_string()), Ok(()));
    assert_eq!(registry.len(), 1);
    assert!(has_table(&registry, "a", "first"));
    assert!(!has_table(&registry, "a", "second"));
}

#[test]
fn close_of_an_absent_name_is_not_found() {
    let mut registry = Registry::new();
    assert_eq!(registry.close("a"), Err(BridgeError::ConnectionNotFound));
    registry.open_in_memory("b".to_string()).unwrap();
    assert_eq!(registry.close("a"), Err(BridgeError::ConnectionNotFound));
    assert!(registry.contains("b"));
}

#[test]
fn close_frees_the_name() {
    let mut registry = Registry::new();
    registry.open_in_memory("a".to_string()).unwrap();
    registry.open_in_memory("b".to_string()).unwrap();
    assert_eq!(registry.close("a"), Ok(()));
    assert!(!registry.contains("a"));
    assert!(registry.contains("b"));
    assert_eq!(
        registry.select("a", "SELECT 1", &none()).err(),
        Some(BridgeError::ConnectionNotFound));
    assert_eq!(registry.close("a"), Err(BridgeError::ConnectionNotFound));
}

#[test]
fn a_closed_name_can_be_opened_again() {
    let mut registry = Registry::new();
    registry.open_in_memory("a".to_string()).unwrap();
    registry.batch("a", "CREATE TABLE t(x)").unwrap();
    registry.close("a").unwrap();
    registry.open_in_memory("a".to_string()).unwrap();
    assert!(!has_table(&registry, "a", "t"));
}

#[test]
fn every_operation_on_an_absent_name_is_not_found() {
    let registry = Registry::new();
    assert_eq!(
        registry.select("a", "SELECT 1", &none()).err(),
        Some(BridgeError::ConnectionNotFound));
    assert_eq!(registry.update("a", "SELECT 1", &none()), Err(BridgeError::ConnectionNotFound));
    assert_eq!(registry.batch("a", "SELECT 1"), Err(BridgeError::ConnectionNotFound));
    assert_eq!(registry.migration("a", &vec![]), Err(BridgeError::ConnectionNotFound));
    assert_eq!(
        registry.with_connection("a", |_| Ok(1)),
        Err(BridgeError::ConnectionNotFound)
    );
}

#[test]
fn with_connection_runs_the_operation() {
    let mut registry = Registry::new();
    registry.open_in_memory("a".to_string()).unwrap();
    let rows = registry
        .with_connection("a", |connection| execute_select(connection, "SELECT 2 AS two", &none()))
        .unwrap();
    assert_eq!(rows[0].get("two"), Some(&DynamicValue::Int(2)));
    assert_eq!(
        registry.with_connection("a", |_| Err::<(), BridgeError>(BridgeError::ConnectionNotFound)),
        Err(BridgeError::ConnectionNotFound)
    );
}

#[test]
fn operations_reach_the_named_connection() {
    let mut registry = Registry::new();
    registry.open_in_memory("a".to_string()).unwrap();
    registry.open_in_memory("b".to_string()).unwrap();
    registry.batch("a", "CREATE TABLE t(x)").unwrap();
    let mut params = NamedParameters::new();
    params.insert(":x".to_string(), DynamicValue::Int(5));
    assert_eq!(registry.update("a", "INSERT INTO t VALUES(:x)", &params), Ok(()));
    let rows = registry.select("a", "SELECT x FROM t", &none()).unwrap();
    assert_eq!(rows.len(), 1);
    assert_eq!(rows[0].get("x"), Some(&DynamicValue::Int(5)));
    assert!(matches!(
        registry.select("b", "SELECT x FROM t", &none()),
        Err(BridgeError::PrepareFailed(_))
    ));
}

#[test]
fn serialized_selects_on_two_names_both_complete() {
    let mut registry = Registry::new();
    registry.open_in_memory("a".to_string()).unwrap();
    registry.open_in_memory("b".to_string()).unwrap();
    registry.batch("a", "CREATE TABLE t(x); INSERT INTO t VALUES(1);").unwrap();
    registry.batch("b", "CREATE TABLE t(x); INSERT INTO t VALUES(2);").unwrap();
    let shared = std::sync::Mutex::new(registry);
    for _ in 0..10 {
        let a = shared.lock().unwrap().select("a", "SELECT x FROM t", &none()).unwrap();
        let b = shared.lock().unwrap().select("b", "SELECT x FROM t", &none()).unwrap();
        assert_eq!(a[0].get("x"), Some(&DynamicValue::Int(1)));
        assert_eq!(b[0].get("x"), Some(&DynamicValue::Int(2)));
    }
}

#[test]
fn select_through_the_registry_reports_a_missing_parameter() {
    let mut registry = Registry::new();
    registry.open_in_memory("a".to_string()).unwrap();
    assert_eq!(
        registry.select("a", "SELECT :p", &none()).err(),
        Some(BridgeError::BindFailed(BindFailure::MissingParameter(":p".to_string())))
    );
}

#[test]
fn migration_through_the_registry_reports_the_failing_step() {
    let mut registry = Registry::new();
    registry.open_in_memory("a".to_string()).unwrap();
    let migrations = vec![
        MigrationStep { version: 1, description: "ok".to_string(), sql: vec!["CREATE TABLE t(x)".to_string()] },
        MigrationStep { version: 2, description: "bad".to_string(), sql: vec!["INVALID SQL".to_string()] },
        MigrationStep { version: 3, description: "never".to_string(), sql: vec!["CREATE TABLE u(y)".to_string()] },
    ];
    assert!(matches!(
        registry.migration("a", &migrations),
        Err(BridgeError::MigrationFailed { version: 2, .. })
    ));
    assert!(has_table(&registry, "a", "t"));
    assert!(!has_table(&registry, "a", "u"));
}

#[test]
fn close_reports_unfinished_work_and_frees_the_name() {
    let connection = rusqlite::Connection::open_in_memory().unwrap();
    let statement = connection.prepare("SELECT 1").unwrap();
    // The statement is never finalized, so the engine refuses to close.
    std::mem::forget(statement);
    let mut registry = Registry::new();
    registry.insert_connection(connection, "a".to_string()).unwrap();
    match registry.close("a") {
        Err(BridgeError::ClosingConnectionFailed(text)) => assert!(text.contains("unable to close")),
        other => panic!("unexpected result {:?}", other),
    }
    assert!(!registry.contains("a"));
    assert_eq!(registry.close("a"), Err(BridgeError::ConnectionNotFound));
}

#[test]
fn with_key_hands_the_connection_back_when_no_key_is_asked_for() {
    let connection = rusqlite::Connection::open_in_memory().unwrap();
    connection.execute_batch("CREATE TABLE t(x)").unwrap();
    let plain = Opener { target: Target::Memory, use_sqlcipher: false, cipher_key: Some("k".to_string()) };
    let connection = with_key(connection, &plain).unwrap();
    let keyless = Opener { target: Target::Memory, use_sqlcipher: true, cipher_key: None };
    let connection = with_key(connection, &keyless).unwrap();
    let rows = execute_select(&connection, "SELECT COUNT(*) AS n FROM t", &none()).unwrap();
    assert_eq!(rows[0].get("n"), Some(&DynamicValue::Int(0)));
}

#[test]
fn with_key_reports_a_key_that_the_engine_does_not_take() {
    let connection = rusqlite::Connection::open_in_memory().unwrap();
    let opener = Opener { target: Target::Memory, use_sqlcipher: true, cipher_key: Some("k".to_string()) };
    assert_eq!(
        with_key(connection, &opener).err(),
        Some(BridgeError::OpeningConnectionFailed("Invalid pragma \"key\"".to_string()))
    );
}

#[test]
fn the_count_follows_every_change() {
    let mut registry = Registry::new();
    assert_eq!(registry.len(), 0);
    registry.insert_connection(rusqlite::Connection::open_in_memory().unwrap(), "a".to_string()).unwrap();
    assert_eq!(registry.len(), 1);
    registry.insert_connection(rusqlite::Connection::open_in_memory().unwrap(), "a".to_string()).unwrap();
    assert_eq!(registry.len(), 1);
    registry.open_in_memory("b".to_string()).unwrap();
    assert_eq!(registry.len(), 2);
    assert!(registry.open_in_path("/no/such/directory/db.sqlite".to_string(), false, None).is_err());
    assert_eq!(registry.len(), 2);
    registry.close("a").unwrap();
    assert_eq!(registry.len(), 1);
    assert!(registry.close("a").is_err());
    assert_eq!(registry.len(), 1);
}

#[test]
fn empty_batch_on_an_open_name_succeeds() {
    let mut registry = Registry::new();
    registry.open_in_memory("a".to_string()).unwrap();
    assert_eq!(registry.batch("a", ""), Ok(()));
}

fn opener(target: Target, use_sqlcipher: bool, cipher_key: Option<&str>) -> Opener {
    Opener { target, use_sqlcipher, cipher_key: cipher_key.map(|key| key.to_string()) }
}

#[test]
fn open_call_follows_the_target_and_the_cipher_flag() {
    let path = || Target::Path("/data/app.db".to_string());
    assert_eq!(open_call(&opener(Target::Memory, false, None)), OpenCall::Memory);
    assert_eq!(open_call(&opener(Target::Memory, true, Some("k"))), OpenCall::Memory);
    assert_eq!(open_call(&opener(path(), false, None)), OpenCall::File("/data/app.db".to_string()));
    assert_eq!(
        open_call(&opener(path(), false, Some("k"))),
        OpenCall::File("/data/app.db".to_string())
    );
    assert_eq!(
        open_call(&opener(path(), true, None)),
        OpenCall::ReadWrite("/data/app.db".to_string())
    );
    assert_eq!(
        open_call(&opener(path(), true, Some("k"))),
        OpenCall::ReadWrite("/data/app.db".to_string())
    );
}

#[test]
fn key_to_hand_is_the_key_only_with_the_cipher_flag() {
    assert_eq!(key_to_hand(&opener(Target::Memory, true, Some("secret"))), Some("secret".to_string()));
    assert_eq!(key_to_hand(&opener(Target::Memory, true, Some(""))), Some(String::new()));
    assert_eq!(key_to_hand(&opener(Target::Memory, true, None)), None);
    assert_eq!(key_to_hand(&opener(Target::Memory, false, Some("secret"))), None);
    assert_eq!(key_to_hand(&opener(Target::Memory, false, None)), None);
}

#[test]
fn registry_select_named_reads_rows_under_the_names_given() {
    let mut registry = Registry::new();
    registry.open_in_memory("a".to_string()).unwrap();
    registry.batch("a", "CREATE TABLE t(x, y); INSERT INTO t VALUES(1, 'one');").unwrap();
    let names = vec!["number".to_string(), "word".to_string()];
    let rows = registry.select_named("a", "SELECT x, y FROM t", &names, &none()).unwrap();
    assert_eq!(rows.len(), 1);
    assert_eq!(rows[0].get("number"), Some(&DynamicValue::Int(1)));
    assert_eq!(rows[0].get("word"), Some(&DynamicValue::Text("one".to_string())));
    assert_eq!(rows[0].get("x"), None);
}

#[test]
fn registry_select_named_on_an_absent_name_is_not_found() {
    let registry = Registry::new();
    assert_eq!(
        registry.select_named("a", "SELECT 1", &vec!["one".to_string()], &none()).err(),
        Some(BridgeError::ConnectionNotFound)
    );
}

#[test]
fn registry_select_named_reports_a_missing_parameter() {
    let mut registry = Registry::new();
    registry.open_in_memory("a".to_string()).unwrap();
    assert_eq!(
        registry.select_named("a", "SELECT :p", &vec!["p".to_string()], &none()).err(),
        Some(BridgeError::BindFailed(BindFailure::MissingParameter(":p".to_string())))
    );
}
