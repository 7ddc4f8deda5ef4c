use rusqlite::Connection;
use sqlite_bridge::bind::{bind_named, resolve_parameters};
use sqlite_bridge::error::{BindFailure, BridgeError};
use sqlite_bridge::types::NamedParameters;
use sqlite_bridge::value::{DynamicValue, NativeValue};

fn parameters(entries: Vec<(&str, DynamicValue)>) -> NamedParameters {
    let mut map = NamedParameters::new();
    for (name, value) in entries {
        map.insert(name.to_string(), value);
    }
    map
}

fn missing(name: &str) -> BridgeError {
    BridgeError::BindFailed(BindFailure::MissingParameter(name.to_string()))
}

#[test]
fn resolve_gives_each_placeholder_its_value() {
    let placeholders = vec![Some(":b".to_string()), Some(":a".to_string())];
    let params = parameters(vec![
        (":a", DynamicValue::Int(1)),
        (":b", DynamicValue::Text("two".to_string())),
    ]);
    assert_eq!(
        resolve_parameters(&placeholders, &params),
        Ok(vec![Some(NativeValue::Text("two".to_string())), Some(NativeValue::Integer(1))])
    );
}

#[test]
fn resolve_ignores_entries_that_no_placeholder_names() {
    let placeholders = vec![Some(":a".to_string())];
    let params = parameters(vec![
        (":unused", DynamicValue::Null),
        (":a", DynamicValue::Bool(true)),
    ]);
    assert_eq!(resolve_parameters(&placeholders, &params), Ok(vec![Some(NativeValue::Integer(1))]));
}

#[test]
fn resolve_leaves_unnamed_placeholders_unbound() {
    let placeholders = vec![None, Some(":a".to_string()), None];
    let params = parameters(vec![(":a", DynamicValue::Int(7))]);
    assert_eq!(
        resolve_parameters(&placeholders, &params),
        Ok(vec![None, Some(NativeValue::Integer(7)), None])
    );
}

#[test]
fn resolve_of_nothing_is_nothing() {
    let params = parameters(vec![(":a", DynamicValue::Int(7))]);
    assert_eq!(resolve_parameters(&vec![], &params), Ok(vec![]));
}

#[test]
fn resolve_reports_the_first_missing_placeholder() {
    let placeholders =
        vec![Some(":a".to_string()), Some(":x".to_string()), Some(":y".to_string())];
    let params = parameters(vec![(":a", DynamicValue::Int(1))]);
    assert_eq!(resolve_parameters(&placeholders, &params), Err(missing(":x")));
}

#[test]
fn resolve_with_no_parameters_misses_the_first_name() {
    let placeholders = vec![None, Some(":only".to_string())];
    assert_eq!(resolve_parameters(&placeholders, &NamedParameters::new()), Err(missing(":only")));
}

#[test]
fn bind_named_binds_what_the_statement_names() {
    let connection = Connection::open_in_memory().unwrap();
    let mut statement = connection.prepare("SELECT :a + :b").unwrap();
    let params = parameters(vec![
        (":a", DynamicValue::Int(40)),
        (":b", DynamicValue::Int(2)),
        (":c", DynamicValue::Int(1000)),
    ]);
    assert_eq!(bind_named(&mut statement, &params), Ok(()));
    let mut rows = statement.raw_query();
    let row = rows.next().unwrap().unwrap();
    assert_eq!(row.get::<usize, i64>(0).unwrap(), 42);
}

#[test]
fn bind_named_fails_on_a_missing_parameter() {
    let connection = Connection::open_in_memory().unwrap();
    let mut statement = connection.prepare("SELECT :a + :b").unwrap();
    let params = parameters(vec![(":a", DynamicValue::Int(40))]);
    assert_eq!(bind_named(&mut statement, &params), Err(missing(":b")));
}

#[test]
fn bind_named_binds_nothing_when_a_parameter_is_missing() {
    let connection = Connection::open_in_memory().unwrap();
    let mut statement = connection.prepare("SELECT :a, :b").unwrap();
    let params = parameters(vec![(":a", DynamicValue::Int(40))]);
    assert_eq!(bind_named(&mut statement, &params), Err(missing(":b")));
    let mut rows = statement.raw_query();
    let row = rows.next().unwrap().unwrap();
    assert_eq!(row.get::<usize, Option<i64>>(0).unwrap(), None);
}

#[test]
fn bind_named_accepts_other_prefixes() {
    let connection = Connection::open_in_memory().unwrap();
    let mut statement = connection.prepare("SELECT @a || $b").unwrap();
    let params = parameters(vec![
        ("@a", DynamicValue::Text("x".to_string())),
        ("$b", DynamicValue::Text("y".to_string())),
    ]);
    assert_eq!(bind_named(&mut statement, &params), Ok(()));
    let mut rows = statement.raw_query();
    let row = rows.next().unwrap().unwrap();
    assert_eq!(row.get::<usize, String>(0).unwrap(), "xy");
}

#[test]
fn bind_named_reports_a_value_that_the_engine_refuses() {
    let connection = Connection::open_in_memory().unwrap();
    let mut statement = connection.prepare("SELECT :a").unwrap();
    let mut rows = statement.raw_query();
    assert!(rows.next().unwrap().is_some());
    // The statement stays in the middle of a run: the engine takes no value now.
    std::mem::forget(rows);
    let params = parameters(vec![(":a", DynamicValue::Int(1))]);
    match bind_named(&mut statement, &params) {
        Err(BridgeError::BindFailed(BindFailure::Engine(text))) => assert!(!text.is_empty()),
        other => panic!("unexpected result {:?}", other),
    }
}
