use sqlite_bridge::error::{engine_text, BindFailure, BridgeError};

#[test]
fn engine_text_is_the_text_of_the_failure() {
    assert_eq!(engine_text(&rusqlite::Error::QueryReturnedNoRows), "Query returned no rows");
    assert_eq!(
        engine_text(&rusqlite::Error::InvalidColumnIndex(3)),
        rusqlite::Error::InvalidColumnIndex(3).to_string()
    );
}

#[test]
fn failures_compare_by_kind_and_text() {
    assert_eq!(BridgeError::ConnectionNotFound, BridgeError::ConnectionNotFound);
    assert_ne!(
        BridgeError::PrepareFailed("x".to_string()),
        BridgeError::StepFailed("x".to_string())
    );
    assert_ne!(
        BridgeError::BindFailed(BindFailure::MissingParameter(":a".to_string())),
        BridgeError::BindFailed(BindFailure::Engine(":a".to_string()))
    );
    assert_ne!(
        BridgeError::MigrationFailed {
            version: 1,
            description: "d".to_string(),
            message: "m".to_string()
        },
        BridgeError::MigrationFailed {
            version: 2,
            description: "d".to_string(),
            message: "m".to_string()
        }
    );
}
