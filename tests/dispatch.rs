use qdrant_sink::dispatch::{Dispatcher, SessionState, SinkFailure, Step, UpsertOutcome};
use qdrant_sink::json::{Json, Num};
use qdrant_sink::point::{ConversionError, PointId};

fn record() -> Json {
    Json::Object(vec![
        ("collection_name".to_string(), Json::Str("docs".to_string())),
        ("id".to_string(), Json::Number(Num::Unsigned(7))),
        (
            "vectors".to_string(),
            Json::Array(vec![
                Json::Number(Num::Real(0.1f64.to_bits())),
                Json::Number(Num::Real(0.2f64.to_bits())),
                Json::Number(Num::Real(0.3f64.to_bits())),
            ]),
        ),
        (
            "payload".to_string(),
            Json::Object(vec![("title".to_string(), Json::Str("x".to_string()))]),
        ),
    ])
}

#[test]
fn acknowledged_upsert_continues_session() {
    let mut d = Dispatcher::new();
    assert_eq!(d.state(), SessionState::Ready);
    match d.on_record(Ok(record())) {
        Step::Upsert { collection, point } => {
            assert_eq!(collection, "docs");
            assert!(matches!(point.id, PointId::Num(7)));
            assert_eq!(point.vectors.len(), 1);
            assert_eq!(point.payload.len(), 1);
        }
        other => panic!("expected an upsert, got {:?}", other),
    }
    assert_eq!(d.state(), SessionState::Awaiting);
    assert!(matches!(d.on_upsert(UpsertOutcome::Acknowledged), Step::Continue));
    assert_eq!(d.state(), SessionState::Ready);
    assert!(matches!(d.on_record(Ok(record())), Step::Upsert { .. }));
}

#[test]
fn missing_status_fails_session() {
    let mut d = Dispatcher::new();
    assert!(matches!(d.on_record(Ok(record())), Step::Upsert { .. }));
    match d.on_upsert(UpsertOutcome::NoStatus) {
        Step::Halt(SinkFailure::Remote(m)) => assert_eq!(m, "Failed to upsert point"),
        other => panic!("expected a halt, got {:?}", other),
    }
    assert_eq!(d.state(), SessionState::Failed);
    assert!(matches!(d.on_record(Ok(record())), Step::Stopped));
    assert_eq!(d.state(), SessionState::Failed);
}

#[test]
fn transport_error_fails_session() {
    let mut d = Dispatcher::new();
    assert!(matches!(d.on_record(Ok(record())), Step::Upsert { .. }));
    match d.on_upsert(UpsertOutcome::TransportFailed("connection reset".to_string())) {
        Step::Halt(SinkFailure::Remote(m)) => assert_eq!(m, "connection reset"),
        other => panic!("expected a halt, got {:?}", other),
    }
    assert_eq!(d.state(), SessionState::Failed);
}

#[test]
fn decode_error_fails_session() {
    let mut d = Dispatcher::new();
    match d.on_record(Err("expected value at line 1".to_string())) {
        Step::Halt(SinkFailure::Decode(m)) => assert_eq!(m, "expected value at line 1"),
        other => panic!("expected a halt, got {:?}", other),
    }
    assert_eq!(d.state(), SessionState::Failed);
    assert!(matches!(d.on_record(Ok(record())), Step::Stopped));
}

#[test]
fn invalid_record_fails_session() {
    let mut d = Dispatcher::new();
    match d.on_record(Ok(Json::Null)) {
        Step::Halt(SinkFailure::Validation(ConversionError::InvalidCollectionName)) => {}
        other => panic!("expected a validation halt, got {:?}", other),
    }
    assert_eq!(d.state(), SessionState::Failed);
}
