use std::cell::Cell;

use sandbox::auth::{KeyEntry, KeyLimit, KeyStore};
use sandbox::handlers::{list_all, list_with_limits, ListOutcome, ListWithLimitsQuery};
use sandbox::{DataSourceError, Datasource, FixedDatasource, TR};

fn repeat_store(n: usize) -> FixedDatasource {
    let mut rows = Vec::new();
    for _ in 0..n {
        rows.push(TR { id: -1, col1: "repeat".to_string() });
    }
    FixedDatasource { rows, fail: false }
}

fn works_key_store() -> KeyStore {
    KeyStore {
        entries: vec![KeyEntry { key: "works".to_string(), limit: KeyLimit::Limit(10) }],
        fail: false,
    }
}

fn query(key: &str) -> ListWithLimitsQuery {
    ListWithLimitsQuery { key: key.to_string() }
}

fn rows_of(outcome: ListOutcome) -> Vec<TR> {
    match outcome {
        ListOutcome::Rows(rows) => rows,
        other => panic!("expected a success outcome, got {:?}", other),
    }
}

/// A stand-in store that records how often its rows were fetched.
struct CountingDatasource {
    store: FixedDatasource,
    fetches: Cell<usize>,
}

impl Datasource for CountingDatasource {
    fn select_all_test(&self) -> Result<Vec<TR>, DataSourceError> {
        self.fetches.set(self.fetches.get() + 1);
        self.store.select_all_test()
    }

    fn select_last_test(&self) -> Result<TR, DataSourceError> {
        self.fetches.set(self.fetches.get() + 1);
        self.store.select_last_test()
    }
}

#[test]
fn test_mock_list_request() {
    let expected = vec![TR { id: 6, col1: "wyoming".to_string() }];
    let store = FixedDatasource {
        rows: vec![TR { id: 6, col1: "wyoming".to_string() }],
        fail: false,
    };
    let results = list_all(&store).unwrap();
    assert_eq!(results, expected);
}

#[test]
fn test_mock_list_generic() {
    let expected = vec![TR { id: 6, col1: "wyoming".to_string() }];
    let store = CountingDatasource {
        store: FixedDatasource {
            rows: vec![TR { id: 6, col1: "wyoming".to_string() }],
            fail: false,
        },
        fetches: Cell::new(0),
    };
    let results = list_all(&store).unwrap();
    assert_eq!(results, expected);
    assert_eq!(store.fetches.get(), 1);
}

#[test]
fn test_mock_list_extractor() {
    let expected = vec![TR { id: 6, col1: "wyoming".to_string() }];
    let store = FixedDatasource {
        rows: vec![TR { id: 6, col1: "wyoming".to_string() }],
        fail: false,
    };
    let results = rows_of(list_with_limits(&store, &works_key_store(), &query("unlimit")));
    assert_eq!(results, expected);
}

#[test]
fn test_mock_list_limited() {
    let store = repeat_store(50);
    let auth = works_key_store();

    let denied = list_with_limits(&store, &auth, &query("noworks"));
    assert_eq!(denied, ListOutcome::Unauthorized);

    let limited = rows_of(list_with_limits(&store, &auth, &query("works")));
    assert_eq!(limited.len(), 10);

    let unlimited = rows_of(list_with_limits(&store, &auth, &query("unlimit")));
    assert_eq!(unlimited.len(), 50);
}

#[test]
fn unknown_key_never_fetches_rows() {
    let store = CountingDatasource { store: repeat_store(3), fetches: Cell::new(0) };
    let outcome = list_with_limits(&store, &works_key_store(), &query("noworks"));
    assert_eq!(outcome, ListOutcome::Unauthorized);
    assert_eq!(store.fetches.get(), 0);
}

#[test]
fn auth_failure_never_fetches_rows() {
    let store = CountingDatasource { store: repeat_store(3), fetches: Cell::new(0) };
    let auth = KeyStore { entries: Vec::new(), fail: true };
    let outcome = list_with_limits(&store, &auth, &query("works"));
    assert_eq!(outcome, ListOutcome::InternalError);
    assert_eq!(store.fetches.get(), 0);
}

#[test]
fn fetch_failure_after_auth_is_internal_error() {
    let store = FixedDatasource { rows: Vec::new(), fail: true };
    let outcome = list_with_limits(&store, &works_key_store(), &query("works"));
    assert_eq!(outcome, ListOutcome::InternalError);
    assert!(!matches!(outcome, ListOutcome::Rows(_)));
}

#[test]
fn limit_truncates_positionally() {
    let mut rows = Vec::new();
    for i in 0..5 {
        rows.push(TR { id: i, col1: format!("row{}", i) });
    }
    let store = FixedDatasource { rows, fail: false };
    let auth = KeyStore {
        entries: vec![KeyEntry { key: "three".to_string(), limit: KeyLimit::Limit(3) }],
        fail: false,
    };
    let shaped = rows_of(list_with_limits(&store, &auth, &query("three")));
    assert_eq!(shaped.len(), 3);
    assert_eq!(shaped[0].col1, "row0");
    assert_eq!(shaped[1].col1, "row1");
    assert_eq!(shaped[2].col1, "row2");
}

#[test]
fn limit_at_or_above_size_keeps_all_rows() {
    let store = repeat_store(4);
    let auth = KeyStore {
        entries: vec![
            KeyEntry { key: "four".to_string(), limit: KeyLimit::Limit(4) },
            KeyEntry { key: "nine".to_string(), limit: KeyLimit::Limit(9) },
        ],
        fail: false,
    };
    assert_eq!(rows_of(list_with_limits(&store, &auth, &query("four"))).len(), 4);
    assert_eq!(rows_of(list_with_limits(&store, &auth, &query("nine"))).len(), 4);
}

#[test]
fn limit_zero_returns_no_rows() {
    let store = repeat_store(4);
    let auth = KeyStore {
        entries: vec![KeyEntry { key: "none".to_string(), limit: KeyLimit::Limit(0) }],
        fail: false,
    };
    assert_eq!(rows_of(list_with_limits(&store, &auth, &query("none"))).len(), 0);
}
