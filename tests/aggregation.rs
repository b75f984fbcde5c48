use rounal::error::RounalError;
use rounal::journal::{gather_logs, parse_log, FetchResult, JournalLog};

fn entry(p: u8, msg: &str) -> JournalLog {
    parse_log(&format!("d t z host svc: {}", msg), &p).unwrap()
}

fn all_ok(order: &[u8]) -> Vec<FetchResult> {
    order
        .iter()
        .map(|&p| (p, Ok(vec![entry(p, "first"), entry(p, "second")])))
        .collect()
}

#[test]
fn seven_successes_give_seven_keys() {
    let store = gather_logs(all_ok(&[1, 2, 3, 4, 5, 6, 7])).unwrap();
    assert_eq!(store.len(), 7);
    for p in 1..=7u8 {
        let v = &store[&p];
        assert_eq!(v.len(), 2);
        assert_eq!(v[0].log_message, "first");
        assert_eq!(v[1].log_message, "second");
        assert_eq!(v[0].priority, p);
    }
}

#[test]
fn completion_order_does_not_matter() {
    let store = gather_logs(all_ok(&[7, 3, 1, 6, 2, 5, 4])).unwrap();
    assert_eq!(store.len(), 7);
    assert_eq!(store[&3][0].priority, 3);
}

#[test]
fn empty_results_still_get_a_key() {
    let mut rs = all_ok(&[1, 2, 3, 4, 5, 6]);
    rs.push((7, Ok(vec![])));
    let store = gather_logs(rs).unwrap();
    assert_eq!(store.len(), 7);
    assert!(store[&7].is_empty());
}

#[test]
fn failure_at_severity_five_gives_no_store() {
    let mut rs = all_ok(&[1, 2, 3, 4]);
    rs.push((5, Err(RounalError::JournalCtlError(5, "no journal".to_string()))));
    rs.extend(all_ok(&[6, 7]));
    match gather_logs(rs) {
        Err(RounalError::JournalCtlError(p, msg)) => {
            assert_eq!(p, 5);
            assert_eq!(msg, "no journal");
        }
        other => panic!("unexpected {:?}", other.map(|m| m.len())),
    }
}

#[test]
fn first_failure_in_arrival_order_is_reported() {
    let rs: Vec<FetchResult> = vec![
        (2, Ok(vec![])),
        (6, Err(RounalError::JournalCtlError(6, "six".to_string()))),
        (3, Err(RounalError::JournalCtlError(3, "three".to_string()))),
    ];
    assert_eq!(
        gather_logs(rs).unwrap_err(),
        RounalError::JournalCtlError(6, "six".to_string())
    );
}

#[test]
fn missing_severity_is_incomplete() {
    let rs = all_ok(&[1, 2, 4, 5, 6, 7]);
    assert_eq!(gather_logs(rs).unwrap_err(), RounalError::AggregationIncomplete(3));
    assert_eq!(gather_logs(vec![]).unwrap_err(), RounalError::AggregationIncomplete(1));
    let dup = all_ok(&[1, 1, 2, 3, 4, 5, 6]);
    assert_eq!(gather_logs(dup).unwrap_err(), RounalError::AggregationIncomplete(7));
}
