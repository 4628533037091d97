use cdrs_tokio::connection::{usable_connection, Attempt, ConnectionState, Establishment, Step};
use cdrs_tokio::reconnection::ReconnectionPolicy;

#[test]
fn healthy_cached_connection_is_reused() {
    let slot = Some(ConnectionState { id: 5, broken: false });
    assert_eq!(usable_connection(&slot), Some(5));
    assert_eq!(usable_connection(&None), None);
}

#[test]
fn broken_cached_connection_is_not_reused() {
    let slot = Some(ConnectionState { id: 5, broken: true });
    assert_eq!(usable_connection(&slot), None);
}

#[test]
fn three_retries_then_final_error() {
    let policy = ReconnectionPolicy { base_delay_ms: 100, max_delay_ms: 300, max_attempts: Some(3) };
    let mut cycle = Establishment::new(&policy);
    let mut delays = Vec::new();
    let mut last = None;
    for attempt in 1..=10u32 {
        match cycle.after_attempt(Attempt::<u32>::Failed(attempt)) {
            Step::Retry(d) => delays.push(d),
            Step::GiveUp(e) => {
                last = Some(e);
                break;
            }
            Step::Install(_) => panic!("no attempt succeeded"),
        }
    }
    assert_eq!(delays, vec![100, 200, 300]);
    assert_eq!(last, Some(4));
}

#[test]
fn success_is_installed() {
    let policy = ReconnectionPolicy { base_delay_ms: 1, max_delay_ms: 1, max_attempts: None };
    let mut cycle = Establishment::new(&policy);
    assert!(matches!(cycle.after_attempt(Attempt::<()>::Failed(())), Step::Retry(1)));
    assert!(matches!(cycle.after_attempt(Attempt::<()>::Connected(9)), Step::Install(9)));
}

#[test]
fn schedules_are_independent() {
    let policy = ReconnectionPolicy { base_delay_ms: 10, max_delay_ms: 1000, max_attempts: Some(1) };
    let mut a = policy.new_node_schedule();
    assert_eq!(a.next_delay(), Some(10));
    assert_eq!(a.next_delay(), None);
    let mut b = policy.new_node_schedule();
    assert_eq!(b.next_delay(), Some(10));
}

#[test]
fn delays_double_up_to_the_cap() {
    let policy = ReconnectionPolicy { base_delay_ms: 3, max_delay_ms: 20, max_attempts: None };
    let mut s = policy.new_node_schedule();
    let got: Vec<Option<u64>> = (0..5).map(|_| s.next_delay()).collect();
    assert_eq!(got, vec![Some(3), Some(6), Some(12), Some(20), Some(20)]);
    let capped = ReconnectionPolicy { base_delay_ms: 50, max_delay_ms: 20, max_attempts: Some(0) };
    let mut t = capped.new_node_schedule();
    assert_eq!(t.next_delay(), None);
    assert_eq!(capped.new_node_schedule().next_ms, 20);
}

#[test]
fn many_callers_one_establishment() {
    // callers take exclusive access one at a time; the first finds the cache
    // empty and establishes, the rest find that connection healthy
    let mut slot: Option<ConnectionState> = None;
    let mut establishments = 0;
    let mut handles = Vec::new();
    for _ in 0..8 {
        match usable_connection(&slot) {
            Some(id) => handles.push(id),
            None => {
                establishments += 1;
                slot = Some(ConnectionState { id: 42, broken: false });
                handles.push(42);
            }
        }
    }
    assert_eq!(establishments, 1);
    assert!(handles.iter().all(|h| *h == 42));
}
