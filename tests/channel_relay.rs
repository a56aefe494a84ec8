use xdp_hello::channel::{DiagnosticRecord, EventChannel};
use xdp_hello::relay::{offer_burst, relay_run};

fn rec(s: &str) -> DiagnosticRecord {
    DiagnosticRecord { message: s.to_string() }
}

fn messages(v: &[DiagnosticRecord]) -> Vec<String> {
    v.iter().map(|r| r.message.clone()).collect()
}

#[test]
fn full_channel_drops_new_records() {
    let mut c = EventChannel::new(2);
    assert!(c.push(rec("a")));
    assert!(c.push(rec("b")));
    assert!(!c.push(rec("c")));
    assert_eq!(c.len(), 2);
    assert_eq!(messages(&c.drain_all()), vec!["a", "b"]);
    assert_eq!(c.len(), 0);
}

#[test]
fn zero_capacity_channel_keeps_nothing() {
    let mut c = EventChannel::new(0);
    assert!(!c.push(rec("a")));
    assert_eq!(c.len(), 0);
    assert_eq!(c.capacity_of(), 0);
}

#[test]
fn drain_takes_oldest_first_up_to_max() {
    let mut c = EventChannel::new(5);
    for m in ["a", "b", "c"] {
        assert!(c.push(rec(m)));
    }
    assert_eq!(messages(&c.drain(2)), vec!["a", "b"]);
    assert_eq!(messages(&c.drain(7)), vec!["c"]);
    assert!(c.drain(3).is_empty());
}

#[test]
fn offering_a_burst_keeps_what_fits() {
    let mut c = EventChannel::new(3);
    let burst: Vec<DiagnosticRecord> = ["a", "b", "c", "d"].iter().map(|m| rec(m)).collect();
    assert_eq!(offer_burst(&mut c, &burst), 3);
    assert_eq!(messages(&c.drain_all()), vec!["a", "b", "c"]);
}

#[test]
fn relay_under_sustained_overload_is_bounded() {
    let mut c = EventChannel::new(2);
    let bursts: Vec<Vec<DiagnosticRecord>> = (0..3)
        .map(|t| (0..5).map(|k| rec(&format!("{t}-{k}"))).collect())
        .collect();
    let delivered = relay_run(&mut c, &bursts, 1);
    // capacity 2 + rate 1 * 3 ticks bounds it; one tick's record stays for the stop
    assert!(delivered.len() <= 2 + 3);
    assert_eq!(messages(&delivered), vec!["0-0", "0-1", "1-0", "2-0"]);
    assert_eq!(c.len(), 0);
}

#[test]
fn relay_stop_drains_what_was_buffered() {
    let mut c = EventChannel::new(4);
    assert!(c.push(rec("x")));
    assert!(c.push(rec("y")));
    let delivered = relay_run(&mut c, &vec![], 1);
    assert_eq!(messages(&delivered), vec!["x", "y"]);
}
