use arp_tarpit::tracker::ArpActivityTracker;
use arp_tarpit::AddressPair;
use arp_tarpit::Ipv4Address;

fn pair(target: [u8; 4], sender: [u8; 4]) -> AddressPair {
    AddressPair {
        target_ip: Ipv4Address::new(target[0], target[1], target[2], target[3]),
        sender_ip: Ipv4Address::new(sender[0], sender[1], sender[2], sender[3]),
    }
}

#[test]
fn threshold_crossed_within_window() {
    // threshold 2, timeout 5s: requests at t=0 and t=1 → the second crosses
    let mut t = ArpActivityTracker::new(2, 5);
    let p = pair([10, 0, 0, 5], [10, 0, 0, 1]);
    assert!(!t.record_request(p, 0));
    assert!(t.record_request(p, 1));
}

#[test]
fn threshold_not_crossed_across_windows() {
    // threshold 2, timeout 5s: requests at t=0 and t=6 → new window, count 1
    let mut t = ArpActivityTracker::new(2, 5);
    let p = pair([10, 0, 0, 5], [10, 0, 0, 1]);
    assert!(!t.record_request(p, 0));
    assert!(!t.record_request(p, 6));
}

#[test]
fn threshold_reached_only_on_the_crossing_call() {
    let mut t = ArpActivityTracker::new(3, 100);
    let p = pair([10, 0, 0, 7], [10, 0, 0, 1]);
    assert!(!t.record_request(p, 10));
    assert!(!t.record_request(p, 11));
    assert!(t.record_request(p, 12));
}

#[test]
fn crossing_consumes_the_record() {
    let mut t = ArpActivityTracker::new(2, 100);
    let p = pair([10, 0, 0, 5], [10, 0, 0, 1]);
    assert!(!t.record_request(p, 0));
    assert!(t.record_request(p, 1));
    assert!(t.pending(p).is_none());
    // the pair starts over afterwards
    assert!(!t.record_request(p, 2));
    assert!(t.record_request(p, 3));
}

#[test]
fn window_reset_restarts_the_count() {
    let mut t = ArpActivityTracker::new(5, 5);
    let p = pair([10, 0, 0, 5], [10, 0, 0, 1]);
    assert!(!t.record_request(p, 0));
    assert!(!t.record_request(p, 1));
    let rec = t.pending(p).unwrap();
    assert_eq!(rec.count, 2);
    assert_eq!(rec.window_start, 0);
    // more than the timeout after the window started: count is 1, not 3
    assert!(!t.record_request(p, 6));
    let rec = t.pending(p).unwrap();
    assert_eq!(rec.count, 1);
    assert_eq!(rec.window_start, 6);
}

#[test]
fn a_request_exactly_at_the_timeout_still_counts() {
    // the window closes only when more than `timeout` has elapsed
    let mut t = ArpActivityTracker::new(2, 5);
    let p = pair([10, 0, 0, 5], [10, 0, 0, 1]);
    assert!(!t.record_request(p, 0));
    assert!(t.record_request(p, 5));
}

#[test]
fn reply_cancels_suspicion() {
    let mut t = ArpActivityTracker::new(2, 1000);
    let p = pair([10, 0, 0, 5], [10, 0, 0, 1]);
    assert!(!t.record_request(p, 0));
    t.record_reply(p);
    assert!(t.pending(p).is_none());
    // the next request starts a fresh count of 1 instead of crossing
    assert!(!t.record_request(p, 1));
    let rec = t.pending(p).unwrap();
    assert_eq!(rec.count, 1);
    assert_eq!(rec.window_start, 1);
}

#[test]
fn reply_without_record_is_a_no_op() {
    let mut t = ArpActivityTracker::new(2, 5);
    let p = pair([10, 0, 0, 5], [10, 0, 0, 1]);
    t.record_reply(p);
    assert!(t.pending(p).is_none());
    assert!(!t.record_request(p, 0));
}

#[test]
fn pairs_are_tracked_independently_and_directed() {
    let mut t = ArpActivityTracker::new(2, 100);
    let p = pair([10, 0, 0, 5], [10, 0, 0, 1]);
    let reversed = pair([10, 0, 0, 1], [10, 0, 0, 5]);
    let other = pair([10, 0, 0, 6], [10, 0, 0, 1]);
    assert!(!t.record_request(p, 0));
    assert!(!t.record_request(reversed, 1));
    assert!(!t.record_request(other, 2));
    // only the original pair crosses; the others are unaffected by it
    assert!(t.record_request(p, 3));
    assert_eq!(t.pending(reversed).unwrap().count, 1);
    assert_eq!(t.pending(other).unwrap().count, 1);
}

#[test]
fn threshold_of_one_crosses_immediately() {
    let mut t = ArpActivityTracker::new(1, 5);
    let p = pair([10, 0, 0, 5], [10, 0, 0, 1]);
    assert!(t.record_request(p, 0));
    assert!(t.pending(p).is_none());
}
