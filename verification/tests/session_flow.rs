use arp_tarpit::observer::observe_frame;
use arp_tarpit::observer::plan_claim_reply;
use arp_tarpit::observer::ObserveOutcome;
use arp_tarpit::responder::FrameDecision;
use arp_tarpit::responder::TarpitSession;
use arp_tarpit::session::session_step;
use arp_tarpit::session::ClaimRegistry;
use arp_tarpit::session::ClaimedIdentity;
use arp_tarpit::session::SessionAction;
use arp_tarpit::session::SessionEvent;
use arp_tarpit::session::SessionPhase;
use arp_tarpit::codec::parse_ipv4_tcp;
use arp_tarpit::tracker::ArpActivityTracker;
use arp_tarpit::Ipv4Address;
use arp_tarpit::MacAddress;

fn ip(o0: u8, o1: u8, o2: u8, o3: u8) -> Ipv4Address {
    Ipv4Address::new(o0, o1, o2, o3)
}

fn mac(last: u8) -> MacAddress {
    MacAddress::new(0x02, 0x00, 0x00, 0x00, 0x00, last)
}

fn arp_frame(operation: u8, sender_ip: Ipv4Address, target_ip: Ipv4Address) -> Vec<u8> {
    let mut f: Vec<u8> = Vec::new();
    f.extend_from_slice(&[0xff; 6]); // broadcast destination
    f.extend_from_slice(&[0x02, 0, 0, 0, 0, 0x0a]); // source MAC
    f.extend_from_slice(&[0x08, 0x06]); // ethertype ARP
    f.extend_from_slice(&[0x00, 0x01, 0x08, 0x00, 6, 4, 0x00, operation]);
    f.extend_from_slice(&[0x02, 0, 0, 0, 0, 0x0a]); // sender hardware address
    f.extend_from_slice(&[sender_ip.o0, sender_ip.o1, sender_ip.o2, sender_ip.o3]);
    f.extend_from_slice(&[0x00; 6]); // target hardware address (unknown)
    f.extend_from_slice(&[target_ip.o0, target_ip.o1, target_ip.o2, target_ip.o3]);
    f
}

fn tcp_frame(dst_ip: Ipv4Address, flags: u8, seq: u32) -> Vec<u8> {
    let mut f: Vec<u8> = vec![0u8; 54];
    f[0..6].copy_from_slice(&[0x02, 0, 0, 0, 0, 0x01]); // destination MAC
    f[6..12].copy_from_slice(&[0x02, 0, 0, 0, 0, 0x09]); // source MAC
    f[12] = 0x08;
    f[13] = 0x00;
    f[26..30].copy_from_slice(&[10, 0, 0, 9]); // source IP
    f[30..34].copy_from_slice(&[dst_ip.o0, dst_ip.o1, dst_ip.o2, dst_ip.o3]);
    f[34..36].copy_from_slice(&44500u16.to_be_bytes()); // source port
    f[36..38].copy_from_slice(&80u16.to_be_bytes()); // destination port
    f[38..42].copy_from_slice(&seq.to_be_bytes());
    f[46] = 0x50;
    f[47] = flags;
    f
}

#[test]
fn observer_detects_on_second_request() {
    let mut tracker = ArpActivityTracker::new(2, 5);
    let target = ip(10, 0, 0, 5);
    let sender = ip(10, 0, 0, 1);
    let request = arp_frame(1, sender, target);
    assert_eq!(observe_frame(&mut tracker, &request, 0), ObserveOutcome::Ignored);
    assert_eq!(
        observe_frame(&mut tracker, &request, 1),
        ObserveOutcome::Detected { target_ip: target }
    );
}

#[test]
fn observer_skips_noise() {
    let mut tracker = ArpActivityTracker::new(2, 5);
    let target = ip(10, 0, 0, 5);
    let sender = ip(10, 0, 0, 1);
    // too short for an Ethernet header
    assert_eq!(observe_frame(&mut tracker, &vec![0u8; 9], 0), ObserveOutcome::Ignored);
    // not ARP
    let not_arp = tcp_frame(target, 0x02, 1);
    assert_eq!(observe_frame(&mut tracker, &not_arp, 0), ObserveOutcome::Ignored);
    // truncated ARP body
    let mut truncated = arp_frame(1, sender, target);
    truncated.truncate(30);
    assert_eq!(observe_frame(&mut tracker, &truncated, 0), ObserveOutcome::Ignored);
    // none of it counted towards the threshold
    let request = arp_frame(1, sender, target);
    assert_eq!(observe_frame(&mut tracker, &request, 1), ObserveOutcome::Ignored);
    assert_eq!(
        observe_frame(&mut tracker, &request, 2),
        ObserveOutcome::Detected { target_ip: target }
    );
}

#[test]
fn observer_reply_clears_suspicion() {
    let mut tracker = ArpActivityTracker::new(2, 1000);
    let target = ip(10, 0, 0, 5);
    let sender = ip(10, 0, 0, 1);
    let request = arp_frame(1, sender, target);
    let reply = arp_frame(2, sender, target);
    assert_eq!(observe_frame(&mut tracker, &request, 0), ObserveOutcome::Ignored);
    assert_eq!(observe_frame(&mut tracker, &reply, 1), ObserveOutcome::Ignored);
    // the earlier request no longer counts
    assert_eq!(observe_frame(&mut tracker, &request, 2), ObserveOutcome::Ignored);
}

#[test]
fn passive_mode_suppresses_arp_transmission() {
    let detected = ip(10, 0, 0, 5);
    let own = mac(0x01);
    let plan = plan_claim_reply(detected, own, true);
    // the frame is still constructed, but nothing is handed to the sender:
    // a send capability driven by this plan records zero transmitted bytes
    assert_eq!(plan.frame.len(), 42);
    assert!(!plan.transmit);
    let transmitted_bytes = if plan.transmit { plan.frame.len() } else { 0 };
    assert_eq!(transmitted_bytes, 0);
    // outside passive mode the same plan is transmitted
    let active = plan_claim_reply(detected, own, false);
    assert!(active.transmit);
    assert_eq!(active.frame, plan.frame);
    assert_eq!(plan.exchange.sender_ip, detected);
    assert_eq!(plan.exchange.target_ip, detected);
    assert_eq!(plan.exchange.sender_mac, own);
    assert_eq!(plan.exchange.target_mac, own);
}

#[test]
fn responder_answers_syn_with_syn_ack() {
    // a SYN {flags=0x02, seq=1000} addressed to the claimed IP yields a
    // built reply with ack=1001 and flags SYN|ACK
    let claimed = ip(10, 0, 0, 5);
    let mut session = TarpitSession::new(claimed, mac(0x01), false, 10, 100);
    let syn = tcp_frame(claimed, 0x02, 1000);
    match session.handle_frame(&syn, 105) {
        FrameDecision::Reply { frame, transmit } => {
            assert!(transmit);
            let info = parse_ipv4_tcp(&frame).unwrap();
            assert_eq!(info.ack, 1001);
            assert_eq!(info.flags, 0x12);
            assert_eq!(info.src_ip, claimed);
            assert_eq!(info.dst_ip, ip(10, 0, 0, 9));
            assert_eq!(info.src_port, 80);
            assert_eq!(info.dst_port, 44500);
        }
        FrameDecision::Skip => panic!("the SYN should have been answered"),
    }
    // answering reset the idle timer
    assert!(!session.expired(114));
    assert!(session.expired(115));
}

#[test]
fn responder_in_passive_mode_builds_but_withholds() {
    let claimed = ip(10, 0, 0, 5);
    let mut session = TarpitSession::new(claimed, mac(0x01), true, 10, 100);
    let syn = tcp_frame(claimed, 0x02, 1000);
    match session.handle_frame(&syn, 101) {
        FrameDecision::Reply { frame, transmit } => {
            assert!(!transmit);
            assert_eq!(frame.len(), 60);
        }
        FrameDecision::Skip => panic!("the SYN should still be recognized in passive mode"),
    }
    // the would-be answer still reset the idle timer
    assert!(!session.expired(110));
    assert!(session.expired(111));
}

#[test]
fn responder_ignores_irrelevant_traffic() {
    let claimed = ip(10, 0, 0, 5);
    let mut session = TarpitSession::new(claimed, mac(0x01), false, 10, 100);
    // another destination
    assert!(matches!(
        session.handle_frame(&tcp_frame(ip(10, 0, 0, 6), 0x02, 5), 101),
        FrameDecision::Skip
    ));
    // SYN/ACK (ACK set) is not a new connection attempt
    assert!(matches!(
        session.handle_frame(&tcp_frame(claimed, 0x12, 5), 102),
        FrameDecision::Skip
    ));
    // a bare ACK is observed but not answered
    assert!(matches!(
        session.handle_frame(&tcp_frame(claimed, 0x10, 5), 103),
        FrameDecision::Skip
    ));
    // a malformed frame is skipped
    assert!(matches!(session.handle_frame(&vec![0u8; 20], 104), FrameDecision::Skip));
    // none of that reset the idle timer
    assert!(session.expired(110));
}

#[test]
fn responder_expires_after_idle_window() {
    // idle timeout 10s, no matching SYN: the session is over once the
    // window passes
    let claimed = ip(10, 0, 0, 5);
    let session = TarpitSession::new(claimed, mac(0x01), false, 10, 100);
    assert!(!session.expired(100));
    assert!(!session.expired(109));
    assert!(session.expired(110));
    assert!(session.expired(200));
}

#[test]
fn orchestrator_tears_down_exactly_once_per_session() {
    // idle timeout elapses with no SYN: the responder expires and teardown
    // runs exactly once before the loop watches again
    let detected = ip(10, 0, 0, 5);
    let events = [
        SessionEvent::DetectionMade { ip: detected },
        SessionEvent::ProvisionSucceeded,
        SessionEvent::ResponderExpired,
        SessionEvent::TeardownDone,
    ];
    let mut phase = SessionPhase::Watching;
    let mut teardowns = 0;
    for event in events {
        let (next, action) = session_step(phase, event);
        if let SessionAction::Teardown { ip } = action {
            assert_eq!(ip, detected);
            teardowns += 1;
        }
        phase = next;
    }
    assert_eq!(teardowns, 1);
    assert_eq!(phase, SessionPhase::Watching);
}

#[test]
fn orchestrator_tears_down_even_when_the_responder_fails() {
    let detected = ip(10, 0, 0, 5);
    let (phase, action) = session_step(
        SessionPhase::Tarpitting { ip: detected },
        SessionEvent::ResponderFailed,
    );
    assert_eq!(action, SessionAction::Teardown { ip: detected });
    assert_eq!(phase, SessionPhase::Releasing { ip: detected });
}

#[test]
fn orchestrator_survives_provisioning_failure_without_teardown() {
    let detected = ip(10, 0, 0, 5);
    let (phase, action) = session_step(
        SessionPhase::Claiming { ip: detected },
        SessionEvent::ProvisionFailed,
    );
    assert_eq!(action, SessionAction::AwaitDetection);
    assert_eq!(phase, SessionPhase::Watching);
}

#[test]
fn claim_registry_is_mutually_exclusive() {
    let mut registry = ClaimRegistry::new(16);
    let a = ip(10, 0, 0, 5);
    let b = ip(10, 0, 0, 6);
    assert!(registry.try_claim(a));
    // a fast rescan cannot double-claim the same dead IP
    assert!(!registry.try_claim(a));
    assert!(registry.try_claim(b));
    registry.release(a);
    assert!(registry.try_claim(a));
    assert!(!registry.try_claim(b));
}

#[test]
fn claim_registry_caps_concurrent_sessions() {
    let mut registry = ClaimRegistry::new(2);
    assert!(registry.try_claim(ip(10, 0, 0, 1)));
    assert!(registry.try_claim(ip(10, 0, 0, 2)));
    // a third dead IP must wait for a free session slot
    assert!(!registry.try_claim(ip(10, 0, 0, 3)));
    registry.release(ip(10, 0, 0, 1));
    assert!(registry.try_claim(ip(10, 0, 0, 3)));
    // releasing an unclaimed IP frees nothing
    registry.release(ip(10, 0, 0, 99));
    assert!(!registry.try_claim(ip(10, 0, 0, 4)));
}

#[test]
fn claimed_identity_names_its_virtual_link() {
    let c = ClaimedIdentity::new(ip(10, 0, 0, 5));
    assert_eq!(c.virtual_link_name.as_str(), "v10.0.0.5");
    let c = ClaimedIdentity::new(ip(192, 168, 1, 254));
    assert_eq!(c.virtual_link_name.as_str(), "v192.168.1.254");
    let c = ClaimedIdentity::new(ip(0, 10, 100, 255));
    assert_eq!(c.virtual_link_name.as_str(), "v0.10.100.255");
}
