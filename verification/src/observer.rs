//! The per-frame decision step of the ARP observer: feed one captured frame
//! to the codec and the tracker, report a detection when a target crosses
//! the threshold, and plan the fabricated reply that claims the detected IP.

use crate::codec::build_arp_reply;
use crate::codec::spec_build_arp_reply;
use crate::codec::spec_parse_arp;
use crate::codec::spec_parse_ethernet;
use crate::codec::ArpExchange;
use crate::codec::ArpMessage;
use crate::codec::ARP_OPERATION_REPLY;
use crate::codec::ARP_OPERATION_REQUEST;
use crate::codec::ETHERTYPE_ARP;
use crate::net::AddressPair;
use crate::net::Ipv4Address;
use crate::net::MacAddress;
use crate::tracker::spec_map_after_reply;
use crate::tracker::spec_map_after_request;
use crate::tracker::spec_request_hits;
use crate::tracker::ActivityRecord;
use crate::tracker::ArpActivityTracker;
use vstd::prelude::*;

verus! {

/// What one observed frame led to.
#[derive(Clone, Copy, PartialEq, Eq, Structural, Debug)]
pub enum ObserveOutcome {
    /// Non-ARP traffic, a malformed or unsupported frame, a reply, or a
    /// request that stayed below the threshold: nothing to act on.
    Ignored,
    /// The request threshold was newly crossed for this target: it has been
    /// asked for and unanswered often enough to be declared unused.
    Detected { target_ip: Ipv4Address },
}

/// The address pair an ARP message speaks about: its target and its sender.
pub open spec fn spec_message_pair(msg: ArpMessage) -> AddressPair {
    AddressPair { target_ip: msg.exchange.target_ip, sender_ip: msg.exchange.sender_ip }
}

/// The outcome of observing `frame` against tracker state `m`: a detection
/// exactly when the frame is a well-formed Ethernet ARP request whose pair
/// crosses the threshold at `now`.
pub open spec fn spec_observe_outcome(
    m: Map<u64, ActivityRecord>,
    frame: Seq<u8>,
    now: u64,
    threshold: u32,
    timeout: u64,
) -> ObserveOutcome {
    match spec_parse_ethernet(frame) {
        Ok(eth) => {
            if eth.ethertype != ETHERTYPE_ARP {
                ObserveOutcome::Ignored
            } else {
                match spec_parse_arp(eth.payload) {
                    Ok(msg) => {
                        if msg.operation == ARP_OPERATION_REQUEST && spec_request_hits(
                            m,
                            spec_message_pair(msg).spec_key(),
                            now,
                            threshold,
                            timeout,
                        ) {
                            ObserveOutcome::Detected { target_ip: msg.exchange.target_ip }
                        } else {
                            ObserveOutcome::Ignored
                        }
                    },
                    Err(_) => ObserveOutcome::Ignored,
                }
            }
        },
        Err(_) => ObserveOutcome::Ignored,
    }
}

/// The tracker state after observing `frame`: a request is counted, a reply
/// clears its pair, and everything else leaves the tracker untouched.
pub open spec fn spec_observe_tracker(
    m: Map<u64, ActivityRecord>,
    frame: Seq<u8>,
    now: u64,
    threshold: u32,
    timeout: u64,
) -> Map<u64, ActivityRecord> {
    match spec_parse_ethernet(frame) {
        Ok(eth) => {
            if eth.ethertype != ETHERTYPE_ARP {
                m
            } else {
                match spec_parse_arp(eth.payload) {
                    Ok(msg) => {
                        if msg.operation == ARP_OPERATION_REQUEST {
                            spec_map_after_request(
                                m,
                                spec_message_pair(msg).spec_key(),
                                now,
                                threshold,
                                timeout,
                            )
                        } else if msg.operation == ARP_OPERATION_REPLY {
                            spec_map_after_reply(m, spec_message_pair(msg).spec_key())
                        } else {
                            m
                        }
                    },
                    Err(_) => m,
                }
            }
        },
        Err(_) => m,
    }
}

/// Observe one captured frame at time `now`. A malformed or non-ARP frame
/// is silently skipped — noisy links are expected. An ARP request is counted
/// against its pair and reported as a detection exactly when it newly
/// crosses the threshold; an ARP reply clears its pair's suspicion.
pub fn observe_frame(tracker: &mut ArpActivityTracker, frame: &Vec<u8>, now: u64) -> (o:
    ObserveOutcome)
    requires
        old(tracker).wf(),
    ensures
        final(tracker).wf(),
        final(tracker).spec_threshold() == old(tracker).spec_threshold(),
        final(tracker).spec_timeout() == old(tracker).spec_timeout(),
        o == spec_observe_outcome(
            old(tracker)@,
            frame@,
            now,
            old(tracker).spec_threshold(),
            old(tracker).spec_timeout(),
        ),
        final(tracker)@ == spec_observe_tracker(
            old(tracker)@,
            frame@,
            now,
            old(tracker).spec_threshold(),
            old(tracker).spec_timeout(),
        ),
{
    let eth = match crate::codec::parse_ethernet(frame) {
        Ok(eth) => eth,
        Err(_) => {
            return ObserveOutcome::Ignored;
        },
    };
    if eth.ethertype != ETHERTYPE_ARP {
        return ObserveOutcome::Ignored;
    }
    let msg = match crate::codec::parse_arp(&eth.payload) {
        Ok(msg) => msg,
        Err(_) => {
            return ObserveOutcome::Ignored;
        },
    };
    let pair = AddressPair { target_ip: msg.exchange.target_ip, sender_ip: msg.exchange.sender_ip };
    if msg.operation == ARP_OPERATION_REQUEST {
        let hit = tracker.record_request(pair, now);
        if hit {
            ObserveOutcome::Detected { target_ip: msg.exchange.target_ip }
        } else {
            ObserveOutcome::Ignored
        }
    } else if msg.operation == ARP_OPERATION_REPLY {
        tracker.record_reply(pair);
        ObserveOutcome::Ignored
    } else {
        ObserveOutcome::Ignored
    }
}

/// The exchange fabricated to claim `detected_ip`: sender and target are
/// both the detected IP, and both hardware addresses are the observing
/// interface's own MAC — a claim, not a relay.
pub open spec fn spec_claim_exchange(detected_ip: Ipv4Address, own_mac: MacAddress) -> ArpExchange {
    ArpExchange {
        sender_ip: detected_ip,
        target_ip: detected_ip,
        sender_mac: own_mac,
        target_mac: own_mac,
    }
}

/// The planned response to a detection: the fabricated exchange claiming the
/// detected IP, the wire frame built from it, and whether the frame is to be
/// transmitted.
pub struct ClaimPlan {
    pub exchange: ArpExchange,
    pub frame: Vec<u8>,
    pub transmit: bool,
}

/// Plan the ARP reply that claims a detected IP. The frame is constructed in
/// every mode; `transmit` is false exactly in passive mode, so a passive
/// observer hands the send capability nothing at all and only reports the
/// detection upward.
pub fn plan_claim_reply(detected_ip: Ipv4Address, own_mac: MacAddress, passive: bool) -> (p:
    ClaimPlan)
    ensures
        p.exchange == spec_claim_exchange(detected_ip, own_mac),
        p.frame@ == spec_build_arp_reply(spec_claim_exchange(detected_ip, own_mac)),
        p.transmit == !passive,
{
    let exchange = ArpExchange {
        sender_ip: detected_ip,
        target_ip: detected_ip,
        sender_mac: own_mac,
        target_mac: own_mac,
    };
    let frame = build_arp_reply(exchange);
    ClaimPlan { exchange, frame, transmit: !passive }
}

} // verus!
