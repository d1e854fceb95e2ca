//! The per-frame decision step of the TCP tarpit responder: one session is
//! bound to one claimed IP, answers initial SYN segments addressed to it
//! with a forged SYN/ACK, and expires once the idle timeout passes with no
//! SYN answered (or, in passive mode, none that would have been answered).

use crate::codec::spec_build_syn_ack;
use crate::codec::spec_parse_ipv4_tcp;
use crate::codec::TcpFrameInfo;
use crate::codec::TCP_FLAG_ACK;
use crate::codec::TCP_FLAG_SYN;
use crate::net::Ipv4Address;
use crate::net::MacAddress;
use vstd::prelude::*;

verus! {

/// What the responder decided about one captured frame.
pub enum FrameDecision {
    /// A parse failure, traffic for another destination, or flags other
    /// than an initial SYN: observed, not answered.
    Skip,
    /// An initial SYN addressed to the claimed IP: the forged SYN/ACK to
    /// answer with, transmitted unless passive mode withholds it.
    Reply { frame: Vec<u8>, transmit: bool },
}

/// Whether `info` is a new connection attempt the session answers: the SYN
/// flag set, the ACK flag clear, and the claimed IP as destination.
pub open spec fn spec_answerable(info: TcpFrameInfo, claimed_ip: Ipv4Address) -> bool {
    &&& info.dst_ip == claimed_ip
    &&& info.flags & TCP_FLAG_SYN != 0
    &&& info.flags & TCP_FLAG_ACK == 0
}

/// One bounded tarpit session: the claimed IP it is scoped to, the MAC its
/// replies are sent from, the passive-mode switch, the idle timeout, and the
/// session clock (when it started, when it last answered — or, passively,
/// would have answered — a SYN).
pub struct TarpitSession {
    pub claimed_ip: Ipv4Address,
    pub own_mac: MacAddress,
    pub passive: bool,
    pub idle_timeout: u64,
    pub started_at: u64,
    pub last_response: u64,
}

impl TarpitSession {
    pub fn new(
        claimed_ip: Ipv4Address,
        own_mac: MacAddress,
        passive: bool,
        idle_timeout: u64,
        started_at: u64,
    ) -> (s: TarpitSession)
        ensures
            s == (TarpitSession {
                claimed_ip,
                own_mac,
                passive,
                idle_timeout,
                started_at,
                last_response: started_at,
            }),
    {
        TarpitSession { claimed_ip, own_mac, passive, idle_timeout, started_at, last_response: started_at }
    }

    /// Whether the session is over: at least `idle_timeout` time units have
    /// passed since the last (would-be) answered SYN.
    pub open spec fn spec_expired(self, now: u64) -> bool {
        now - self.last_response >= self.idle_timeout
    }

    pub fn expired(&self, now: u64) -> (r: bool)
        ensures
            r == self.spec_expired(now),
    {
        now >= self.last_response && now - self.last_response >= self.idle_timeout
    }

    /// Decide one captured frame at time `now`. An initial SYN addressed to
    /// the claimed IP is answered with a forged SYN/ACK — built in every
    /// mode, transmitted only outside passive mode — and resets the idle
    /// timer. Everything else (malformed frames, other destinations, any
    /// other flag combination) is skipped and leaves the session unchanged.
    pub fn handle_frame(&mut self, frame: &Vec<u8>, now: u64) -> (d: FrameDecision)
        ensures
            final(self).claimed_ip == old(self).claimed_ip,
            final(self).own_mac == old(self).own_mac,
            final(self).passive == old(self).passive,
            final(self).idle_timeout == old(self).idle_timeout,
            final(self).started_at == old(self).started_at,
            match spec_parse_ipv4_tcp(frame@) {
                Ok(info) => {
                    if spec_answerable(info, old(self).claimed_ip) {
                        &&& (d matches FrameDecision::Reply { frame: rf, transmit: tx }
                            && rf@ == spec_build_syn_ack(
                            old(self).claimed_ip,
                            info.src_ip,
                            info.dst_port,
                            info.src_port,
                            info.src_mac,
                            old(self).own_mac,
                            info.seq,
                        ) && tx == !old(self).passive)
                        &&& final(self).last_response == now
                    } else {
                        &&& d is Skip
                        &&& final(self).last_response == old(self).last_response
                    }
                },
                Err(_) => {
                    &&& d is Skip
                    &&& final(self).last_response == old(self).last_response
                },
            },
    {
        let info = match crate::codec::parse_ipv4_tcp(frame) {
            Ok(info) => info,
            Err(_) => {
                return FrameDecision::Skip;
            },
        };
        if info.dst_ip == self.claimed_ip && info.flags & TCP_FLAG_SYN != 0 && info.flags
            & TCP_FLAG_ACK == 0 {
            let reply = crate::codec::build_syn_ack(
                self.claimed_ip,
                info.src_ip,
                info.dst_port,
                info.src_port,
                info.src_mac,
                self.own_mac,
                info.seq,
            );
            self.last_response = now;
            FrameDecision::Reply { frame: reply, transmit: !self.passive }
        } else {
            FrameDecision::Skip
        }
    }
}

} // verus!
