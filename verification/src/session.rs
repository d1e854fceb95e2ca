//! The session layer: the claimed identity bound to a detected IP, the
//! registry that keeps claims mutually exclusive, and the orchestrator's
//! step function — the decisions of the top-level loop that runs the
//! observer, provisions an identity, runs the tarpit responder against it,
//! and unconditionally tears the identity down again.

use crate::net::Ipv4Address;
use vstd::prelude::*;

verus! {

/// The decimal digit character for `d` in `0..10`.
pub open spec fn spec_digit(d: int) -> char {
    if d == 0 {
        '0'
    } else if d == 1 {
        '1'
    } else if d == 2 {
        '2'
    } else if d == 3 {
        '3'
    } else if d == 4 {
        '4'
    } else if d == 5 {
        '5'
    } else if d == 6 {
        '6'
    } else if d == 7 {
        '7'
    } else if d == 8 {
        '8'
    } else {
        '9'
    }
}

/// The decimal digits of an octet, most significant first, no leading
/// zeroes.
pub open spec fn spec_decimal(n: u8) -> Seq<char> {
    if n < 10 {
        seq![spec_digit(n as int)]
    } else if n < 100 {
        seq![spec_digit(n as int / 10), spec_digit(n as int % 10)]
    } else {
        seq![spec_digit(n as int / 100), spec_digit((n as int / 10) % 10), spec_digit(n as int % 10)]
    }
}

/// The conventional name of the virtual link bound to a claimed IP: a `v`
/// followed by the address in dotted decimal.
pub open spec fn spec_link_name(ip: Ipv4Address) -> Seq<char> {
    seq!['v'] + spec_decimal(ip.o0) + seq!['.'] + spec_decimal(ip.o1) + seq!['.'] + spec_decimal(
        ip.o2,
    ) + seq!['.'] + spec_decimal(ip.o3)
}

fn digit_str(d: u8) -> (r: &'static str)
    requires
        d < 10,
    ensures
        r@ == seq![spec_digit(d as int)],
{
    proof {
        reveal_strlit("0");
        reveal_strlit("1");
        reveal_strlit("2");
        reveal_strlit("3");
        reveal_strlit("4");
        reveal_strlit("5");
        reveal_strlit("6");
        reveal_strlit("7");
        reveal_strlit("8");
        reveal_strlit("9");
    }
    match d {
        0 => "0",
        1 => "1",
        2 => "2",
        3 => "3",
        4 => "4",
        5 => "5",
        6 => "6",
        7 => "7",
        8 => "8",
        _ => "9",
    }
}

fn append_octet(s: &mut String, n: u8)
    ensures
        final(s)@ == old(s)@ + spec_decimal(n),
{
    let ghost s0 = old(s)@;
    if n >= 100 {
        s.append(digit_str(n / 100));
        s.append(digit_str((n / 10) % 10));
        s.append(digit_str(n % 10));
        proof {
            assert(s@ =~= s0 + spec_decimal(n));
        }
    } else if n >= 10 {
        s.append(digit_str(n / 10));
        s.append(digit_str(n % 10));
        proof {
            assert(s@ =~= s0 + spec_decimal(n));
        }
    } else {
        s.append(digit_str(n));
        proof {
            assert(s@ =~= s0 + spec_decimal(n));
        }
    }
}

/// Render the conventional virtual-link name for a claimed IP.
pub fn link_name_for(ip: Ipv4Address) -> (r: String)
    ensures
        r@ == spec_link_name(ip),
{
    proof {
        reveal_strlit("v");
        reveal_strlit(".");
    }
    let mut s = String::new();
    s.append("v");
    append_octet(&mut s, ip.o0);
    s.append(".");
    append_octet(&mut s, ip.o1);
    s.append(".");
    append_octet(&mut s, ip.o2);
    s.append(".");
    append_octet(&mut s, ip.o3);
    proof {
        assert(s@ =~= spec_link_name(ip));
    }
    s
}

/// The externally provisioned OS identity bound to a detected-unused IP:
/// the IP itself and the name of the virtual link that carries it. Created
/// by the orchestrator right after a detection, handed to the responder for
/// one session, and destroyed unconditionally before the next iteration.
pub struct ClaimedIdentity {
    pub ip: Ipv4Address,
    pub virtual_link_name: String,
}

impl ClaimedIdentity {
    pub fn new(ip: Ipv4Address) -> (c: ClaimedIdentity)
        ensures
            c.ip == ip,
            c.virtual_link_name@ == spec_link_name(ip),
    {
        ClaimedIdentity { ip, virtual_link_name: link_name_for(ip) }
    }
}

/// The set of IPs currently claimed by running tarpit sessions. At most one
/// claimed identity may exist per IP at a time, and at most `capacity`
/// sessions may run at once — a fast scan sweeping many dead IPs must not
/// create virtual identities without bound. Checking and inserting at this
/// single point enforces both.
pub struct ClaimRegistry {
    claims: Vec<u32>,
    capacity: usize,
}

impl View for ClaimRegistry {
    type V = Set<u32>;

    closed spec fn view(&self) -> Set<u32> {
        self.claims@.to_set()
    }
}

impl ClaimRegistry {
    /// The bound on concurrently running sessions.
    pub closed spec fn spec_capacity(&self) -> nat {
        self.capacity as nat
    }

    /// How many sessions hold a claim right now.
    pub closed spec fn spec_active(&self) -> nat {
        self.claims@.len()
    }

    /// No IP value is listed twice, and the bound is respected.
    pub closed spec fn wf(&self) -> bool {
        &&& forall|i: int, j: int|
            0 <= i < j < self.claims@.len() ==> #[trigger] self.claims@[i]
                != #[trigger] self.claims@[j]
        &&& self.claims@.len() <= self.capacity
    }

    pub fn new(capacity: usize) -> (r: ClaimRegistry)
        ensures
            r@ == Set::<u32>::empty(),
            r.spec_capacity() == capacity,
            r.spec_active() == 0,
            r.wf(),
    {
        let r = ClaimRegistry { claims: Vec::new(), capacity };
        proof {
            assert(r.claims@.to_set() =~= Set::<u32>::empty());
        }
        r
    }

    fn position_of(&self, value: u32) -> (r: Option<usize>)
        ensures
            match r {
                Some(i) => i < self.claims@.len() && self.claims@[i as int] == value,
                None => !self@.contains(value),
            },
    {
        let mut i: usize = 0;
        while i < self.claims.len()
            invariant
                i <= self.claims@.len(),
                forall|j: int| 0 <= j < i ==> self.claims@[j] != value,
            decreases self.claims@.len() - i,
        {
            if self.claims[i] == value {
                return Some(i);
            }
            i = i + 1;
        }
        proof {
            assert(!self.claims@.contains(value));
        }
        None
    }

    /// Claim `ip` if no running session holds it and a session slot is
    /// free. Returns true — and records the claim — exactly when the IP was
    /// unclaimed and the bound not yet reached; otherwise nothing changes.
    pub fn try_claim(&mut self, ip: Ipv4Address) -> (claimed: bool)
        requires
            old(self).wf(),
        ensures
            final(self).wf(),
            final(self).spec_capacity() == old(self).spec_capacity(),
            claimed == (!old(self)@.contains(ip.spec_value()) && old(self).spec_active() < old(self).spec_capacity()),
            claimed ==> final(self)@ == old(self)@.insert(ip.spec_value()) && final(self).spec_active() == old(self).spec_active() + 1,
            !claimed ==> final(self)@ == old(self)@ && final(self).spec_active() == old(self).spec_active(),
    {
        let value = ip.value();
        match self.position_of(value) {
            Some(_) => {
                proof {
                    assert(old(self)@.contains(ip.spec_value()));
                }
                false
            },
            None => {
                if self.claims.len() >= self.capacity {
                    return false;
                }
                self.claims.push(value);
                proof {
                    assert(self.claims@.drop_last() =~= old(self).claims@);
                    assert forall|x: u32| self@.contains(x) implies old(self)@.insert(
                        ip.spec_value(),
                    ).contains(x) by {
                        let k = choose|k: int|
                            0 <= k < self.claims@.len() && self.claims@[k] == x;
                        if k < self.claims@.len() - 1 {
                            assert(old(self).claims@[k] == x);
                        }
                    }
                    assert forall|x: u32|
                        old(self)@.insert(ip.spec_value()).contains(x) implies self@.contains(
                        x,
                    ) by {
                        if old(self)@.contains(x) {
                            let k = choose|k: int|
                                0 <= k < old(self).claims@.len() && old(self).claims@[k] == x;
                            assert(self.claims@[k] == x);
                        } else {
                            assert(self.claims@.last() == x);
                        }
                    }
                    assert(final(self)@ =~= old(self)@.insert(ip.spec_value()));
                }
                true
            },
        }
    }

    /// Release the claim on `ip` once its session's identity is torn down,
    /// freeing its session slot. Releasing an unclaimed IP is a no-op.
    pub fn release(&mut self, ip: Ipv4Address)
        requires
            old(self).wf(),
        ensures
            final(self).wf(),
            final(self).spec_capacity() == old(self).spec_capacity(),
            final(self)@ == old(self)@.remove(ip.spec_value()),
            old(self)@.contains(ip.spec_value()) ==> final(self).spec_active() == old(self).spec_active() - 1,
            !old(self)@.contains(ip.spec_value()) ==> final(self).spec_active() == old(self).spec_active(),
    {
        let value = ip.value();
        match self.position_of(value) {
            Some(i) => {
                self.claims.remove(i);
                proof {
                    let before = old(self).claims@;
                    let after = self.claims@;
                    assert forall|x: u32| after.to_set().contains(x) implies before.to_set().remove(
                        value,
                    ).contains(x) by {
                        let k = choose|k: int| 0 <= k < after.len() && after[k] == x;
                        if k < i {
                            assert(before[k] == x);
                        } else {
                            assert(before[k + 1] == x);
                        }
                        assert(x != value);
                    }
                    assert forall|x: u32|
                        before.to_set().remove(value).contains(x) implies after.to_set().contains(
                        x,
                    ) by {
                        let k = choose|k: int| 0 <= k < before.len() && before[k] == x;
                        if k < i {
                            assert(after[k] == x);
                        } else {
                            assert(k != i);
                            assert(after[k - 1] == x);
                        }
                    }
                    assert(final(self)@ =~= old(self)@.remove(value));
                }
            },
            None => {
                proof {
                    assert(final(self)@ =~= old(self)@.remove(ip.spec_value()));
                }
            },
        }
    }
}

/// Where one pass of the orchestrator stands.
#[derive(Clone, Copy, PartialEq, Eq, Structural, Debug)]
pub enum SessionPhase {
    /// Watching the segment for the next detection.
    Watching,
    /// A detection was made; the OS-level identity is being provisioned.
    Claiming { ip: Ipv4Address },
    /// The tarpit responder is running against the claimed identity.
    Tarpitting { ip: Ipv4Address },
    /// The claimed identity is being torn down.
    Releasing { ip: Ipv4Address },
}

/// What the outside loop reports back to the orchestrator.
#[derive(Clone, Copy, PartialEq, Eq, Structural, Debug)]
pub enum SessionEvent {
    /// The observer declared this target IP unused.
    DetectionMade { ip: Ipv4Address },
    /// The OS-level identity is up.
    ProvisionSucceeded,
    /// The OS-level identity could not be created.
    ProvisionFailed,
    /// The responder's idle timeout elapsed with no answered SYN.
    ResponderExpired,
    /// The responder's capture channel failed.
    ResponderFailed,
    /// The identity has been removed.
    TeardownDone,
}

/// What the orchestrator asks the outside loop to do next.
#[derive(Clone, Copy, PartialEq, Eq, Structural, Debug)]
pub enum SessionAction {
    /// Run the ARP observer until it reports a detection.
    AwaitDetection,
    /// Provision the OS-level identity for this IP.
    Provision { ip: Ipv4Address },
    /// Run the TCP tarpit responder against the claimed IP.
    RunResponder { ip: Ipv4Address },
    /// Remove the OS-level identity of this IP.
    Teardown { ip: Ipv4Address },
    /// The event did not belong to the current phase: ignore it.
    Idle,
}

/// The orchestrator's transition function. Each iteration is independent
/// and failure-isolated: a provisioning failure returns to watching, and a
/// responder that ends — by expiry or by error — always leads to teardown
/// before the loop watches again. No error terminates the loop itself.
pub open spec fn spec_session_step(phase: SessionPhase, event: SessionEvent) -> (
    SessionPhase,
    SessionAction,
) {
    match (phase, event) {
        (SessionPhase::Watching, SessionEvent::DetectionMade { ip }) => (
            SessionPhase::Claiming { ip },
            SessionAction::Provision { ip },
        ),
        (SessionPhase::Claiming { ip }, SessionEvent::ProvisionSucceeded) => (
            SessionPhase::Tarpitting { ip },
            SessionAction::RunResponder { ip },
        ),
        (SessionPhase::Claiming { ip: _ }, SessionEvent::ProvisionFailed) => (
            SessionPhase::Watching,
            SessionAction::AwaitDetection,
        ),
        (SessionPhase::Tarpitting { ip }, SessionEvent::ResponderExpired) => (
            SessionPhase::Releasing { ip },
            SessionAction::Teardown { ip },
        ),
        (SessionPhase::Tarpitting { ip }, SessionEvent::ResponderFailed) => (
            SessionPhase::Releasing { ip },
            SessionAction::Teardown { ip },
        ),
        (SessionPhase::Releasing { ip: _ }, SessionEvent::TeardownDone) => (
            SessionPhase::Watching,
            SessionAction::AwaitDetection,
        ),
        _ => (phase, SessionAction::Idle),
    }
}

/// Advance the orchestrator by one observed event.
pub fn session_step(phase: SessionPhase, event: SessionEvent) -> (r: (SessionPhase, SessionAction))
    ensures
        r == spec_session_step(phase, event),
{
    match (phase, event) {
        (SessionPhase::Watching, SessionEvent::DetectionMade { ip }) => (
            SessionPhase::Claiming { ip },
            SessionAction::Provision { ip },
        ),
        (SessionPhase::Claiming { ip }, SessionEvent::ProvisionSucceeded) => (
            SessionPhase::Tarpitting { ip },
            SessionAction::RunResponder { ip },
        ),
        (SessionPhase::Claiming { ip: _ }, SessionEvent::ProvisionFailed) => (
            SessionPhase::Watching,
            SessionAction::AwaitDetection,
        ),
        (SessionPhase::Tarpitting { ip }, SessionEvent::ResponderExpired) => (
            SessionPhase::Releasing { ip },
            SessionAction::Teardown { ip },
        ),
        (SessionPhase::Tarpitting { ip }, SessionEvent::ResponderFailed) => (
            SessionPhase::Releasing { ip },
            SessionAction::Teardown { ip },
        ),
        (SessionPhase::Releasing { ip: _ }, SessionEvent::TeardownDone) => (
            SessionPhase::Watching,
            SessionAction::AwaitDetection,
        ),
        (p, _) => (p, SessionAction::Idle),
    }
}

/// Teardown is requested exactly when a running tarpit session ends —
/// whether by idle expiry or by a channel failure — and from no other
/// phase or event: the identity is released once per session, on every exit
/// path, and never without a session.
pub proof fn lemma_teardown_exactly_on_session_end(
    phase: SessionPhase,
    event: SessionEvent,
    ip: Ipv4Address,
)
    ensures
        (spec_session_step(phase, event).1 == SessionAction::Teardown { ip }) <==> (phase
            == SessionPhase::Tarpitting { ip } && (event == SessionEvent::ResponderExpired || event
            == SessionEvent::ResponderFailed)),
{
}

} // verus!
