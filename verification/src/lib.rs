//! A network tarpit library.
//!
//! The library watches a local segment for ARP requests that go unanswered —
//! a strong signal that the target IP is unused — temporarily claims such an
//! IP, and stalls TCP connection attempts made to it by answering the first
//! SYN with a forged SYN/ACK and never completing the handshake.
//!
//! Everything here is pure, verified logic: address types and frame layouts,
//! the one's-complement Internet checksum, the time-windowed ARP request
//! tracker, and the per-frame decision steps of the two capture loops. The
//! capture channels, the OS-level virtual interface, and the loops that drive
//! them live outside the library and hand it plain byte buffers and clock
//! readings.

pub mod checksum;
pub mod codec;
pub mod net;
pub mod observer;
pub mod responder;
pub mod session;
pub mod tracker;

pub use net::AddressPair;
pub use net::Ipv4Address;
pub use net::MacAddress;
