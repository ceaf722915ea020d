//! Source-address-aware UDP datagram support.
//!
//! A UDP server on a multi-homed host often needs to reply from the same
//! local address a request arrived on, even when its socket is bound to a
//! wildcard address.  The kernel offers this through per-datagram ancillary
//! data: a control message attached to a send chooses the outgoing source
//! address, and — once `IP_PKTINFO` / `IPV6_RECVPKTINFO` is enabled on the
//! socket — a control message attached to every receive reports the
//! destination address the datagram was sent to.
//!
//! This crate holds the verified core of that protocol:
//!
//! - [`addr`]: plain address values (family, IP address, endpoint) and the
//!   error taxonomy;
//! - [`codec`]: the ancillary-data codec, which builds and parses the
//!   control-message buffer byte for byte (Linux 64-bit layout);
//! - [`sockopt`]: the family-specific socket-option arguments that enable
//!   destination reporting;
//! - [`datagram`]: the send/receive decision logic that packs a source
//!   address into a control buffer and unpacks a receive outcome into
//!   payload length, peer endpoint and local address.
//!
//! The system calls themselves (bind, `sendmsg`, `recvmsg`, `setsockopt`)
//! are left to an unverified shell around this library: every function here
//! computes on plain values and is verified.

pub mod addr;
pub mod codec;
pub mod datagram;
pub mod sockopt;
