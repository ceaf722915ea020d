//! The one-shot socket option that enables destination reporting.
//!
//! Before a receive can recover the local (destination) address, the
//! kernel must be told to attach a packet-info record to every datagram
//! the socket receives.  One `setsockopt` call per socket does that; which
//! option depends only on the socket's family.  The call itself is a
//! system call and lives outside this library — this module computes its
//! arguments, exactly.

use vstd::prelude::*;

use crate::addr::AddressFamily;

verus! {

/// `IPPROTO_IP`, the level of IPv4 per-socket options.
pub const IPPROTO_IP: i32 = 0;

/// `IP_PKTINFO`, the IPv4 option that makes the kernel attach an
/// `in_pktinfo` record to every received datagram.
pub const IP_PKTINFO: i32 = 8;

/// `IPPROTO_IPV6`, the level of IPv6 per-socket options.
pub const IPPROTO_IPV6: i32 = 41;

/// `IPV6_RECVPKTINFO`, the IPv6 option that makes the kernel attach an
/// `in6_pktinfo` record to every received datagram.
pub const IPV6_RECVPKTINFO: i32 = 49;

/// The three `setsockopt` arguments after the socket handle.
#[derive(Clone, Copy, Debug, PartialEq, Eq, Structural)]
pub struct SockOptArgs {
    pub level: i32,
    pub name: i32,
    pub value: i32,
}

/// The `setsockopt` arguments that enable destination reporting on a
/// socket of the given family.
///
/// The result depends on the family alone, so enabling twice issues the
/// very same call twice; the option is a boolean flag, and setting it
/// again is harmless.
pub fn pktinfo_option(family: AddressFamily) -> (r: SockOptArgs)
    ensures
        r.value == 1,
        family is V4 ==> r.level == IPPROTO_IP && r.name == IP_PKTINFO,
        family is V6 ==> r.level == IPPROTO_IPV6 && r.name == IPV6_RECVPKTINFO,
{
    match family {
        AddressFamily::V4 => SockOptArgs { level: IPPROTO_IP, name: IP_PKTINFO, value: 1 },
        AddressFamily::V6 => SockOptArgs { level: IPPROTO_IPV6, name: IPV6_RECVPKTINFO, value: 1 },
    }
}

} // verus!
