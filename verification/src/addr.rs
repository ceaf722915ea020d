//! Plain address values and the error taxonomy.
//!
//! Addresses are held as raw bytes in network order: four bytes for an IPv4
//! address, sixteen for IPv6.  A socket's family is fixed when it is bound
//! and every address that crosses this library carries its own family, so
//! family agreement can be stated and checked as a plain predicate.

use vstd::prelude::*;

verus! {

/// The address family of a socket or of an IP address.
#[derive(Clone, Copy, Debug, PartialEq, Eq, Structural)]
pub enum AddressFamily {
    V4,
    V6,
}

/// An IP address without a port: the desired outgoing source address on a
/// send, or the learned destination (local) address on a receive.
///
/// The bytes are in network order, exactly as they travel in the
/// packet-info control message.
#[derive(Clone, Copy, Debug, PartialEq, Eq)]
pub enum IpAddress {
    V4([u8; 4]),
    V6([u8; 16]),
}

/// A peer or local endpoint: an IP address together with a UDP port.
#[derive(Clone, Copy, Debug, PartialEq, Eq)]
pub struct Endpoint {
    pub ip: IpAddress,
    pub port: u16,
}

/// The family an address belongs to.
pub open spec fn family_of(ip: IpAddress) -> AddressFamily {
    match ip {
        IpAddress::V4(_) => AddressFamily::V4,
        IpAddress::V6(_) => AddressFamily::V6,
    }
}

impl IpAddress {
    /// The family this address belongs to.
    pub fn family(&self) -> (r: AddressFamily)
        ensures
            r == family_of(*self),
    {
        match self {
            IpAddress::V4(_) => AddressFamily::V4,
            IpAddress::V6(_) => AddressFamily::V6,
        }
    }
}

impl Endpoint {
    /// The family of the endpoint's IP address.
    ///
    /// A socket bound to this endpoint has this family for its whole
    /// lifetime; it decides which packet-info option and record layout
    /// apply to the socket.
    pub fn family(&self) -> (r: AddressFamily)
        ensures
            r == family_of(self.ip),
    {
        self.ip.family()
    }
}

/// What can go wrong inside this library's own logic.
///
/// System-call failures (including "would block") never reach these values:
/// the unverified shell that performs the call reports those as the
/// operating system's own errors.  The variants here are the data-validity
/// failures of the protocol itself.
#[derive(Clone, Copy, Debug, PartialEq, Eq, Structural)]
pub enum SasError {
    /// A receive completed but reported no peer address; the socket is
    /// probably in connected mode.
    PeerAddressMissing,
    /// A receive completed but its ancillary data held no packet-info
    /// record, so the destination address is unknown; destination
    /// reporting may not be enabled on the socket.
    LocalAddressMissing,
    /// The kernel accepted fewer bytes than the payload holds.  UDP sends
    /// are atomic-or-failed, so a short write is an error, not a partial
    /// success.
    ShortSend,
}

impl SasError {
    /// A fixed diagnostic message naming the exact missing piece.
    pub fn message(&self) -> (r: &'static str)
        ensures
            *self is PeerAddressMissing ==> r@ == "source address not available (maybe the socket is connected)"@,
            *self is LocalAddressMissing ==> r@ == "local address not available (IP_PKTINFO/IPV6_RECVPKTINFO may not be enabled on the socket)"@,
            *self is ShortSend ==> r@ == "datagram was only partially accepted by the kernel"@,
    {
        match self {
            SasError::PeerAddressMissing => "source address not available (maybe the socket is connected)",
            SasError::LocalAddressMissing => "local address not available (IP_PKTINFO/IPV6_RECVPKTINFO may not be enabled on the socket)",
            SasError::ShortSend => "datagram was only partially accepted by the kernel",
        }
    }
}

} // verus!
