//! Checks of this library's hard-coded protocol numbers and record sizes
//! against the platform's own definitions in libc.

use udp_sas_mio::addr::AddressFamily;
use udp_sas_mio::codec::{CMSG_HEADER_LEN, V4_RECORD_LEN, V6_RECORD_LEN};
use udp_sas_mio::codec::{LEVEL_IP, LEVEL_IPV6, TYPE_IPV6_PKTINFO, TYPE_IP_PKTINFO};
use udp_sas_mio::sockopt::pktinfo_option;

#[test]
fn option_constants_match_libc() {
    let v4 = pktinfo_option(AddressFamily::V4);
    assert_eq!(v4.level, libc::IPPROTO_IP);
    assert_eq!(v4.name, libc::IP_PKTINFO);
    let v6 = pktinfo_option(AddressFamily::V6);
    assert_eq!(v6.level, libc::IPPROTO_IPV6);
    assert_eq!(v6.name, libc::IPV6_RECVPKTINFO);
}

#[test]
fn record_level_and_type_bytes_match_libc() {
    assert_eq!(LEVEL_IP as i32, libc::IPPROTO_IP);
    assert_eq!(TYPE_IP_PKTINFO as i32, libc::IP_PKTINFO);
    assert_eq!(LEVEL_IPV6 as i32, libc::IPPROTO_IPV6);
    assert_eq!(TYPE_IPV6_PKTINFO as i32, libc::IPV6_PKTINFO);
}

/// A record is a 16-byte header followed by its data: the header size and
/// the two packet-info structure sizes give the record lengths the codec
/// builds and expects.
#[test]
fn record_sizes_match_libc() {
    assert_eq!(std::mem::size_of::<libc::cmsghdr>(), CMSG_HEADER_LEN);
    assert_eq!(std::mem::size_of::<libc::in_pktinfo>(), V4_RECORD_LEN - CMSG_HEADER_LEN);
    assert_eq!(std::mem::size_of::<libc::in6_pktinfo>(), V6_RECORD_LEN - CMSG_HEADER_LEN);
}
