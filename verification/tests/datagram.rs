//! Tests of the send/receive decision logic and the socket-option
//! arguments.

use udp_sas_mio::addr::{AddressFamily, Endpoint, IpAddress, SasError};
use udp_sas_mio::datagram::{recv_outcome, recv_resolve, send_control, send_result};
use udp_sas_mio::sockopt::pktinfo_option;

fn peer_a() -> Endpoint {
    Endpoint { ip: IpAddress::V4([127, 0, 0, 1]), port: 40001 }
}

/// The core of the ping scenario: a 4-byte payload arrives from a known
/// peer with a packet-info record for 127.0.0.1, and the receive resolves
/// to exactly (4, peer, 127.0.0.1).
#[test]
fn recv_resolve_ping() {
    let local = IpAddress::V4([127, 0, 0, 1]);
    let control = send_control(Some(&local));
    let payload = b"ping";
    let r = recv_resolve(payload.len(), Some(peer_a()), &control);
    assert_eq!(r, Ok((4, peer_a(), local)));
}

/// The reply direction of the same scenario, with an IPv6 socket pair.
#[test]
fn recv_resolve_pong_v6() {
    let mut loopback = [0u8; 16];
    loopback[15] = 1;
    let local = IpAddress::V6(loopback);
    let peer = Endpoint { ip: IpAddress::V6(loopback), port: 40002 };
    let control = send_control(Some(&local));
    let r = recv_resolve(4, Some(peer), &control);
    assert_eq!(r, Ok((4, peer, local)));
}

/// Without destination reporting the kernel attaches no packet-info
/// record, and every receive reports the missing-destination error —
/// never a made-up address.
#[test]
fn recv_resolve_no_metadata_is_local_missing() {
    let r = recv_resolve(4, Some(peer_a()), &[]);
    assert_eq!(r, Err(SasError::LocalAddressMissing));

    // A foreign record alone is still "no metadata".
    let foreign: Vec<u8> =
        vec![24, 0, 0, 0, 0, 0, 0, 0, 1, 0, 0, 0, 29, 0, 0, 0, 9, 9, 9, 9, 9, 9, 9, 9];
    let r2 = recv_resolve(4, Some(peer_a()), &foreign);
    assert_eq!(r2, Err(SasError::LocalAddressMissing));
}

#[test]
fn recv_resolve_no_peer_is_peer_missing() {
    let local = IpAddress::V4([127, 0, 0, 1]);
    let control = send_control(Some(&local));
    let r = recv_resolve(4, None, &control);
    assert_eq!(r, Err(SasError::PeerAddressMissing));
}

/// The two-stage interface keeps the missing destination as a `None`
/// rather than an error.
#[test]
fn recv_outcome_keeps_none_local() {
    let r = recv_outcome(4, Some(peer_a()), &[]);
    assert_eq!(r, Ok((4, peer_a(), None)));

    let local = IpAddress::V4([10, 0, 0, 9]);
    let control = send_control(Some(&local));
    let r2 = recv_outcome(7, Some(peer_a()), &control);
    assert_eq!(r2, Ok((7, peer_a(), Some(local))));

    assert_eq!(recv_outcome(0, None, &[]), Err(SasError::PeerAddressMissing));
}

/// A plain send (no chosen source) attaches no ancillary data.
#[test]
fn send_control_none_is_empty() {
    assert_eq!(send_control(None), Vec::<u8>::new());
}

/// Byte-count fidelity on the send side: the full payload length is a
/// success with exactly that count, anything else is an error.
#[test]
fn send_result_full_or_error() {
    assert_eq!(send_result(4, 4), Ok(4));
    assert_eq!(send_result(0, 0), Ok(0));
    assert_eq!(send_result(3, 4), Err(SasError::ShortSend));
    assert_eq!(send_result(0, 4), Err(SasError::ShortSend));
}

#[test]
fn pktinfo_option_per_family() {
    let v4 = pktinfo_option(AddressFamily::V4);
    assert_eq!((v4.level, v4.name, v4.value), (0, 8, 1));
    let v6 = pktinfo_option(AddressFamily::V6);
    assert_eq!((v6.level, v6.name, v6.value), (41, 49, 1));
}

/// Enabling twice computes the very same call twice.
#[test]
fn pktinfo_option_is_stable() {
    assert_eq!(pktinfo_option(AddressFamily::V4), pktinfo_option(AddressFamily::V4));
    assert_eq!(pktinfo_option(AddressFamily::V6), pktinfo_option(AddressFamily::V6));
}

#[test]
fn error_messages_name_the_missing_piece() {
    assert_eq!(
        SasError::PeerAddressMissing.message(),
        "source address not available (maybe the socket is connected)"
    );
    assert_eq!(
        SasError::LocalAddressMissing.message(),
        "local address not available (IP_PKTINFO/IPV6_RECVPKTINFO may not be enabled on the socket)"
    );
    assert_eq!(SasError::ShortSend.message(), "datagram was only partially accepted by the kernel");
}

#[test]
fn family_of_values() {
    assert_eq!(IpAddress::V4([0, 0, 0, 0]).family(), AddressFamily::V4);
    assert_eq!(IpAddress::V6([0u8; 16]).family(), AddressFamily::V6);
    assert_eq!(peer_a().family(), AddressFamily::V4);
}
