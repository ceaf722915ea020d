//! The send/receive decision logic around one `sendmsg`/`recvmsg` call.
//!
//! The system calls themselves live outside this library.  On the way out,
//! [`send_control`] builds the control bytes to attach and [`send_result`]
//! judges the byte count the kernel reported.  On the way back,
//! [`recv_outcome`] and [`recv_resolve`] turn the raw outcome of a receive
//! — byte count, reported peer, control bytes — into either the
//! `(length, peer, local address)` triple or the precise error naming what
//! was missing.

use vstd::prelude::*;

use crate::addr::{family_of, Endpoint, IpAddress, SasError};
use crate::codec::{decode_chain, decode_destination, encode_source, encode_source_spec, ip_bytes};

verus! {

/// The control bytes to attach to an outgoing datagram: a packet-info
/// record carrying `source` when a source address is chosen, and no
/// ancillary data at all otherwise (a plain send).
pub fn send_control(source: Option<&IpAddress>) -> (r: Vec<u8>)
    ensures
        match source {
            Some(ip) => r@ == encode_source_spec(*ip),
            None => r@ == Seq::<u8>::empty(),
        },
{
    match source {
        Some(ip) => encode_source(ip),
        None => Vec::new(),
    }
}

/// Judges the byte count the kernel accepted for a send.  UDP sends are
/// atomic-or-failed, so anything but the full payload length is an error,
/// never a partial success.
pub fn send_result(accepted: usize, payload_len: usize) -> (r: Result<usize, SasError>)
    ensures
        accepted == payload_len ==> r == Ok::<usize, SasError>(accepted),
        accepted != payload_len ==> r == Err::<usize, SasError>(SasError::ShortSend),
{
    if accepted == payload_len {
        Ok(accepted)
    } else {
        Err(SasError::ShortSend)
    }
}

/// What a completed receive means: the payload length unchanged, the peer
/// endpoint the kernel reported, and the destination address decoded from
/// the control bytes — `None` when no packet-info record is there, e.g.
/// when destination reporting was never enabled.
///
/// Fails only when the kernel reported no peer address, which happens on a
/// connected socket; the datagram's own data never causes a failure here.
pub fn recv_outcome(len: usize, peer: Option<Endpoint>, control: &[u8]) -> (r: Result<
    (usize, Endpoint, Option<IpAddress>),
    SasError,
>)
    ensures
        match r {
            Ok(t) => {
                &&& t.0 == len
                &&& peer == Some(t.1)
                &&& match t.2 {
                    Some(ip) => decode_chain(control@) == Some((family_of(ip), ip_bytes(ip))),
                    None => decode_chain(control@) is None,
                }
            },
            Err(e) => peer is None && e == SasError::PeerAddressMissing,
        },
{
    match peer {
        None => Err(SasError::PeerAddressMissing),
        Some(p) => Ok((len, p, decode_destination(control))),
    }
}

/// The uniform receive interface: like [`recv_outcome`], but a receive
/// without a decodable destination address is upgraded from a `None` into
/// its own error, so every success carries a concrete local address.
///
/// Exactly one of three things happens: no peer address was reported and
/// the result is [`SasError::PeerAddressMissing`]; a peer was reported but
/// the control bytes hold no packet-info record and the result is
/// [`SasError::LocalAddressMissing`]; or both were present and the result
/// is `Ok((len, peer, local))` with the local address decoded from the
/// control bytes.
pub fn recv_resolve(len: usize, peer: Option<Endpoint>, control: &[u8]) -> (r: Result<
    (usize, Endpoint, IpAddress),
    SasError,
>)
    ensures
        match r {
            Ok(t) => {
                &&& t.0 == len
                &&& peer == Some(t.1)
                &&& decode_chain(control@) == Some((family_of(t.2), ip_bytes(t.2)))
            },
            Err(e) => {
                ||| e == SasError::PeerAddressMissing && peer is None
                ||| e == SasError::LocalAddressMissing && peer is Some && decode_chain(
                    control@,
                ) is None
            },
        },
{
    match recv_outcome(len, peer, control) {
        Err(e) => Err(e),
        Ok((n, p, local)) => match local {
            Some(ip) => Ok((n, p, ip)),
            None => Err(SasError::LocalAddressMissing),
        },
    }
}

} // verus!

