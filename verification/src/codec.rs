//! The ancillary-data codec: building and parsing the control-message
//! buffer that carries a datagram's source/destination address.
//!
//! A control buffer is a chain of records.  Each record starts with a
//! 16-byte header — `cmsg_len` (a little-endian 64-bit byte count covering
//! header plus data), `cmsg_level` and `cmsg_type` (little-endian 32-bit
//! each) — followed by `cmsg_len - 16` data bytes and padding up to the
//! next multiple of eight.  This is the Linux 64-bit layout; the kernel
//! reads and writes these bytes directly.
//!
//! Two record kinds matter here:
//!
//! - level `IPPROTO_IP` (0), type `IP_PKTINFO` (8): an `in_pktinfo`
//!   structure — interface index (4 bytes), `ipi_spec_dst` (4 bytes: the
//!   source to use on a send, the local address on a receive), `ipi_addr`
//!   (4 bytes: the header destination, unused here);
//! - level `IPPROTO_IPV6` (41), type `IPV6_PKTINFO` (50): an `in6_pktinfo`
//!   structure — `ipi6_addr` (16 bytes: the same role as `ipi_spec_dst`),
//!   then the interface index (4 bytes).
//!
//! Encoding produces exactly one record with the address in its place and
//! every other field zero.  Decoding walks the chain, skips records of any
//! other level/type, and returns the address of the first packet-info
//! record; a malformed chain counts as "not found" from the first bad
//! record on, so no byte outside the buffer is ever read.

use vstd::prelude::*;

use crate::addr::{family_of, AddressFamily, IpAddress};

verus! {

/// Bytes in a record header: `cmsg_len` + `cmsg_level` + `cmsg_type`.
pub const CMSG_HEADER_LEN: usize = 16;

/// Total bytes of an IPv4 packet-info record: header + 12-byte `in_pktinfo`.
pub const V4_RECORD_LEN: usize = 28;

/// Total bytes of an IPv6 packet-info record: header + 20-byte `in6_pktinfo`.
pub const V6_RECORD_LEN: usize = 36;

/// Low byte of `IPPROTO_IP`, the level of an IPv4 packet-info record.
pub const LEVEL_IP: u8 = 0;

/// Low byte of `IP_PKTINFO`, the type of an IPv4 packet-info record.
pub const TYPE_IP_PKTINFO: u8 = 8;

/// Low byte of `IPPROTO_IPV6`, the level of an IPv6 packet-info record.
pub const LEVEL_IPV6: u8 = 41;

/// Low byte of `IPV6_PKTINFO`, the type of an IPv6 packet-info record.
pub const TYPE_IPV6_PKTINFO: u8 = 50;

/// The raw bytes of an address, in network order: four for IPv4, sixteen
/// for IPv6.
pub open spec fn ip_bytes(ip: IpAddress) -> Seq<u8> {
    match ip {
        IpAddress::V4(a) => a@,
        IpAddress::V6(a) => a@,
    }
}

/// The value of the little-endian 64-bit `cmsg_len` field at the start of
/// a record.
pub open spec fn cmsg_len_val(b: Seq<u8>) -> int {
    b[0] + 0x100 * b[1] + 0x1_0000 * b[2] + 0x100_0000 * b[3] + 0x1_0000_0000 * b[4]
        + 0x100_0000_0000 * b[5] + 0x1_0000_0000_0000 * b[6] + 0x100_0000_0000_0000 * b[7]
}

/// Whether the record starting at the head of `b` carries the given
/// level and type, both of which are single-byte values on this platform.
pub open spec fn is_record(b: Seq<u8>, level: u8, ty: u8) -> bool {
    &&& b[8] == level
    &&& b[9] == 0
    &&& b[10] == 0
    &&& b[11] == 0
    &&& b[12] == ty
    &&& b[13] == 0
    &&& b[14] == 0
    &&& b[15] == 0
}

/// A record of `n` bytes is followed by padding up to the next multiple
/// of eight: the next record starts `align8(n)` bytes in.
pub open spec fn align8(n: int) -> int {
    n + ((8 - n % 8) % 8)
}

/// What a control-message chain reports as the datagram's destination
/// (local) address: the family and address bytes of the first packet-info
/// record, or `None` if no well-formed packet-info record is present.
///
/// Records of any other level/type are skipped.  A record whose `cmsg_len`
/// is shorter than a header, longer than the remaining buffer, or — for a
/// packet-info record — too short for its address structure is malformed,
/// and ends the scan as "not found".
pub open spec fn decode_chain(b: Seq<u8>) -> Option<(AddressFamily, Seq<u8>)>
    decreases b.len(),
{
    if b.len() < CMSG_HEADER_LEN {
        None
    } else {
        let l = cmsg_len_val(b);
        if l < CMSG_HEADER_LEN || l > b.len() {
            None
        } else if is_record(b, LEVEL_IP, TYPE_IP_PKTINFO) {
            if l >= V4_RECORD_LEN {
                // in_pktinfo: 4 bytes of interface index, then ipi_spec_dst
                Some((AddressFamily::V4, b.subrange(20, 24)))
            } else {
                None
            }
        } else if is_record(b, LEVEL_IPV6, TYPE_IPV6_PKTINFO) {
            if l >= V6_RECORD_LEN {
                // in6_pktinfo: ipi6_addr comes first
                Some((AddressFamily::V6, b.subrange(16, 32)))
            } else {
                None
            }
        } else if align8(l) > b.len() {
            None
        } else {
            decode_chain(b.skip(align8(l)))
        }
    }
}

/// The control buffer that selects `a` (four address bytes) as an IPv4
/// datagram's source: one `IP_PKTINFO` record whose `ipi_spec_dst` holds
/// `a` and whose other fields are zero.
pub open spec fn encode_v4(a: Seq<u8>) -> Seq<u8> {
    seq![
        28u8, 0, 0, 0, 0, 0, 0, 0, // cmsg_len = 28, little-endian
        0, 0, 0, 0, // cmsg_level = IPPROTO_IP
        8, 0, 0, 0, // cmsg_type = IP_PKTINFO
        0, 0, 0, 0, // ipi_ifindex: any interface
        a[0], a[1], a[2], a[3], // ipi_spec_dst: the chosen source
        0, 0, 0, 0, // ipi_addr: unused on send
    ]
}

/// The control buffer that selects `a` (sixteen address bytes) as an IPv6
/// datagram's source: one `IPV6_PKTINFO` record whose `ipi6_addr` holds
/// `a` and whose interface index is zero.
pub open spec fn encode_v6(a: Seq<u8>) -> Seq<u8> {
    seq![
        36u8, 0, 0, 0, 0, 0, 0, 0, // cmsg_len = 36, little-endian
        41, 0, 0, 0, // cmsg_level = IPPROTO_IPV6
        50, 0, 0, 0, // cmsg_type = IPV6_PKTINFO
    ] + a + seq![
        0u8, 0, 0, 0, // ipi6_ifindex: any interface
    ]
}

/// The control buffer that selects `ip` as a datagram's source address.
pub open spec fn encode_source_spec(ip: IpAddress) -> Seq<u8> {
    match ip {
        IpAddress::V4(a) => encode_v4(a@),
        IpAddress::V6(a) => encode_v6(a@),
    }
}

/// Builds the control buffer that, attached to a send, instructs the
/// kernel to use `local` as the datagram's source address.
///
/// The buffer holds exactly one packet-info record of `local`'s own
/// family, so an address is never truncated or re-encoded under the other
/// family.
pub fn encode_source(local: &IpAddress) -> (r: Vec<u8>)
    ensures
        r@ == encode_source_spec(*local),
{
    match local {
        IpAddress::V4(a) => {
            let r: Vec<u8> = vec![
                28u8, 0, 0, 0, 0, 0, 0, 0, // cmsg_len
                0, 0, 0, 0, // cmsg_level
                8, 0, 0, 0, // cmsg_type
                0, 0, 0, 0, // ipi_ifindex
                a[0], a[1], a[2], a[3], // ipi_spec_dst
                0, 0, 0, 0, // ipi_addr
            ];
            proof {
                assert(r@ =~= encode_v4(a@));
            }
            r
        },
        IpAddress::V6(a) => {
            let r: Vec<u8> = vec![
                36u8, 0, 0, 0, 0, 0, 0, 0, // cmsg_len
                41, 0, 0, 0, // cmsg_level
                50, 0, 0, 0, // cmsg_type
                a[0], a[1], a[2], a[3], a[4], a[5], a[6], a[7], // ipi6_addr
                a[8], a[9], a[10], a[11], a[12], a[13], a[14], a[15],
                0, 0, 0, 0, // ipi6_ifindex
            ];
            proof {
                assert(r@ =~= encode_v6(a@));
            }
            r
        },
    }
}

/// Law: the codec round-trips.  The control buffer built for any address
/// decodes back to exactly that address, with its family intact — a
/// wildcard-bound receiver that is handed the buffer a sender built for
/// address `A` learns `A`, never a truncated or re-encoded value.
pub proof fn lemma_encode_decode_roundtrip(ip: IpAddress)
    ensures
        decode_chain(encode_source_spec(ip)) == Some((family_of(ip), ip_bytes(ip))),
{
    match ip {
        IpAddress::V4(a) => {
            let e = encode_v4(a@);
            assert(cmsg_len_val(e) == 28);
            assert(e.subrange(20, 24) =~= a@);
        },
        IpAddress::V6(a) => {
            let e = encode_v6(a@);
            assert(cmsg_len_val(e) == 36);
            assert(e.subrange(16, 32) =~= a@);
        },
    }
}

/// Law: the codec is family-exclusive.  The control buffer built for an
/// address carries the level and type of that address's own family and can
/// never be read as a packet-info record of the other family: an IPv6
/// address is never silently truncated into an IPv4 record, nor an IPv4
/// address widened.  Together with the round-trip law, what a mixed-family
/// send hands the kernel is a well-formed record of the address's true
/// family, which the transport then rejects rather than misdelivers.
pub proof fn lemma_encode_family_exclusive(ip: IpAddress)
    ensures
        family_of(ip) is V4 ==> is_record(encode_source_spec(ip), LEVEL_IP, TYPE_IP_PKTINFO)
            && !is_record(encode_source_spec(ip), LEVEL_IPV6, TYPE_IPV6_PKTINFO),
        family_of(ip) is V6 ==> is_record(encode_source_spec(ip), LEVEL_IPV6, TYPE_IPV6_PKTINFO)
            && !is_record(encode_source_spec(ip), LEVEL_IP, TYPE_IP_PKTINFO),
{
}

/// Law: a well-formed record of any other level/type is skipped, and the
/// scan goes on with the rest of the chain unchanged.
pub proof fn lemma_decode_skips_foreign(b: Seq<u8>)
    requires
        b.len() >= CMSG_HEADER_LEN,
        CMSG_HEADER_LEN <= cmsg_len_val(b) <= b.len(),
        !is_record(b, LEVEL_IP, TYPE_IP_PKTINFO),
        !is_record(b, LEVEL_IPV6, TYPE_IPV6_PKTINFO),
        align8(cmsg_len_val(b)) <= b.len(),
    ensures
        decode_chain(b) == decode_chain(b.skip(align8(cmsg_len_val(b)))),
{
}

/// Law: an empty control buffer — what the kernel delivers when
/// destination reporting was never enabled — decodes to no address at all.
pub proof fn lemma_decode_empty()
    ensures
        decode_chain(Seq::<u8>::empty()) is None,
{
}

/// Reads the little-endian 64-bit `cmsg_len` field of the record that
/// starts `off` bytes into `b`.
fn read_cmsg_len(b: &[u8], off: usize) -> (r: u64)
    requires
        off + 8 <= b@.len(),
    ensures
        r == cmsg_len_val(b@.skip(off as int)),
{
    (b[off] as u64) + 0x100 * (b[off + 1] as u64) + 0x1_0000 * (b[off + 2] as u64) + 0x100_0000
        * (b[off + 3] as u64) + 0x1_0000_0000 * (b[off + 4] as u64) + 0x100_0000_0000
        * (b[off + 5] as u64) + 0x1_0000_0000_0000 * (b[off + 6] as u64) + 0x100_0000_0000_0000
        * (b[off + 7] as u64)
}

/// Scans a received control-message chain and extracts the destination
/// (local) address of the first packet-info record, of either family.
///
/// Returns `None` when no well-formed packet-info record is present — for
/// example when destination reporting was never enabled on the socket, so
/// the kernel attached no such record.  Unrecognized record types are
/// skipped; a malformed chain is treated as "not found" from the first bad
/// record on.
#[verifier::rlimit(50)]
pub fn decode_destination(control: &[u8]) -> (r: Option<IpAddress>)
    ensures
        match r {
            Some(ip) => decode_chain(control@) == Some((family_of(ip), ip_bytes(ip))),
            None => decode_chain(control@) is None,
        },
{
    let ghost whole: Seq<u8> = control@;
    let mut off: usize = 0;
    proof {
        assert(control@.skip(0) =~= control@);
    }
    loop
        invariant
            off <= control@.len(),
            control@ == whole,
            decode_chain(whole) == decode_chain(control@.skip(off as int)),
        decreases control@.len() - off,
    {
        let ghost s: Seq<u8> = control@.skip(off as int);
        let rem = control.len() - off;
        if rem < CMSG_HEADER_LEN {
            return None;
        }
        let l64 = read_cmsg_len(control, off);
        if l64 < CMSG_HEADER_LEN as u64 || l64 > rem as u64 {
            return None;
        }
        let l = l64 as usize;
        let level_v4 = control[off + 8] == LEVEL_IP && control[off + 9] == 0
            && control[off + 10] == 0 && control[off + 11] == 0;
        let type_v4 = control[off + 12] == TYPE_IP_PKTINFO && control[off + 13] == 0
            && control[off + 14] == 0 && control[off + 15] == 0;
        if level_v4 && type_v4 {
            if l >= V4_RECORD_LEN {
                let a: [u8; 4] = [
                    control[off + 20],
                    control[off + 21],
                    control[off + 22],
                    control[off + 23],
                ];
                proof {
                    assert(a@ =~= s.subrange(20, 24));
                }
                return Some(IpAddress::V4(a));
            }
            return None;
        }
        let level_v6 = control[off + 8] == LEVEL_IPV6 && control[off + 9] == 0
            && control[off + 10] == 0 && control[off + 11] == 0;
        let type_v6 = control[off + 12] == TYPE_IPV6_PKTINFO && control[off + 13] == 0
            && control[off + 14] == 0 && control[off + 15] == 0;
        if level_v6 && type_v6 {
            if l >= V6_RECORD_LEN {
                let a: [u8; 16] = [
                    control[off + 16],
                    control[off + 17],
                    control[off + 18],
                    control[off + 19],
                    control[off + 20],
                    control[off + 21],
                    control[off + 22],
                    control[off + 23],
                    control[off + 24],
                    control[off + 25],
                    control[off + 26],
                    control[off + 27],
                    control[off + 28],
                    control[off + 29],
                    control[off + 30],
                    control[off + 31],
                ];
                proof {
                    assert(a@ =~= s.subrange(16, 32));
                }
                return Some(IpAddress::V6(a));
            }
            return None;
        }
        let pad = (8 - (l % 8)) % 8;
        proof {
            assert(align8(l as int) == l + pad);
        }
        if rem - l < pad {
            return None;
        }
        proof {
            assert(s.skip(l + pad) =~= control@.skip((off + l + pad) as int));
        }
        off = off + l + pad;
    }
}

} // verus!
