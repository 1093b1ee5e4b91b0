//! Classification of decapsulated IP frames.
//!
//! The tunnel routes an inbound frame by the destination port of the TCP
//! segment it carries. A frame is routable only if it is IPv4, carries TCP,
//! and is long enough to hold the destination port field; anything else is
//! bound for the sink.

use vstd::prelude::*;

verus! {

/// Number of bytes in the IPv4 header, per the frame's IHL field.
pub open spec fn spec_ipv4_header_bytes(frame: Seq<u8>) -> int
    recommends
        frame.len() >= 1,
{
    4 * (frame[0] as int % 16)
}

/// A frame that is well-formed enough to route: IPv4 (version 4, IHL at
/// least 5), protocol TCP, and long enough to hold the TCP destination port
/// (bytes 2 and 3 of the TCP header).
pub open spec fn spec_is_ipv4_tcp(frame: Seq<u8>) -> bool {
    &&& frame.len() >= 20
    &&& frame[0] as int / 16 == 4
    &&& frame[0] as int % 16 >= 5
    &&& frame[9] == 6
    &&& frame.len() >= spec_ipv4_header_bytes(frame) + 4
}

/// The destination port of the TCP segment inside such a frame.
pub open spec fn spec_tcp_dest_port(frame: Seq<u8>) -> u16
    recommends
        spec_is_ipv4_tcp(frame),
{
    (frame[spec_ipv4_header_bytes(frame) + 2] as int * 256 + frame[spec_ipv4_header_bytes(frame)
        + 3] as int) as u16
}

/// The demultiplexing key of a frame: the inner TCP destination port, or
/// `None` for frames that cannot be routed.
pub open spec fn spec_classify(frame: Seq<u8>) -> Option<u16> {
    if spec_is_ipv4_tcp(frame) {
        Some(spec_tcp_dest_port(frame))
    } else {
        None
    }
}

/// Reads the inner TCP destination port out of a decapsulated frame, or
/// `None` when the frame is not routable IPv4/TCP.
pub fn classify(frame: &Vec<u8>) -> (r: Option<u16>)
    ensures
        r == spec_classify(frame@),
{
    if frame.len() < 20 {
        return None;
    }
    let first = frame[0];
    if first / 16 != 4 {
        return None;
    }
    let ihl = first % 16;
    if ihl < 5 {
        return None;
    }
    if frame[9] != 6 {
        return None;
    }
    let header = (ihl as usize) * 4;
    if frame.len() < header + 4 {
        return None;
    }
    let hi = frame[header + 2];
    let lo = frame[header + 3];
    Some((hi as u16) * 256 + (lo as u16))
}

} // verus!
