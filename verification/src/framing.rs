//! Length-prefixed message framing: a four-byte little-endian length followed
//! by that many payload bytes.

use vstd::prelude::*;
use crate::bytes::append_bytes;

verus! {

/// Largest payload, in bytes, that a peer may announce in a frame header.
pub const MAX_IPC_MSG_SIZE: usize = 65536;

/// The number that four bytes encode, least significant byte first.
pub open spec fn le_value(header: Seq<u8>) -> int
    recommends
        header.len() == 4,
{
    header[0] as int + header[1] as int * 0x100 + header[2] as int * 0x1_0000 + header[3] as int
        * 0x100_0000
}

/// The payload length that a header announces, unless it is over the limit.
pub open spec fn announced_length(header: Seq<u8>) -> Option<int>
    recommends
        header.len() == 4,
{
    if le_value(header) <= MAX_IPC_MSG_SIZE {
        Some(le_value(header))
    } else {
        None
    }
}

/// The header that announces a payload of `len` bytes: the low 32 bits of
/// `len`, least significant byte first.
pub open spec fn header_for(len: int) -> Seq<u8> {
    seq![
        (len % 0x100) as u8,
        (len / 0x100 % 0x100) as u8,
        (len / 0x1_0000 % 0x100) as u8,
        (len / 0x100_0000 % 0x100) as u8,
    ]
}

/// Reads a frame header. Returns the announced payload length when it is
/// within the limit, and `None` when the peer asks for more: the connection
/// is then to be dropped without reading further.
pub fn frame_length(header: [u8; 4]) -> (res: Option<usize>)
    ensures
        match res {
            Some(len) => announced_length(header@) == Some(len as int),
            None => announced_length(header@).is_none(),
        },
{
    let b0: u64 = header[0] as u64;
    let b1: u64 = header[1] as u64;
    let b2: u64 = header[2] as u64;
    let b3: u64 = header[3] as u64;
    let len: u64 = b0 + b1 * 0x100 + b2 * 0x1_0000 + b3 * 0x100_0000;
    if len > 65536 {
        None
    } else {
        Some(len as usize)
    }
}

/// Writes the header for a payload of `len` bytes. A length that does not
/// fit in 32 bits is cut to its low 32 bits.
pub fn frame_header(len: usize) -> (header: [u8; 4])
    ensures
        header@ == header_for(len as int),
{
    let header: [u8; 4] = [
        (len % 0x100) as u8,
        (len / 0x100 % 0x100) as u8,
        (len / 0x1_0000 % 0x100) as u8,
        (len / 0x100_0000 % 0x100) as u8,
    ];
    assert(header@ =~= header_for(len as int));
    header
}

/// Frames a payload: its header, then the payload itself.
pub fn encode_frame(payload: &[u8]) -> (frame: Vec<u8>)
    ensures
        frame@ == header_for(payload@.len() as int) + payload@,
{
    let header = frame_header(payload.len());
    let mut frame: Vec<u8> = Vec::new();
    frame.push(header[0]);
    frame.push(header[1]);
    frame.push(header[2]);
    frame.push(header[3]);
    assert(frame@ =~= header_for(payload@.len() as int));
    append_bytes(&mut frame, payload);
    frame
}

/// A header written for a length reads back as that length whenever the
/// length fits in 32 bits, and is accepted exactly when the length is within
/// the limit.
pub proof fn law_header_round_trip(len: int)
    requires
        0 <= len < 0x1_0000_0000,
    ensures
        header_for(len).len() == 4,
        le_value(header_for(len)) == len,
        len <= MAX_IPC_MSG_SIZE ==> announced_length(header_for(len)) == Some(len),
        len > MAX_IPC_MSG_SIZE ==> announced_length(header_for(len)).is_none(),
{
}

/// A header longer than 32 bits can say is cut: it announces the length
/// modulo 2^32.
pub proof fn law_header_wraps(len: int)
    requires
        0 <= len,
    ensures
        le_value(header_for(len)) == len % 0x1_0000_0000,
{
}

} // verus!
