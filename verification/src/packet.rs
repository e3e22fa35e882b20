//! The fixed 8-byte wire format of the BGB link protocol.
//!
//! A packet is `[command, data, extra1, extra2, timestamp]` with the 32-bit
//! timestamp little-endian on the wire. Encoding is total and lossless, and
//! decoding any 8 bytes yields a valid packet: unknown `command` values are
//! legal and tolerated.

use vstd::prelude::*;

verus! {

/// BGB link cable protocol packet (8 bytes).
///
/// Commands:
///   1   = version handshake
///   104 = sync1 / master transfer (send a byte to the Game Boy)
///   105 = sync2 / slave response (Game Boy sends a byte back)
///   106 = sync3 / acknowledgement
///   108 = status (running/paused flags)
///   109 = want disconnect
#[derive(Debug, Clone, Copy, PartialEq, Eq, Structural)]
pub struct BgbPacket {
    pub command: u8,
    pub data: u8,
    pub extra1: u8,
    pub extra2: u8,
    pub timestamp: u32,
}

/// The 8-byte wire encoding of a packet: the four single-byte fields followed
/// by the timestamp in little-endian order.
pub open spec fn packet_bytes(p: BgbPacket) -> Seq<u8> {
    seq![
        p.command,
        p.data,
        p.extra1,
        p.extra2,
        (p.timestamp & 0xff) as u8,
        ((p.timestamp >> 8) & 0xff) as u8,
        ((p.timestamp >> 16) & 0xff) as u8,
        ((p.timestamp >> 24) & 0xff) as u8,
    ]
}

/// The packet an 8-byte buffer decodes to. Total: any 8 bytes are legal.
pub open spec fn packet_of(b: Seq<u8>) -> BgbPacket
    recommends
        b.len() == 8,
{
    BgbPacket {
        command: b[0],
        data: b[1],
        extra1: b[2],
        extra2: b[3],
        timestamp: (b[4] as u32) | (b[5] as u32) << 8 | (b[6] as u32) << 16 | (b[7] as u32) << 24,
    }
}

impl BgbPacket {
    pub fn new(command: u8, data: u8, extra1: u8, extra2: u8, timestamp: u32) -> (p: Self)
        ensures
            p == (BgbPacket { command, data, extra1, extra2, timestamp }),
    {
        Self { command, data, extra1, extra2, timestamp }
    }

    /// Encode into the 8-byte wire format.
    pub fn to_bytes(&self) -> (r: [u8; 8])
        ensures
            r@ == packet_bytes(*self),
    {
        let ts = self.timestamp;
        let r = [
            self.command,
            self.data,
            self.extra1,
            self.extra2,
            (ts & 0xff) as u8,
            ((ts >> 8) & 0xff) as u8,
            ((ts >> 16) & 0xff) as u8,
            ((ts >> 24) & 0xff) as u8,
        ];
        proof {
            assert(r@ =~= packet_bytes(*self));
        }
        r
    }

    /// Decode 8 bytes. No error path: any buffer of 8 bytes is a legal packet.
    pub fn from_bytes(b: [u8; 8]) -> (p: Self)
        ensures
            p == packet_of(b@),
    {
        Self {
            command: b[0],
            data: b[1],
            extra1: b[2],
            extra2: b[3],
            timestamp: (b[4] as u32) | (b[5] as u32) << 8 | (b[6] as u32) << 16
                | (b[7] as u32) << 24,
        }
    }
}

/// Decoding inverts encoding: every representable packet survives the wire
/// round trip unchanged.
pub proof fn lemma_packet_round_trip(p: BgbPacket)
    ensures
        packet_of(packet_bytes(p)) == p,
{
    let ts = p.timestamp;
    let b4 = (ts & 0xff) as u8;
    let b5 = ((ts >> 8) & 0xff) as u8;
    let b6 = ((ts >> 16) & 0xff) as u8;
    let b7 = ((ts >> 24) & 0xff) as u8;
    assert(((ts & 0xff) as u8 as u32) | (((ts >> 8) & 0xff) as u8 as u32) << 8
        | (((ts >> 16) & 0xff) as u8 as u32) << 16 | (((ts >> 24) & 0xff) as u8 as u32) << 24
        == ts) by (bit_vector);
}

/// Encoding also inverts decoding: any 8-byte buffer re-encodes to itself,
/// so unknown commands pass through the codec untouched.
pub proof fn lemma_bytes_round_trip(b: Seq<u8>)
    requires
        b.len() == 8,
    ensures
        packet_bytes(packet_of(b)) == b,
{
    let x4 = b[4];
    let x5 = b[5];
    let x6 = b[6];
    let x7 = b[7];
    let ts = (x4 as u32) | (x5 as u32) << 8 | (x6 as u32) << 16 | (x7 as u32) << 24;
    assert((ts & 0xff) as u8 == x4 && ((ts >> 8) & 0xff) as u8 == x5 && ((ts >> 16) & 0xff) as u8
        == x6 && ((ts >> 24) & 0xff) as u8 == x7) by (bit_vector)
        requires
            ts == (x4 as u32) | (x5 as u32) << 8 | (x6 as u32) << 16 | (x7 as u32) << 24,
    ;
    assert(packet_bytes(packet_of(b)) =~= b);
}

} // verus!
