//! The link transport state machine.
//!
//! The transport owns the connection to BGB and exposes a single blocking
//! byte-exchange primitive. This module holds the verified decision core of
//! that loop: handshake packet construction, the reassembly buffer that cuts
//! the incoming byte stream into 8-byte packets, initiation of a transfer
//! with a self-advancing link clock, and the handling of every incoming
//! packet (collision, completion, acknowledgement, status, disconnect).
//! The socket itself is driven outside the crate: the caller reads bytes and
//! feeds them in, and performs the sends and deliveries this machine returns.

use vstd::prelude::*;

use crate::packet::{packet_of, BgbPacket};

verus! {

/// Sync1 packets are sent with `extra1 = 0x81`: SC with the internal-clock
/// bit set, declaring the local side the clock master.
pub const SC_MASTER: u8 = 0x81;

/// Sync2 replies carry `extra1 = 0x80`: SC without the clock bit, the slave
/// side of the transfer.
pub const SC_SLAVE: u8 = 0x80;

/// The link clock advances by this fixed step per initiated exchange rather
/// than by wall-clock sampling, so BGB can always process a transfer
/// immediately instead of waiting on "future" time.
pub const CLOCK_STEP: u32 = 8192;

/// The link clock is a 31-bit counter: the top bit of a timestamp is
/// always zero.
pub const CLOCK_LIMIT: u32 = 0x8000_0000;

/// What the transport does with one incoming packet: at most one reply
/// packet to send back, at most one response byte to deliver to the caller
/// whose exchange completed, and whether the peer asked to disconnect.
#[derive(Debug, Clone, Copy, PartialEq, Eq, Structural)]
pub struct PacketOutcome {
    pub reply: Option<BgbPacket>,
    pub deliver: Option<u8>,
    pub disconnect: bool,
}

/// The outcome that changes nothing: no reply, no delivery, no disconnect.
pub open spec fn no_outcome() -> PacketOutcome {
    PacketOutcome { reply: None, deliver: None, disconnect: false }
}

/// The sync1 packet that initiates a transfer of `byte` at clock value `ts`.
pub open spec fn sync1_packet(byte: u8, ts: u32) -> BgbPacket {
    BgbPacket { command: 104, data: byte, extra1: SC_MASTER, extra2: 0, timestamp: ts }
}

/// The sync2 packet answering an offered transfer with `byte`, echoing the
/// peer's timestamp.
pub open spec fn sync2_packet(byte: u8, ts: u32) -> BgbPacket {
    BgbPacket { command: 105, data: byte, extra1: SC_SLAVE, extra2: 0, timestamp: ts }
}

/// The status reply: running, extras zero, echoing the peer's timestamp.
pub open spec fn status_packet(ts: u32) -> BgbPacket {
    BgbPacket { command: 108, data: 1, extra1: 0, extra2: 0, timestamp: ts }
}

/// How the transport reacts to one incoming packet, given whether an
/// exchange is outstanding and the byte it sent. Returns the new value of
/// the outstanding flag and the outcome.
///
/// - sync1 (104) while outstanding is a collision: both sides offered a
///   transfer at once. Reply sync2 with the previously sent byte and
///   complete the outstanding exchange with the incoming data.
/// - sync1 with nothing outstanding is an unsolicited peer transfer: reply
///   sync2 with a null byte and complete nothing.
/// - sync2 (105) while outstanding completes the exchange with the incoming
///   data. A stale sync2 (nothing outstanding) is discarded without effect.
/// - sync3 (106) is echoed back verbatim.
/// - status (108) is answered with a running status echoing the timestamp.
/// - disconnect (109) ends the transport.
/// - Unknown commands are tolerated and ignored.
pub open spec fn spec_handle_packet(outstanding: bool, pending: u8, pkt: BgbPacket) -> (
    bool,
    PacketOutcome,
) {
    if pkt.command == 104 {
        if outstanding {
            (
                false,
                PacketOutcome {
                    reply: Some(sync2_packet(pending, pkt.timestamp)),
                    deliver: Some(pkt.data),
                    disconnect: false,
                },
            )
        } else {
            (
                false,
                PacketOutcome {
                    reply: Some(sync2_packet(0, pkt.timestamp)),
                    deliver: None,
                    disconnect: false,
                },
            )
        }
    } else if pkt.command == 105 {
        if outstanding {
            (false, PacketOutcome { reply: None, deliver: Some(pkt.data), disconnect: false })
        } else {
            (false, no_outcome())
        }
    } else if pkt.command == 106 {
        (outstanding, PacketOutcome { reply: Some(pkt), deliver: None, disconnect: false })
    } else if pkt.command == 108 {
        (
            outstanding,
            PacketOutcome {
                reply: Some(status_packet(pkt.timestamp)),
                deliver: None,
                disconnect: false,
            },
        )
    } else if pkt.command == 109 {
        (outstanding, PacketOutcome { reply: None, deliver: None, disconnect: true })
    } else {
        (outstanding, no_outcome())
    }
}

/// The decision state of the link transport: the single-outstanding-exchange
/// slot, the remembered sent byte, the self-advancing link clock, and the
/// reassembly buffer for the incoming byte stream.
pub struct LinkTransport {
    /// Whether an exchange is outstanding: a sync1 was sent and its response
    /// has not yet arrived. At most one exchange is outstanding at a time.
    waiting_for_response: bool,
    /// The byte sent in the outstanding sync1, repeated in the sync2 reply
    /// if the peer's own sync1 collides with ours.
    pending_byte: u8,
    /// The link clock: a 31-bit counter advanced by `CLOCK_STEP` per
    /// initiated exchange.
    next_timestamp: u32,
    /// Bytes read from the socket and not yet consumed as whole packets.
    read_buf: Vec<u8>,
}

impl LinkTransport {
    /// The link clock keeps its top bit clear.
    pub closed spec fn wf(&self) -> bool {
        self.next_timestamp < CLOCK_LIMIT
    }

    pub closed spec fn outstanding(&self) -> bool {
        self.waiting_for_response
    }

    pub closed spec fn pending(&self) -> u8 {
        self.pending_byte
    }

    pub closed spec fn clock(&self) -> u32 {
        self.next_timestamp
    }

    pub closed spec fn buffered(&self) -> Seq<u8> {
        self.read_buf@
    }

    /// A fresh transport: clock at zero, no exchange outstanding, an empty
    /// reassembly buffer.
    pub fn new() -> (t: Self)
        ensures
            t.wf(),
            !t.outstanding(),
            t.pending() == 0u8,
            t.clock() == 0u32,
            t.buffered() == Seq::<u8>::empty(),
    {
        let t = LinkTransport {
            waiting_for_response: false,
            pending_byte: 0,
            next_timestamp: 0,
            read_buf: Vec::new(),
        };
        proof {
            assert(t.buffered() =~= Seq::<u8>::empty());
        }
        t
    }

    /// Whether a new exchange may be initiated: only once the previous one
    /// has completed or been abandoned.
    pub fn is_idle(&self) -> (r: bool)
        ensures
            r == !self.outstanding(),
    {
        !self.waiting_for_response
    }

    /// Initiate a transfer of `byte`: advance the link clock one step and
    /// build the sync1 packet to send, marking the exchange outstanding and
    /// remembering the sent byte.
    pub fn initiate(&mut self, byte: u8) -> (pkt: BgbPacket)
        requires
            old(self).wf(),
            !old(self).outstanding(),
        ensures
            final(self).wf(),
            final(self).outstanding(),
            final(self).pending() == byte,
            final(self).clock() == (old(self).clock() + CLOCK_STEP) as int % CLOCK_LIMIT as int,
            final(self).buffered() == old(self).buffered(),
            pkt == sync1_packet(byte, final(self).clock()),
    {
        let ts = (self.next_timestamp + CLOCK_STEP) % CLOCK_LIMIT;
        self.next_timestamp = ts;
        self.pending_byte = byte;
        self.waiting_for_response = true;
        BgbPacket { command: 104, data: byte, extra1: SC_MASTER, extra2: 0, timestamp: ts }
    }

    /// Append bytes read from the socket to the reassembly buffer, in
    /// arrival order.
    pub fn push_bytes(&mut self, data: &[u8])
        requires
            old(self).buffered().len() + data@.len() <= usize::MAX,
        ensures
            final(self).buffered() == old(self).buffered() + data@,
            final(self).outstanding() == old(self).outstanding(),
            final(self).pending() == old(self).pending(),
            final(self).clock() == old(self).clock(),
    {
        let mut i: usize = 0;
        while i < data.len()
            invariant
                i <= data@.len(),
                self.read_buf@ == old(self).read_buf@ + data@.take(i as int),
                self.waiting_for_response == old(self).waiting_for_response,
                self.pending_byte == old(self).pending_byte,
                self.next_timestamp == old(self).next_timestamp,
                old(self).read_buf@.len() + data@.len() <= usize::MAX,
            decreases data@.len() - i,
        {
            self.read_buf.push(data[i]);
            i += 1;
            proof {
                assert(self.read_buf@ =~= old(self).read_buf@ + data@.take(i as int));
            }
        }
        proof {
            assert(data@.take(data@.len() as int) =~= data@);
        }
    }

    /// Extract the next complete 8-byte packet from the reassembly buffer,
    /// if one is there, shifting the remainder bytes to the buffer front.
    /// Packets come out in arrival order.
    pub fn next_packet(&mut self) -> (r: Option<BgbPacket>)
        ensures
            final(self).outstanding() == old(self).outstanding(),
            final(self).pending() == old(self).pending(),
            final(self).clock() == old(self).clock(),
            old(self).buffered().len() >= 8 ==> r == Some(packet_of(old(self).buffered().take(8)))
                && final(self).buffered() == old(self).buffered().skip(8),
            old(self).buffered().len() < 8 ==> r == None::<BgbPacket> && final(self).buffered()
                == old(self).buffered(),
    {
        if self.read_buf.len() < 8 {
            return None;
        }
        let head: [u8; 8] = [
            self.read_buf[0],
            self.read_buf[1],
            self.read_buf[2],
            self.read_buf[3],
            self.read_buf[4],
            self.read_buf[5],
            self.read_buf[6],
            self.read_buf[7],
        ];
        proof {
            assert(head@ =~= old(self).buffered().take(8));
        }
        let mut rest: Vec<u8> = Vec::new();
        let mut i: usize = 8;
        while i < self.read_buf.len()
            invariant
                8 <= i <= self.read_buf@.len(),
                self.read_buf@ == old(self).read_buf@,
                self.read_buf@.len() >= 8,
                rest@ == self.read_buf@.subrange(8, i as int),
                self.waiting_for_response == old(self).waiting_for_response,
                self.pending_byte == old(self).pending_byte,
                self.next_timestamp == old(self).next_timestamp,
            decreases self.read_buf@.len() - i,
        {
            let b = self.read_buf[i];
            rest.push(b);
            i += 1;
            proof {
                assert(rest@ =~= self.read_buf@.subrange(8, i as int));
            }
        }
        proof {
            assert(rest@ =~= old(self).buffered().skip(8));
        }
        self.read_buf = rest;
        Some(BgbPacket::from_bytes(head))
    }

    /// React to one complete incoming packet, as `spec_handle_packet` says:
    /// resolve collisions, complete or discard sync2, echo sync3, answer
    /// status, notice disconnect, ignore the rest. Only the outstanding flag
    /// changes; the clock and the buffer are untouched.
    pub fn handle_packet(&mut self, pkt: &BgbPacket) -> (r: PacketOutcome)
        ensures
            (final(self).outstanding(), r) == spec_handle_packet(
                old(self).outstanding(),
                old(self).pending(),
                *pkt,
            ),
            final(self).pending() == old(self).pending(),
            final(self).clock() == old(self).clock(),
            final(self).buffered() == old(self).buffered(),
            final(self).wf() == old(self).wf(),
    {
        match pkt.command {
            104 => {
                if self.waiting_for_response {
                    // Simultaneous exchange: both sides sent sync1. Answer
                    // with our pending byte and take the peer's data as the
                    // outstanding exchange's result.
                    self.waiting_for_response = false;
                    PacketOutcome {
                        reply: Some(
                            BgbPacket {
                                command: 105,
                                data: self.pending_byte,
                                extra1: SC_SLAVE,
                                extra2: 0,
                                timestamp: pkt.timestamp,
                            },
                        ),
                        deliver: Some(pkt.data),
                        disconnect: false,
                    }
                } else {
                    // Peer-initiated transfer while we have nothing to send.
                    PacketOutcome {
                        reply: Some(
                            BgbPacket {
                                command: 105,
                                data: 0,
                                extra1: SC_SLAVE,
                                extra2: 0,
                                timestamp: pkt.timestamp,
                            },
                        ),
                        deliver: None,
                        disconnect: false,
                    }
                }
            },
            105 => {
                if self.waiting_for_response {
                    self.waiting_for_response = false;
                    PacketOutcome { reply: None, deliver: Some(pkt.data), disconnect: false }
                } else {
                    // Stale response: nothing outstanding, discard.
                    PacketOutcome { reply: None, deliver: None, disconnect: false }
                }
            },
            106 => {
                // Acknowledgement: echo back verbatim.
                PacketOutcome { reply: Some(*pkt), deliver: None, disconnect: false }
            },
            108 => {
                PacketOutcome {
                    reply: Some(
                        BgbPacket {
                            command: 108,
                            data: 1,
                            extra1: 0,
                            extra2: 0,
                            timestamp: pkt.timestamp,
                        },
                    ),
                    deliver: None,
                    disconnect: false,
                }
            },
            109 => PacketOutcome { reply: None, deliver: None, disconnect: true },
            _ => PacketOutcome { reply: None, deliver: None, disconnect: false },
        }
    }
}

/// The version packet that opens the handshake: protocol version 1,
/// accepted maximum 4.
pub fn version_packet() -> (p: BgbPacket)
    ensures
        p == (BgbPacket { command: 1, data: 1, extra1: 4, extra2: 0, timestamp: 0u32 }),
{
    BgbPacket { command: 1, data: 1, extra1: 4, extra2: 0, timestamp: 0 }
}

/// Whether the peer's handshake answer is acceptable: it must be a version
/// packet. Anything else fails the handshake fatally.
pub fn handshake_ok(resp: &BgbPacket) -> (r: bool)
    ensures
        r == (resp.command == 1),
{
    resp.command == 1
}

/// The initial status packet sent after a successful handshake: running,
/// timestamp zero.
pub fn initial_status_packet() -> (p: BgbPacket)
    ensures
        p == (BgbPacket { command: 108, data: 1, extra1: 0, extra2: 0, timestamp: 0u32 }),
{
    BgbPacket { command: 108, data: 1, extra1: 0, extra2: 0, timestamp: 0 }
}

/// Collision resolution: with an exchange outstanding whose sent byte is
/// `pending`, an incoming sync1 carrying data `d` makes the transport reply
/// sync2 with data `pending` and deliver `d` as the exchange's result, and
/// the exchange slot is freed.
pub proof fn lemma_collision_resolution(pending: u8, pkt: BgbPacket)
    requires
        pkt.command == 104,
    ensures
        spec_handle_packet(true, pending, pkt).0 == false,
        spec_handle_packet(true, pending, pkt).1.reply == Some(
            sync2_packet(pending, pkt.timestamp),
        ),
        spec_handle_packet(true, pending, pkt).1.deliver == Some(pkt.data),
        !spec_handle_packet(true, pending, pkt).1.disconnect,
{
}

/// A stale sync2 — one arriving with no exchange outstanding — produces no
/// reply, delivers nothing, and leaves the transport unchanged.
pub proof fn lemma_stale_sync2(pending: u8, pkt: BgbPacket)
    requires
        pkt.command == 105,
    ensures
        spec_handle_packet(false, pending, pkt) == (false, no_outcome()),
{
}

} // verus!
