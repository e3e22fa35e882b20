//! Detection of the fixed configuration/probe messages.
//!
//! The companion firmware flags configuration messages with a fixed 32-byte
//! magic sentinel. A 36-byte message opening with the sentinel is not
//! gameplay data: followed by the printer marker it asks for printer mode,
//! which is not supported and answered with a single `0x00`; followed by any
//! other four bytes it is a timing configuration, acknowledged with a single
//! `0x01` and otherwise ignored. Every other message is gameplay data and is
//! exchanged byte by byte over the link by the caller, one response byte per
//! input byte, in order.

use vstd::prelude::*;

verus! {

/// The byte answering a printer-mode request: not supported.
pub const PRINTER_REJECT: u8 = 0x00;

/// The byte acknowledging a timing configuration message.
pub const CONFIG_ACK: u8 = 0x01;

/// The fixed 32-byte magic sentinel: a 2-byte marker repeated eight times,
/// then a 4-byte marker repeated four times.
pub open spec fn magic_prefix() -> Seq<u8> {
    seq![
        0xCAu8, 0xFEu8, 0xCAu8, 0xFEu8, 0xCAu8, 0xFEu8, 0xCAu8, 0xFEu8,
        0xCAu8, 0xFEu8, 0xCAu8, 0xFEu8, 0xCAu8, 0xFEu8, 0xCAu8, 0xFEu8,
        0xDEu8, 0xADu8, 0xBEu8, 0xEFu8, 0xDEu8, 0xADu8, 0xBEu8, 0xEFu8,
        0xDEu8, 0xADu8, 0xBEu8, 0xEFu8, 0xDEu8, 0xADu8, 0xBEu8, 0xEFu8,
    ]
}

/// The 4-byte marker (the ASCII letters `PRNT`) that asks for printer mode.
pub open spec fn printer_suffix() -> Seq<u8> {
    seq![0x50u8, 0x52u8, 0x4Eu8, 0x54u8]
}

/// What a message from the browser is.
#[derive(Debug, Clone, Copy, PartialEq, Eq, Structural)]
pub enum MessageKind {
    /// 36 bytes: the sentinel followed by the printer marker.
    PrinterMagic,
    /// 36 bytes: the sentinel followed by any other four bytes.
    ConfigMagic,
    /// Anything else: gameplay bytes to exchange over the link one by one.
    Passthrough,
}

/// The kind of a message: exactly the 36-byte messages opening with the
/// sentinel are magic, printer mode if and only if the last four bytes are
/// the printer marker.
pub open spec fn spec_classify(d: Seq<u8>) -> MessageKind {
    if d.len() == 36 && d.take(32) == magic_prefix() && d.skip(32) == printer_suffix() {
        MessageKind::PrinterMagic
    } else if d.len() == 36 && d.take(32) == magic_prefix() {
        MessageKind::ConfigMagic
    } else {
        MessageKind::Passthrough
    }
}

/// The sentinel as bytes, for the running comparison.
fn magic_prefix_bytes() -> (v: Vec<u8>)
    ensures
        v@ == magic_prefix(),
{
    let mut v: Vec<u8> = Vec::new();
    let mut i: usize = 0;
    while i < 16
        invariant
            i <= 16,
            v@.len() == 2 * i,
            forall|k: int| 0 <= k < v@.len() ==> v@[k] == magic_prefix()[k],
        decreases 16 - i,
    {
        if i < 8 {
            v.push(0xCA);
            v.push(0xFE);
        } else {
            if i % 2 == 0 {
                v.push(0xDE);
                v.push(0xAD);
            } else {
                v.push(0xBE);
                v.push(0xEF);
            }
        }
        i += 1;
    }
    proof {
        assert(v@ =~= magic_prefix());
    }
    v
}

/// Classify one message from the browser, as `spec_classify` says.
pub fn classify_message(data: &[u8]) -> (k: MessageKind)
    ensures
        k == spec_classify(data@),
{
    if data.len() != 36 {
        return MessageKind::Passthrough;
    }
    let prefix = magic_prefix_bytes();
    let mut i: usize = 0;
    while i < 32
        invariant
            i <= 32,
            data@.len() == 36,
            prefix@ == magic_prefix(),
            forall|k: int| 0 <= k < i ==> data@[k] == magic_prefix()[k],
        decreases 32 - i,
    {
        if data[i] != prefix[i] {
            proof {
                assert(data@.take(32)[i as int] != magic_prefix()[i as int]);
            }
            return MessageKind::Passthrough;
        }
        i += 1;
    }
    proof {
        assert(data@.take(32) =~= magic_prefix());
    }
    let printer = data[32] == 0x50 && data[33] == 0x52 && data[34] == 0x4E && data[35] == 0x54;
    proof {
        if printer {
            assert(data@.skip(32) =~= printer_suffix());
        } else {
            assert(data@.skip(32)[0] == data@[32] && data@.skip(32)[1] == data@[33] && data@.skip(
                32,
            )[2] == data@[34] && data@.skip(32)[3] == data@[35]);
        }
    }
    if printer {
        MessageKind::PrinterMagic
    } else {
        MessageKind::ConfigMagic
    }
}

/// The fixed reply to a magic message, if the message is one: exactly
/// `[0x00]` for a printer-mode request (not supported), exactly `[0x01]`
/// for a timing configuration (acknowledged). A gameplay message has no
/// fixed reply: the caller exchanges each of its bytes over the link and
/// answers with the response bytes in order.
pub fn magic_response(data: &[u8]) -> (r: Option<Vec<u8>>)
    ensures
        spec_classify(data@) is PrinterMagic ==> (r matches Some(v) && v@ == seq![PRINTER_REJECT]),
        spec_classify(data@) is ConfigMagic ==> (r matches Some(v) && v@ == seq![CONFIG_ACK]),
        spec_classify(data@) is Passthrough ==> r is None,
{
    match classify_message(data) {
        MessageKind::PrinterMagic => {
            let mut v: Vec<u8> = Vec::new();
            v.push(PRINTER_REJECT);
            proof {
                assert(v@ =~= seq![PRINTER_REJECT]);
            }
            Some(v)
        },
        MessageKind::ConfigMagic => {
            let mut v: Vec<u8> = Vec::new();
            v.push(CONFIG_ACK);
            proof {
                assert(v@ =~= seq![CONFIG_ACK]);
            }
            Some(v)
        },
        MessageKind::Passthrough => None,
    }
}

} // verus!
