//! Bandwidth-hint bootstrap extension.
//!
//! A zero-length transport parameter marks the extension eligible; the
//! client side then sends, on the next opportunity, a fixed ten-byte frame
//! carrying a previously observed congestion-window value. The receiver
//! applies the carried value directly to both the congestion window and the
//! slow-start threshold — a trust-based override with no bounds check, kept
//! exactly as specified.

use vstd::prelude::*;
use crate::{CalloutStatus, ExtensionFrame, Frame, FrameRegistration, PacketType, Registration,
    SendKind, SendOrder};
use crate::codec::{be_decode, be_encode, be_val, lemma_be_val_bound, lemma_pow256_8,
    lemma_pow256_increases};

verus! {

/// The congestion-control state the override writes into, as the host
/// exposes it: the current congestion window and slow-start threshold.
#[derive(Clone, Copy, Debug, PartialEq, Eq, Structural)]
pub struct Recovery {
    pub congestion_window: u64,
    pub ssthresh: u64,
}

/// What applying a bandwidth hint of `value` leaves in the recovery state:
/// both fields exactly `value`, unclamped.
pub open spec fn applied_recovery(value: u64) -> Recovery {
    Recovery { congestion_window: value, ssthresh: value }
}

/// The send gate of the bandwidth-hint frame: a short-header packet on a
/// connection that is not closing, while the hint is still owed.
pub open spec fn bdp_gate(pkt_type: PacketType, is_closing: bool, should_send: bool) -> bool {
    pkt_type == PacketType::Short && !is_closing && should_send
}

/// Per-connection state of the bandwidth-hint extension.
pub struct BdpFrameContext {
    /// Set by the decode of the peer's parameter: the extension is active.
    pub enabled: bool,
    /// The hint is owed on the next opportunity.
    pub should_send: bool,
    /// The congestion-window value the hint carries.
    pub previous_cwin: u64,
    /// The value a received hint asks to apply.
    pub cwin_to_set: u64,
}

impl BdpFrameContext {
    /// Fresh state, and what the host must register: the zero-length
    /// negotiation parameter and the hint frame, polled first.
    pub fn init() -> (r: (BdpFrameContext, Vec<Registration>))
        ensures
            r.0 == (BdpFrameContext {
                enabled: false,
                should_send: false,
                previous_cwin: 2000000u64,
                cwin_to_set: 0u64,
            }),
            r.1@ == seq![
                Registration::TransportParameter(0xbf),
                Registration::Frame(
                    FrameRegistration {
                        frame_type: 0xbd,
                        send_order: SendOrder::First,
                        send_kind: SendKind::OncePerPacket,
                        ack_eliciting: true,
                        in_flight_tracked: true,
                    },
                ),
            ],
    {
        let ctx = BdpFrameContext {
            enabled: false,
            should_send: false,
            previous_cwin: 2000000,
            cwin_to_set: 0,
        };
        let mut regs: Vec<Registration> = Vec::new();
        regs.push(Registration::TransportParameter(0xbf));
        regs.push(
            Registration::Frame(
                FrameRegistration {
                    frame_type: 0xbd,
                    send_order: SendOrder::First,
                    send_kind: SendKind::OncePerPacket,
                    ack_eliciting: true,
                    in_flight_tracked: true,
                },
            ),
        );
        proof {
            assert(regs@ =~= seq![
                Registration::TransportParameter(0xbf),
                Registration::Frame(
                    FrameRegistration {
                        frame_type: 0xbd,
                        send_order: SendOrder::First,
                        send_kind: SendKind::OncePerPacket,
                        ack_eliciting: true,
                        in_flight_tracked: true,
                    },
                ),
            ]);
        }
        (ctx, regs)
    }

    /// The peer sent its zero-length marker: the extension becomes active,
    /// and the client side (not the server) now owes the hint frame.
    pub fn decode_transport_parameter_bf(&mut self, is_server: bool) -> (r: CalloutStatus)
        ensures
            r == CalloutStatus::Done,
            final(self).enabled,
            final(self).should_send == (old(self).should_send || !is_server),
            final(self).previous_cwin == old(self).previous_cwin,
            final(self).cwin_to_set == old(self).cwin_to_set,
    {
        if !is_server {
            self.should_send = true;
        }
        self.enabled = true;
        CalloutStatus::Done
    }

    /// This side's marker: parameter id 0xbf as a two-byte varint, then a
    /// zero length.
    pub fn write_transport_parameter_bf(&self) -> (r: Vec<u8>)
        ensures
            r@ == seq![0x40u8, 0xbfu8, 0x00u8],
    {
        let mut r: Vec<u8> = Vec::new();
        r.push(0x40);
        r.push(0xbf);
        r.push(0x00);
        proof {
            assert(r@ =~= seq![0x40u8, 0xbfu8, 0x00u8]);
        }
        r
    }

    /// The send gate of the hint frame.
    pub fn should_send_frame_bd(&self, pkt_type: PacketType, is_closing: bool) -> (r: bool)
        ensures
            r == bdp_gate(pkt_type, is_closing, self.should_send),
    {
        pkt_type == PacketType::Short && !is_closing && self.should_send
    }

    /// The frame to commit. The payload is fixed, so no correlation is
    /// needed and the tag is zero.
    pub fn prepare_frame_bd(&self) -> (r: Frame)
        ensures
            r == Frame::Extension(ExtensionFrame { frame_type: 0xbd, tag: 0 }),
    {
        Frame::Extension(ExtensionFrame { frame_type: 0xbd, tag: 0 })
    }

    /// The wire bytes of the hint frame: the two-byte frame type, then the
    /// carried congestion-window value as eight big-endian bytes.
    pub fn write_frame_bd(&self) -> (r: Vec<u8>)
        ensures
            r@.len() == 10,
            r@[0] == 0x40u8,
            r@[1] == 0xbdu8,
            be_val(r@.subrange(2, 10)) == self.previous_cwin as nat,
    {
        let mut r: Vec<u8> = Vec::new();
        r.push(0x40);
        r.push(0xbd);
        proof {
            lemma_pow256_8();
        }
        let mut payload = be_encode(self.previous_cwin, 8);
        let ghost payload_view = payload@;
        r.append(&mut payload);
        proof {
            assert(r@.subrange(2, 10) =~= payload_view);
        }
        r
    }

    /// Parse a received hint: the first eight payload bytes are the
    /// big-endian value to apply. Succeeds exactly when eight bytes are
    /// there; on success the value is recorded for `process_frame_bd`.
    pub fn parse_frame_bd(&mut self, data: &Vec<u8>) -> (r: Result<Frame, i64>)
        ensures
            match r {
                Ok(f) => {
                    &&& data@.len() >= 8
                    &&& f == Frame::Extension(ExtensionFrame { frame_type: 0xbd, tag: 0 })
                    &&& final(self).cwin_to_set as nat == be_val(data@.subrange(0, 8))
                },
                Err(code) => {
                    &&& data@.len() < 8
                    &&& code == -2
                    &&& *final(self) == *old(self)
                },
            },
            final(self).enabled == old(self).enabled,
            final(self).should_send == old(self).should_send,
            final(self).previous_cwin == old(self).previous_cwin,
    {
        if data.len() < 8 {
            return Err(-2);
        }
        let mut head: Vec<u8> = Vec::new();
        let mut i: usize = 0;
        while i < 8
            invariant
                i <= 8,
                data@.len() >= 8,
                head@ == data@.subrange(0, i as int),
            decreases 8 - i,
        {
            head.push(data[i]);
            proof {
                assert(data@.subrange(0, i + 1) =~= data@.subrange(0, i as int).push(data@[
                    i as int
                ]));
            }
            i = i + 1;
        }
        let v = be_decode(&head);
        self.cwin_to_set = v;
        Ok(Frame::Extension(ExtensionFrame { frame_type: 0xbd, tag: 0 }))
    }

    /// Apply the received hint: both the congestion window and the
    /// slow-start threshold become exactly the carried value.
    pub fn process_frame_bd(&self, recovery: &mut Recovery) -> (r: CalloutStatus)
        ensures
            r == CalloutStatus::Done,
            *final(recovery) == applied_recovery(self.cwin_to_set),
    {
        recovery.congestion_window = self.cwin_to_set;
        recovery.ssthresh = self.cwin_to_set;
        CalloutStatus::Done
    }

    /// The hint frame always occupies ten bytes on the wire.
    pub fn wire_len_bd(&self) -> (r: u64)
        ensures
            r == 10,
    {
        10
    }

    /// The host committed the frame to a packet: the hint is no longer owed.
    pub fn on_frame_reserved_bd(&mut self)
        ensures
            *final(self) == (BdpFrameContext { should_send: false, ..*old(self) }),
    {
        self.should_send = false;
    }

    /// Terminal notification: a lost hint is owed again, an acknowledged
    /// one is not.
    pub fn notify_frame_bd(&mut self, is_lost: bool)
        ensures
            *final(self) == (BdpFrameContext { should_send: is_lost, ..*old(self) }),
    {
        self.should_send = is_lost;
    }
}

/// Bandwidth-hint law: a hint whose eight wire bytes denote `value` is
/// parsed to exactly `value` and applied to both congestion-control fields
/// unclamped — for every `value` a `u64` can hold, zero and the maximum
/// included.
pub proof fn lemma_hint_applied_exactly(value: u64, wire: Seq<u8>)
    requires
        wire.len() == 8,
        be_val(wire) == value as nat,
    ensures
        applied_recovery((be_val(wire) as u64)).congestion_window == value,
        applied_recovery((be_val(wire) as u64)).ssthresh == value,
{
    lemma_be_val_bound(wire);
    lemma_pow256_increases(wire.len(), 8);
    lemma_pow256_8();
}

} // verus!
