//! Acknowledgment-pacing extension.
//!
//! Negotiates a minimum interval between acknowledgments (a transport
//! parameter carrying a big-endian microsecond duration) and gates standard
//! acknowledgment emission with a rate-limited decision that is positive
//! only when no send is recorded yet, or when at least the negotiated
//! interval has elapsed since the recorded one, and the base protocol
//! condition holds. The timestamp is recorded at decision time, before the
//! packet is guaranteed to leave — a known property of this design, kept.

use vstd::prelude::*;
use crate::{CalloutStatus, FrameRegistration, PacketType, Registration, SendKind, SendOrder};
use crate::codec::{be_decode, be_val, lemma_be_val_bound, lemma_pow256_8, lemma_pow256_increases};

verus! {

/// The base protocol condition for emitting an acknowledgment: a received
/// packet needs acknowledging, the packet elicits one, and the connection is
/// not closing unless this is a handshake-space packet.
pub open spec fn base_ack_condition(
    need_ack: bool,
    ack_elicited: bool,
    is_closing: bool,
    pkt_type: PacketType,
) -> bool {
    need_ack && ack_elicited && (!is_closing || pkt_type == PacketType::Handshake)
}

/// The rate limit: with a negotiated interval and a recorded decision time,
/// at least the interval must have elapsed; otherwise the limit is inert.
pub open spec fn pacing_allows(min_ack: Option<u64>, last_sent: Option<u64>, now: u64) -> bool {
    match (min_ack, last_sent) {
        (Some(m), Some(l)) => l + m <= now,
        _ => true,
    }
}

/// The whole send-gate decision.
pub open spec fn ack_gate(
    min_ack: Option<u64>,
    last_sent: Option<u64>,
    now: u64,
    need_ack: bool,
    ack_elicited: bool,
    is_closing: bool,
    pkt_type: PacketType,
) -> bool {
    base_ack_condition(need_ack, ack_elicited, is_closing, pkt_type) && pacing_allows(
        min_ack,
        last_sent,
        now,
    )
}

/// Per-connection state of the acknowledgment-pacing extension.
pub struct AckFrequencyContext {
    /// Negotiated minimum interval between acknowledgments, microseconds.
    pub min_ack: Option<u64>,
    /// Time of the last positive gate decision, microseconds.
    pub last_sent: Option<u64>,
}

impl AckFrequencyContext {
    /// Fresh state, and what the host must register: the negotiation
    /// parameter and one ack-eliciting, in-flight-tracked frame polled after
    /// the acknowledgment block.
    pub fn init() -> (r: (AckFrequencyContext, Vec<Registration>))
        ensures
            r.0.min_ack is None,
            r.0.last_sent is None,
            r.1@ == seq![
                Registration::TransportParameter(0xff04de1b),
                Registration::Frame(
                    FrameRegistration {
                        frame_type: 0xaf,
                        send_order: SendOrder::AfterAck,
                        send_kind: SendKind::OncePerPacket,
                        ack_eliciting: true,
                        in_flight_tracked: true,
                    },
                ),
            ],
    {
        let ctx = AckFrequencyContext { min_ack: None, last_sent: None };
        let mut regs: Vec<Registration> = Vec::new();
        regs.push(Registration::TransportParameter(0xff04de1b));
        regs.push(
            Registration::Frame(
                FrameRegistration {
                    frame_type: 0xaf,
                    send_order: SendOrder::AfterAck,
                    send_kind: SendKind::OncePerPacket,
                    ack_eliciting: true,
                    in_flight_tracked: true,
                },
            ),
        );
        proof {
            assert(regs@ =~= seq![
                Registration::TransportParameter(0xff04de1b),
                Registration::Frame(
                    FrameRegistration {
                        frame_type: 0xaf,
                        send_order: SendOrder::AfterAck,
                        send_kind: SendKind::OncePerPacket,
                        ack_eliciting: true,
                        in_flight_tracked: true,
                    },
                ),
            ]);
        }
        (ctx, regs)
    }

    /// Decode the peer's pacing parameter: a big-endian microsecond
    /// duration of at most eight bytes (shorter strings stand for the same
    /// value left-padded with zero bytes).
    pub fn decode_transport_parameter_ff04de1b(&mut self, bytes: &Vec<u8>) -> (r: CalloutStatus)
        requires
            bytes@.len() <= 8,
        ensures
            r == CalloutStatus::Done,
            final(self).min_ack == Some(be_val(bytes@) as u64),
            final(self).last_sent == old(self).last_sent,
    {
        proof {
            lemma_be_val_bound(bytes@);
            lemma_pow256_increases(bytes@.len(), 8);
            lemma_pow256_8();
        }
        let v = be_decode(bytes);
        self.min_ack = Some(v);
        CalloutStatus::Done
    }

    /// The pacing parameter this side offers: parameter id 0xff04de1b as a
    /// four-byte varint, then the two-byte varint 10000 — a minimum
    /// interval of ten milliseconds.
    pub fn write_transport_parameter_ff04de1b(&self) -> (r: Vec<u8>)
        ensures
            r@ == seq![
                0xc0u8, 0x00u8, 0x00u8, 0x00u8, 0xffu8, 0x04u8, 0xdeu8, 0x1bu8, 0x02u8, 0x27u8,
                0x10u8,
            ],
    {
        let mut r: Vec<u8> = Vec::new();
        r.push(0xc0);
        r.push(0x00);
        r.push(0x00);
        r.push(0x00);
        r.push(0xff);
        r.push(0x04);
        r.push(0xde);
        r.push(0x1b);
        r.push(0x02);
        r.push(0x27);
        r.push(0x10);
        proof {
            assert(r@ =~= seq![
                0xc0u8, 0x00u8, 0x00u8, 0x00u8, 0xffu8, 0x04u8, 0xdeu8, 0x1bu8, 0x02u8, 0x27u8,
                0x10u8,
            ]);
        }
        r
    }

    /// The send gate. The decision is exactly `ack_gate`; a positive
    /// decision records `now` immediately, a negative one changes nothing.
    pub fn should_send_frame_2(
        &mut self,
        pkt_type: PacketType,
        ack_elicited: bool,
        need_ack: bool,
        is_closing: bool,
        now: u64,
    ) -> (r: bool)
        ensures
            r == ack_gate(
                old(self).min_ack,
                old(self).last_sent,
                now,
                need_ack,
                ack_elicited,
                is_closing,
                pkt_type,
            ),
            final(self).min_ack == old(self).min_ack,
            r ==> final(self).last_sent == Some(now),
            !r ==> final(self).last_sent == old(self).last_sent,
    {
        let base = need_ack && ack_elicited && (!is_closing || pkt_type == PacketType::Handshake);
        let out = match (self.min_ack, self.last_sent) {
            (Some(m), Some(l)) => {
                if (l as u128) + (m as u128) <= (now as u128) {
                    base
                } else {
                    false
                }
            },
            _ => base,
        };
        if out {
            self.last_sent = Some(now);
        }
        out
    }
}

/// Pacing law: whenever a decision time is recorded and less than the
/// negotiated interval has elapsed, the decision is negative whatever the
/// base protocol condition says; and with no recorded decision time the
/// decision is exactly the base protocol condition.
pub proof fn lemma_pacing_gate(
    min_ack: u64,
    last_sent: u64,
    now: u64,
    need_ack: bool,
    ack_elicited: bool,
    is_closing: bool,
    pkt_type: PacketType,
)
    ensures
        now < last_sent + min_ack ==> !ack_gate(
            Some(min_ack),
            Some(last_sent),
            now,
            need_ack,
            ack_elicited,
            is_closing,
            pkt_type,
        ),
        ack_gate(Some(min_ack), None, now, need_ack, ack_elicited, is_closing, pkt_type)
            == base_ack_condition(need_ack, ack_elicited, is_closing, pkt_type),
{
}

} // verus!
