//! Obfuscation-padding extension.
//!
//! Two cooperating registrations. An end-of-packet padding frame fills the
//! remaining budget with zero bytes; its send gate, on a short-header packet
//! of an established connection, also raises a suppression flag and asks the
//! host for a single-shot timer a random jitter below ten milliseconds away.
//! A first-order sentinel frame, while the flag is up and the extension is
//! enabled, answers its prepare callback with the abort sentinel, discarding
//! the whole packet's frame construction; only the timer's callback lowers
//! the flag. A capability call lets another extension toggle the extension
//! on and off.

use vstd::prelude::*;
use crate::{CalloutStatus, Frame, FrameRegistration, PacketType, PaddingFrame, Registration,
    SendKind, SendOrder, TimerArm};
use crate::rng::{rng_below, rng_with_seed};

verus! {

/// Upper bound (exclusive) on the random timer jitter, microseconds.
pub const JITTER_BOUND_MICROS: u64 = 10000;

/// The extension identity the suppression timer is armed under.
pub const PADDING_EXTENSION_ID: u64 = 1;

/// The timer identity the suppression timer is armed under.
pub const PADDING_TIMER_ID: u64 = 7;

/// The send decision of the end-of-packet padding frame: there is budget left, and on
/// short-header packets the extension must be enabled.
pub open spec fn padding_gate(pkt_type: PacketType, left: u64, enable: bool) -> bool {
    left > 0 && (pkt_type != PacketType::Short || enable)
}

/// The send decision of the first-order sentinel: suppression is pending and the
/// extension is enabled. Its prepare callback then aborts the packet.
pub open spec fn sentinel_gate(enable: bool, stop_sending: bool) -> bool {
    enable && stop_sending
}

/// Per-connection state of the padding extension.
pub struct PaddingContext {
    /// Raised at the padding trigger, lowered only by the timer callback.
    pub stop_sending: bool,
    /// Runtime toggle, reachable from other extensions by capability call.
    pub enable: bool,
    /// Generator for the timer jitter; its draws are unconstrained.
    pub rng: fastrand::Rng,
}

impl PaddingContext {
    /// Fresh state from a generator seed, and what the host must register:
    /// the first-order sentinel and the end-of-packet padding frame.
    pub fn init(seed: u64) -> (r: (PaddingContext, Vec<Registration>))
        ensures
            !r.0.stop_sending,
            r.0.enable,
            r.1@ == seq![
                Registration::Frame(
                    FrameRegistration {
                        frame_type: 0xaaaa,
                        send_order: SendOrder::First,
                        send_kind: SendKind::OncePerPacket,
                        ack_eliciting: false,
                        in_flight_tracked: true,
                    },
                ),
                Registration::Frame(
                    FrameRegistration {
                        frame_type: 0x0,
                        send_order: SendOrder::End,
                        send_kind: SendKind::OncePerPacket,
                        ack_eliciting: false,
                        in_flight_tracked: true,
                    },
                ),
            ],
    {
        let ctx = PaddingContext {
            stop_sending: false,
            enable: true,
            rng: rng_with_seed(seed),
        };
        let mut regs: Vec<Registration> = Vec::new();
        regs.push(
            Registration::Frame(
                FrameRegistration {
                    frame_type: 0xaaaa,
                    send_order: SendOrder::First,
                    send_kind: SendKind::OncePerPacket,
                    ack_eliciting: false,
                    in_flight_tracked: true,
                },
            ),
        );
        regs.push(
            Registration::Frame(
                FrameRegistration {
                    frame_type: 0x0,
                    send_order: SendOrder::End,
                    send_kind: SendKind::OncePerPacket,
                    ack_eliciting: false,
                    in_flight_tracked: true,
                },
            ),
        );
        proof {
            assert(regs@ =~= seq![
                Registration::Frame(
                    FrameRegistration {
                        frame_type: 0xaaaa,
                        send_order: SendOrder::First,
                        send_kind: SendKind::OncePerPacket,
                        ack_eliciting: false,
                        in_flight_tracked: true,
                    },
                ),
                Registration::Frame(
                    FrameRegistration {
                        frame_type: 0x0,
                        send_order: SendOrder::End,
                        send_kind: SendKind::OncePerPacket,
                        ack_eliciting: false,
                        in_flight_tracked: true,
                    },
                ),
            ]);
        }
        (ctx, regs)
    }

    /// The send decision of the padding frame. On a short-header packet of an
    /// established connection it is also the padding trigger: the
    /// suppression flag goes up and a timer is requested for `now` plus a
    /// random jitter below `JITTER_BOUND_MICROS`.
    pub fn should_send_frame_0(
        &mut self,
        pkt_type: PacketType,
        left: u64,
        now: u64,
        established: bool,
    ) -> (r: (bool, Option<TimerArm>))
        requires
            now <= u64::MAX - JITTER_BOUND_MICROS,
        ensures
            r.0 == padding_gate(pkt_type, left, old(self).enable),
            final(self).enable == old(self).enable,
            (pkt_type == PacketType::Short && established) ==> {
                &&& final(self).stop_sending
                &&& r.1 matches Some(arm)
                &&& (r.1 matches Some(arm) ==> {
                    &&& arm.extension_id == PADDING_EXTENSION_ID
                    &&& arm.timer_id == PADDING_TIMER_ID
                    &&& now <= arm.deadline < now + JITTER_BOUND_MICROS
                })
            },
            !(pkt_type == PacketType::Short && established) ==> {
                &&& final(self).stop_sending == old(self).stop_sending
                &&& r.1 is None
            },
    {
        let out = left > 0 && (pkt_type != PacketType::Short || self.enable);
        let arm = if pkt_type == PacketType::Short && established {
            self.stop_sending = true;
            let pause = rng_below(&mut self.rng, JITTER_BOUND_MICROS);
            Some(
                TimerArm {
                    deadline: now + pause,
                    extension_id: PADDING_EXTENSION_ID,
                    timer_id: PADDING_TIMER_ID,
                },
            )
        } else {
            None
        };
        (out, arm)
    }

    /// The send decision of the sentinel frame.
    pub fn should_send_frame_aaaa(&self) -> (r: bool)
        ensures
            r == sentinel_gate(self.enable, self.stop_sending),
    {
        self.enable && self.stop_sending
    }

    /// The padding frame to commit: zero bytes over the whole remaining
    /// budget.
    pub fn prepare_frame_0(&self, left: u64) -> (r: Frame)
        ensures
            r == Frame::Padding(PaddingFrame { length: left }),
    {
        Frame::Padding(PaddingFrame { length: left })
    }

    /// The sentinel's prepare callback: always the abort sentinel, never a
    /// frame — while its gate was open, the whole packet's frame
    /// construction is discarded.
    pub fn prepare_frame_aaaa(&self) -> (r: CalloutStatus)
        ensures
            r == CalloutStatus::Abort,
    {
        CalloutStatus::Abort
    }

    /// A padding frame occupies exactly its length on the wire.
    pub fn wire_len_0(&self, length: u64) -> (r: u64)
        ensures
            r == length,
    {
        length
    }

    /// The wire bytes of a padding frame: `length` zero bytes.
    pub fn write_frame_0(&self, length: usize) -> (r: Vec<u8>)
        ensures
            r@.len() == length,
            forall|i: int| 0 <= i < r@.len() ==> r@[i] == 0u8,
    {
        let mut r: Vec<u8> = Vec::new();
        let mut i: usize = 0;
        while i < length
            invariant
                i <= length,
                r@.len() == i,
                forall|j: int| 0 <= j < r@.len() ==> r@[j] == 0u8,
            decreases length - i,
        {
            r.push(0);
            i = i + 1;
        }
        r
    }

    /// The suppression timer fired: the flag goes down, and padding may be
    /// offered again.
    pub fn on_plugin_timeout_7(&mut self)
        ensures
            !final(self).stop_sending,
            final(self).enable == old(self).enable,
    {
        self.stop_sending = false;
    }

    /// Capability entry point: another extension toggles this one.
    pub fn plugin_control_80001(&mut self, enable: bool) -> (r: CalloutStatus)
        ensures
            r == CalloutStatus::Done,
            final(self).enable == enable,
            final(self).stop_sending == old(self).stop_sending,
    {
        self.enable = enable;
        CalloutStatus::Done
    }
}

} // verus!
