//! Opaque multiplex-frame extension.
//!
//! Demonstrates the tag-correlation pattern end to end: the frame's one-byte
//! payload does not self-describe on the wire, so it is stored in the tag
//! correlation table at prepare or parse time, fetched by tag at encode and
//! log time, and released at the terminal notification. At most one frame is
//! outstanding: the `in_flight` flag is raised when the host commits a frame
//! and lowered only by the terminal notification, and the send gate refuses
//! to offer while it is up. The receive side counts processed frames and, on
//! a fixed cadence, toggles a cooperating extension over the capability bus
//! (wired up at the connection level).

use vstd::prelude::*;
use crate::{CalloutStatus, ExtensionFrame, Frame, FrameRegistration, PacketType, Registration,
    SendKind, SendOrder};
use crate::tag_table::TagTable;

verus! {

/// The processed-frame count at which the capability call fires and the
/// counter returns to zero.
pub const CADENCE_COUNT: u8 = 4;

/// The send gate of the multiplex frame: a short-header packet, a
/// connection that is not closing, and no frame outstanding.
pub open spec fn multiplex_gate(pkt_type: PacketType, is_closing: bool, in_flight: bool) -> bool {
    pkt_type == PacketType::Short && !is_closing && !in_flight
}

/// Per-connection state of the multiplex extension.
pub struct SuperFrameContext {
    /// Set by the decode of the peer's parameter: the extension is active.
    pub enabled: bool,
    /// A frame is between reservation and its terminal notification.
    pub in_flight: bool,
    /// The argument the next capability call will carry.
    pub flip: bool,
    /// Frames processed since the capability call last fired.
    pub cnt: u8,
    /// Payloads of the outstanding frames, by tag.
    pub frames: TagTable<u8>,
}

impl SuperFrameContext {
    /// The table is sound and the cadence counter is within its cycle.
    pub open spec fn wf(&self) -> bool {
        self.frames.wf() && self.cnt <= CADENCE_COUNT
    }

    /// Fresh state, and what the host must register: the negotiation
    /// parameter and the multiplex frame, polled first.
    pub fn init() -> (r: (SuperFrameContext, Vec<Registration>))
        ensures
            r.0.wf(),
            !r.0.enabled,
            !r.0.in_flight,
            !r.0.flip,
            r.0.cnt == 0,
            r.0.frames@ == Map::<u64, u8>::empty(),
            r.0.frames.next_tag() == 0,
            r.1@ == seq![
                Registration::TransportParameter(0xaaaaaaaa),
                Registration::Frame(
                    FrameRegistration {
                        frame_type: 0x42,
                        send_order: SendOrder::First,
                        send_kind: SendKind::OncePerPacket,
                        ack_eliciting: true,
                        in_flight_tracked: true,
                    },
                ),
            ],
    {
        let ctx = SuperFrameContext {
            enabled: false,
            in_flight: false,
            flip: false,
            cnt: 0,
            frames: TagTable::new(),
        };
        let mut regs: Vec<Registration> = Vec::new();
        regs.push(Registration::TransportParameter(0xaaaaaaaa));
        regs.push(
            Registration::Frame(
                FrameRegistration {
                    frame_type: 0x42,
                    send_order: SendOrder::First,
                    send_kind: SendKind::OncePerPacket,
                    ack_eliciting: true,
                    in_flight_tracked: true,
                },
            ),
        );
        proof {
            assert(regs@ =~= seq![
                Registration::TransportParameter(0xaaaaaaaa),
                Registration::Frame(
                    FrameRegistration {
                        frame_type: 0x42,
                        send_order: SendOrder::First,
                        send_kind: SendKind::OncePerPacket,
                        ack_eliciting: true,
                        in_flight_tracked: true,
                    },
                ),
            ]);
        }
        (ctx, regs)
    }

    /// The peer sent its zero-length marker: the extension becomes active.
    pub fn decode_transport_parameter_aaaaaaaa(&mut self) -> (r: CalloutStatus)
        ensures
            r == CalloutStatus::Done,
            final(self).enabled,
            final(self).in_flight == old(self).in_flight,
            final(self).flip == old(self).flip,
            final(self).cnt == old(self).cnt,
            final(self).frames == old(self).frames,
    {
        self.enabled = true;
        CalloutStatus::Done
    }

    /// This side's marker: parameter id 0xaaaaaaaa as a four-byte varint,
    /// then a zero length.
    pub fn write_transport_parameter_aaaaaaaa(&self) -> (r: Vec<u8>)
        ensures
            r@ == seq![0xc0u8, 0x00u8, 0x00u8, 0x00u8, 0xaau8, 0xaau8, 0xaau8, 0xaau8, 0x00u8],
    {
        let mut r: Vec<u8> = Vec::new();
        r.push(0xc0);
        r.push(0x00);
        r.push(0x00);
        r.push(0x00);
        r.push(0xaa);
        r.push(0xaa);
        r.push(0xaa);
        r.push(0xaa);
        r.push(0x00);
        proof {
            assert(r@ =~= seq![
                0xc0u8, 0x00u8, 0x00u8, 0x00u8, 0xaau8, 0xaau8, 0xaau8, 0xaau8, 0x00u8,
            ]);
        }
        r
    }

    /// The send gate of the multiplex frame.
    pub fn should_send_frame_42(&self, pkt_type: PacketType, is_closing: bool) -> (r: bool)
        ensures
            r == multiplex_gate(pkt_type, is_closing, self.in_flight),
    {
        pkt_type == PacketType::Short && !is_closing && !self.in_flight
    }

    /// The frame to commit: a fresh tag is allocated and the one-byte
    /// payload — the tag's low byte — is stored under it for the later
    /// encode, log and notify callbacks.
    pub fn prepare_frame_42(&mut self) -> (r: Frame)
        requires
            old(self).wf(),
            old(self).frames.next_tag() < u64::MAX,
        ensures
            final(self).wf(),
            r == Frame::Extension(
                ExtensionFrame { frame_type: 0x42, tag: old(self).frames.next_tag() },
            ),
            final(self).frames@ == old(self).frames@.insert(
                old(self).frames.next_tag(),
                old(self).frames.next_tag() as u8,
            ),
            final(self).frames.next_tag() == old(self).frames.next_tag() + 1,
            final(self).enabled == old(self).enabled,
            final(self).in_flight == old(self).in_flight,
            final(self).flip == old(self).flip,
            final(self).cnt == old(self).cnt,
    {
        let tag = self.frames.allocate();
        self.frames.store(tag, tag as u8);
        Frame::Extension(ExtensionFrame { frame_type: 0x42, tag })
    }

    /// The wire bytes of the frame whose tag the host hands back: the
    /// two-byte frame type, then the stored payload byte. Succeeds exactly
    /// when the tag is live.
    pub fn write_frame_42(&self, tag: u64) -> (r: Result<Vec<u8>, i64>)
        ensures
            match r {
                Ok(bytes) => {
                    &&& self.frames@.dom().contains(tag)
                    &&& bytes@ == seq![0x40u8, 0x42u8, self.frames@[tag]]
                },
                Err(code) => {
                    &&& !self.frames@.dom().contains(tag)
                    &&& code == -2
                },
            },
    {
        let val = match self.frames.fetch(tag) {
            Some(v) => *v,
            None => {
                return Err(-2);
            },
        };
        let mut bytes: Vec<u8> = Vec::new();
        bytes.push(0x40);
        bytes.push(0x42);
        bytes.push(val);
        proof {
            assert(bytes@ =~= seq![0x40u8, 0x42u8, self.frames@[tag]]);
        }
        Ok(bytes)
    }

    /// Parse a received multiplex frame: the first payload byte is stored
    /// under a fresh tag. Succeeds exactly when a payload byte is there.
    pub fn parse_frame_42(&mut self, data: &Vec<u8>) -> (r: Result<Frame, i64>)
        requires
            old(self).wf(),
            old(self).frames.next_tag() < u64::MAX,
        ensures
            final(self).wf(),
            match r {
                Ok(f) => {
                    &&& data@.len() >= 1
                    &&& f == Frame::Extension(
                        ExtensionFrame { frame_type: 0x42, tag: old(self).frames.next_tag() },
                    )
                    &&& final(self).frames@ == old(self).frames@.insert(
                        old(self).frames.next_tag(),
                        data@[0],
                    )
                    &&& final(self).frames.next_tag() == old(self).frames.next_tag() + 1
                },
                Err(code) => {
                    &&& data@.len() == 0
                    &&& code == -2
                    &&& final(self).frames == old(self).frames
                },
            },
            final(self).enabled == old(self).enabled,
            final(self).in_flight == old(self).in_flight,
            final(self).flip == old(self).flip,
            final(self).cnt == old(self).cnt,
    {
        if data.len() < 1 {
            return Err(-2);
        }
        let val = data[0];
        let tag = self.frames.allocate();
        self.frames.store(tag, val);
        Ok(Frame::Extension(ExtensionFrame { frame_type: 0x42, tag }))
    }

    /// The multiplex frame always occupies three bytes on the wire.
    pub fn wire_len_42(&self) -> (r: u64)
        ensures
            r == 3,
    {
        3
    }

    /// The host committed the frame to a packet: a frame is now
    /// outstanding, and no further offer is made until the terminal
    /// notification.
    pub fn on_frame_reserved_42(&mut self)
        ensures
            final(self).in_flight,
            final(self).enabled == old(self).enabled,
            final(self).flip == old(self).flip,
            final(self).cnt == old(self).cnt,
            final(self).frames == old(self).frames,
    {
        self.in_flight = true;
    }

    /// Terminal notification for the frame with this tag, acknowledged or
    /// lost: its tag is released — the one terminal release of that tag —
    /// and no frame is outstanding any more.
    pub fn notify_frame_42(&mut self, tag: u64, is_lost: bool)
        requires
            old(self).wf(),
        ensures
            final(self).wf(),
            final(self).frames@ == old(self).frames@.remove(tag),
            final(self).frames.next_tag() == old(self).frames.next_tag(),
            !final(self).in_flight,
            final(self).enabled == old(self).enabled,
            final(self).flip == old(self).flip,
            final(self).cnt == old(self).cnt,
    {
        let _ = is_lost;
        self.frames.release(tag);
        self.in_flight = false;
    }
}

/// In-flight exclusion law: while one multiplex frame is between its
/// reservation and its terminal notification, the send gate offers no
/// second one, whatever the packet looks like. Together with the contracts
/// above — reservation raises the flag, only the terminal notification
/// lowers it — no two frames are ever simultaneously in that window.
pub proof fn lemma_in_flight_excludes_offer(pkt_type: PacketType, is_closing: bool)
    ensures
        !multiplex_gate(pkt_type, is_closing, true),
{
}

} // verus!
