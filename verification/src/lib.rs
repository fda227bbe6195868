//! Verified core of a transport-protocol extension framework.
//!
//! Each extension is a small module the host engine drives through lifecycle
//! callbacks: a send-gate decision, frame preparation and encoding, parse and
//! process on the receive side, and a terminal acknowledgment/loss
//! notification. This crate holds the per-connection state machines of the
//! extensions and the pieces they share: the tag correlation table, the
//! single-shot timer queue, and the cross-extension capability bus. The host
//! edge (fetching callback inputs, writing bytes out, scheduling timers) stays
//! outside; every function here works on plain values and carries a contract.

use vstd::prelude::*;

pub mod ack_frequency;
pub mod bdp_frame;
pub mod codec;
pub mod connection;
pub mod max_data;
pub mod padding;
pub mod probe_path;
pub mod rng;
pub mod super_frame;
pub mod tag_table;
pub mod timer;

verus! {

/// The kind of packet the host is building or processing.
#[derive(Clone, Copy, Debug, PartialEq, Eq, Structural)]
pub enum PacketType {
    Initial,
    Handshake,
    ZeroRtt,
    Short,
    Retry,
    VersionNegotiation,
}

/// Position of an extension's frame-emission attempt within one packet:
/// `First` entries are polled before `AfterAck` entries, which are polled
/// before `End` entries; within a bucket, registration order decides.
#[derive(Clone, Copy, Debug, PartialEq, Eq, Structural)]
pub enum SendOrder {
    First,
    AfterAck,
    End,
}

/// How often the frame may appear in one packet.
#[derive(Clone, Copy, Debug, PartialEq, Eq, Structural)]
pub enum SendKind {
    OncePerPacket,
}

/// A frame-emission registration, created once at extension initialization
/// and immutable thereafter.
#[derive(Clone, Copy, Debug, PartialEq, Eq, Structural)]
pub struct FrameRegistration {
    pub frame_type: u64,
    pub send_order: SendOrder,
    pub send_kind: SendKind,
    pub ack_eliciting: bool,
    pub in_flight_tracked: bool,
}

/// What an extension asks the host to register at initialization.
#[derive(Clone, Copy, Debug, PartialEq, Eq, Structural)]
pub enum Registration {
    TransportParameter(u64),
    Frame(FrameRegistration),
}

/// Outcome of a lifecycle callback. `Abort` is the distinguished sentinel
/// that discards the entire packet's frame construction; it is control flow,
/// not a failure. `Failed` carries the callback-local negative code.
#[derive(Clone, Copy, Debug, PartialEq, Eq, Structural)]
pub enum CalloutStatus {
    Done,
    Abort,
    Failed(i64),
}

/// An extension-defined frame whose payload does not self-describe on the
/// wire: the tag correlates it with the payload held in the extension's
/// correlation table.
#[derive(Clone, Copy, Debug, PartialEq, Eq, Structural)]
pub struct ExtensionFrame {
    pub frame_type: u64,
    pub tag: u64,
}

/// A run of zero bytes filling the remaining packet budget.
#[derive(Clone, Copy, Debug, PartialEq, Eq, Structural)]
pub struct PaddingFrame {
    pub length: u64,
}

/// A path challenge carrying a random 64-bit nonce.
#[derive(Clone, Copy, Debug, PartialEq, Eq, Structural)]
pub struct PathChallengeFrame {
    pub data: u64,
}

/// The echo of a path challenge's nonce.
#[derive(Clone, Copy, Debug, PartialEq, Eq, Structural)]
pub struct PathResponseFrame {
    pub data: u64,
}

/// A frame an extension hands to the host for inclusion in a packet.
#[derive(Clone, Copy, Debug, PartialEq, Eq, Structural)]
pub enum Frame {
    Extension(ExtensionFrame),
    Padding(PaddingFrame),
    PathChallenge(PathChallengeFrame),
    PathResponse(PathResponseFrame),
}

/// A request to the host to schedule a single-shot callback.
#[derive(Clone, Copy, Debug, PartialEq, Eq, Structural)]
pub struct TimerArm {
    /// Absolute deadline, microseconds.
    pub deadline: u64,
    pub extension_id: u64,
    pub timer_id: u64,
}

} // verus!
