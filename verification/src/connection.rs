//! Per-connection assembly: the installed extensions, the capability bus,
//! and the packet-build polling.
//!
//! One connection holds at most one instance of each extension; an absent
//! one is simply not installed. The capability bus is the only sanctioned
//! cross-extension mutation path: a synchronous call by numeric capability
//! id whose "not installed" outcome is legitimate, not an error. Once per
//! outgoing packet the host polls the installed extensions' send gates in
//! `(send order, registration order)` — the `First` bucket, then `AfterAck`,
//! then `End` — and a prepare callback answering the abort sentinel
//! discards the packet's whole frame construction.

use vstd::prelude::*;
use crate::{CalloutStatus, FrameRegistration, PacketType, SendOrder, TimerArm};
use crate::ack_frequency::{ack_gate, AckFrequencyContext};
use crate::bdp_frame::{bdp_gate, BdpFrameContext};
use crate::padding::{padding_gate, sentinel_gate, PaddingContext, JITTER_BOUND_MICROS,
    PADDING_EXTENSION_ID, PADDING_TIMER_ID};
use crate::probe_path::{challenge_gate, ProbePathContext};
use crate::super_frame::{multiplex_gate, SuperFrameContext, CADENCE_COUNT};

verus! {

/// Capability id of the padding extension's enable/disable toggle.
pub const CAPABILITY_TOGGLE_PADDING: u64 = 0x80001;

/// Capability id of the path-validation extension's challenge trigger.
pub const CAPABILITY_REQUEST_CHALLENGE: u64 = 0x1;

/// Outcome of a capability call. `NotInstalled` means the addressed
/// extension is absent — an expected outcome the caller treats as "feature
/// absent", never as an error to propagate.
#[derive(Clone, Copy, Debug, PartialEq, Eq, Structural)]
pub enum CapabilityOutcome {
    Applied,
    NotInstalled,
}

/// What one packet-build poll decided: either some extension aborted the
/// packet's frame construction, or these frame types were offered, in
/// polling order.
#[derive(Debug)]
pub enum PollOutcome {
    Aborted,
    Offers(Vec<u64>),
}

/// The facts about the packet under construction that the send gates read.
#[derive(Clone, Copy, Debug, PartialEq, Eq, Structural)]
pub struct PacketInfo {
    pub pkt_type: PacketType,
    pub is_closing: bool,
    /// The handshake has completed.
    pub established: bool,
    /// Remaining packet budget, bytes.
    pub left: u64,
    /// Current time, microseconds.
    pub now: u64,
    /// The packet elicits an acknowledgment.
    pub ack_elicited: bool,
    /// A received packet needs acknowledging in this packet's number space.
    pub need_ack: bool,
}

/// The extension instances of one connection. Different connections hold
/// fully isolated instances; nothing here is shared between them.
pub struct Connection {
    pub ack_frequency: Option<AckFrequencyContext>,
    pub bdp: Option<BdpFrameContext>,
    pub super_frame: Option<SuperFrameContext>,
    pub padding: Option<PaddingContext>,
    pub probe_path: Option<ProbePathContext>,
}

/// The sentinel aborts the packet: the padding extension is installed,
/// enabled, and its suppression flag is up.
pub open spec fn sentinel_aborts(conn: Connection) -> bool {
    conn.padding matches Some(p) && sentinel_gate(p.enable, p.stop_sending)
}

/// The frame types one poll offers, in `(send order, registration order)`:
/// the bandwidth hint and the multiplex frame in the `First` bucket, the
/// paced acknowledgment and the path challenge in the `AfterAck` bucket,
/// and the padding frame in the `End` bucket — each when installed and its
/// gate is open.
pub open spec fn offered_types(conn: Connection, info: PacketInfo) -> Seq<u64> {
    let bdp_offer: Seq<u64> = if conn.bdp matches Some(b) && bdp_gate(
        info.pkt_type,
        info.is_closing,
        b.should_send,
    ) {
        seq![0xbdu64]
    } else {
        Seq::empty()
    };
    let multiplex_offer: Seq<u64> = if conn.super_frame matches Some(sf) && multiplex_gate(
        info.pkt_type,
        info.is_closing,
        sf.in_flight,
    ) {
        seq![0x42u64]
    } else {
        Seq::empty()
    };
    let ack_offer: Seq<u64> = if conn.ack_frequency matches Some(a) && ack_gate(
        a.min_ack,
        a.last_sent,
        info.now,
        info.need_ack,
        info.ack_elicited,
        info.is_closing,
        info.pkt_type,
    ) {
        seq![0xafu64]
    } else {
        Seq::empty()
    };
    let challenge_offer: Seq<u64> = if conn.probe_path matches Some(pr) && challenge_gate(
        info.pkt_type,
        info.is_closing,
        pr.need_challenge,
    ) {
        seq![0x1au64]
    } else {
        Seq::empty()
    };
    let padding_offer: Seq<u64> = if conn.padding matches Some(p) && padding_gate(
        info.pkt_type,
        info.left,
        p.enable,
    ) {
        seq![0x0u64]
    } else {
        Seq::empty()
    };
    bdp_offer + multiplex_offer + ack_offer + challenge_offer + padding_offer
}

impl Connection {
    /// A connection with no extension installed.
    pub fn new() -> (r: Connection)
        ensures
            r.ack_frequency is None,
            r.bdp is None,
            r.super_frame is None,
            r.padding is None,
            r.probe_path is None,
    {
        Connection {
            ack_frequency: None,
            bdp: None,
            super_frame: None,
            padding: None,
            probe_path: None,
        }
    }

    /// The capability bus: a synchronous call into the extension the id
    /// names. The padding toggle sets that extension's enable flag to
    /// `arg`; the challenge trigger asks the path-validation extension for
    /// a challenge on the next opportunity (its `arg` is ignored). An
    /// absent extension, or an unknown id, answers `NotInstalled` and
    /// changes nothing.
    pub fn invoke_capability(&mut self, capability_id: u64, arg: bool) -> (r: CapabilityOutcome)
        ensures
            final(self).ack_frequency == old(self).ack_frequency,
            final(self).bdp == old(self).bdp,
            final(self).super_frame == old(self).super_frame,
            capability_id == CAPABILITY_TOGGLE_PADDING ==> {
                &&& final(self).probe_path == old(self).probe_path
                &&& match old(self).padding {
                    Some(p) => {
                        &&& r == CapabilityOutcome::Applied
                        &&& final(self).padding matches Some(q)
                        &&& (final(self).padding matches Some(q) ==> q.enable == arg
                            && q.stop_sending == p.stop_sending)
                    },
                    None => r == CapabilityOutcome::NotInstalled && final(self).padding is None,
                }
            },
            capability_id == CAPABILITY_REQUEST_CHALLENGE ==> {
                &&& final(self).padding == old(self).padding
                &&& match old(self).probe_path {
                    Some(p) => {
                        &&& r == CapabilityOutcome::Applied
                        &&& final(self).probe_path matches Some(q)
                        &&& (final(self).probe_path matches Some(q) ==> q.need_challenge
                            && q.challenge_time@ == p.challenge_time@)
                    },
                    None => r == CapabilityOutcome::NotInstalled
                        && final(self).probe_path is None,
                }
            },
            (capability_id != CAPABILITY_TOGGLE_PADDING && capability_id
                != CAPABILITY_REQUEST_CHALLENGE) ==> r == CapabilityOutcome::NotInstalled
                && *final(self) == *old(self),
    {
        if capability_id == CAPABILITY_TOGGLE_PADDING {
            match &mut self.padding {
                Some(p) => {
                    let _ = p.plugin_control_80001(arg);
                    CapabilityOutcome::Applied
                },
                None => CapabilityOutcome::NotInstalled,
            }
        } else if capability_id == CAPABILITY_REQUEST_CHALLENGE {
            match &mut self.probe_path {
                Some(p) => {
                    p.plugin_control_1();
                    CapabilityOutcome::Applied
                },
                None => CapabilityOutcome::NotInstalled,
            }
        } else {
            CapabilityOutcome::NotInstalled
        }
    }

    /// Receive-side processing of one multiplex frame. The processed-frame
    /// counter runs from zero; when it stands at the cadence count, the
    /// call toggles the padding extension over the capability bus —
    /// alternating the argument on each successful call — and the counter
    /// returns to zero; otherwise the counter advances. An absent padding
    /// extension makes the toggle a no-op.
    pub fn process_frame_42(&mut self) -> (r: CalloutStatus)
        requires
            old(self).super_frame matches Some(sf) && sf.wf(),
        ensures
            r == CalloutStatus::Done,
            final(self).ack_frequency == old(self).ack_frequency,
            final(self).bdp == old(self).bdp,
            final(self).probe_path == old(self).probe_path,
            final(self).super_frame is Some,
            old(self).super_frame matches Some(o) ==> final(self).super_frame matches Some(f)
                && {
                &&& f.wf()
                &&& f.enabled == o.enabled
                &&& f.in_flight == o.in_flight
                &&& f.frames == o.frames
                &&& if o.cnt == CADENCE_COUNT {
                    &&& f.cnt == 0
                    &&& match old(self).padding {
                        Some(p) => {
                            &&& f.flip == !o.flip
                            &&& final(self).padding matches Some(q)
                            &&& (final(self).padding matches Some(q) ==> q.enable == o.flip
                                && q.stop_sending == p.stop_sending)
                        },
                        None => f.flip == o.flip && final(self).padding is None,
                    }
                } else {
                    &&& f.cnt == o.cnt + 1
                    &&& f.flip == o.flip
                    &&& final(self).padding == old(self).padding
                }
            },
    {
        let (cnt, flip) = match &self.super_frame {
            Some(sf) => (sf.cnt, sf.flip),
            None => (0, false),
        };
        if cnt == CADENCE_COUNT {
            let outcome = self.invoke_capability(CAPABILITY_TOGGLE_PADDING, flip);
            let applied = match outcome {
                CapabilityOutcome::Applied => true,
                CapabilityOutcome::NotInstalled => false,
            };
            if let Some(sf) = &mut self.super_frame {
                if applied {
                    sf.flip = !flip;
                }
                sf.cnt = 0;
            }
        } else {
            if let Some(sf) = &mut self.super_frame {
                sf.cnt = cnt + 1;
            }
        }
        CalloutStatus::Done
    }

    /// One packet-build poll: every installed extension's send gate, in
    /// `(send order, registration order)`. If the padding sentinel's gate
    /// is open in the `First` bucket, its prepare callback aborts the
    /// packet: no frame is offered and no state has changed, so the
    /// suppression stays in force for the next packet too, until the
    /// padding timer fires. Otherwise the offered frame types are returned
    /// in polling order; the pacing gate records its positive decision, and
    /// the padding trigger may raise the suppression flag and ask for a
    /// jittered timer.
    pub fn poll_frames(&mut self, info: &PacketInfo) -> (r: (PollOutcome, Option<TimerArm>))
        requires
            info.now <= u64::MAX - JITTER_BOUND_MICROS,
        ensures
            r.0 is Aborted <==> sentinel_aborts(*old(self)),
            sentinel_aborts(*old(self)) ==> *final(self) == *old(self) && r.1 is None,
            !sentinel_aborts(*old(self)) ==> {
                &&& r.0 matches PollOutcome::Offers(offers)
                &&& (r.0 matches PollOutcome::Offers(offers) ==> offers@ == offered_types(
                    *old(self),
                    *info,
                ))
                &&& final(self).bdp == old(self).bdp
                &&& final(self).super_frame == old(self).super_frame
                &&& final(self).probe_path == old(self).probe_path
                &&& match old(self).ack_frequency {
                    Some(a) => {
                        &&& final(self).ack_frequency matches Some(a2)
                        &&& (final(self).ack_frequency matches Some(a2) ==> a2.min_ack
                            == a.min_ack && if ack_gate(
                            a.min_ack,
                            a.last_sent,
                            info.now,
                            info.need_ack,
                            info.ack_elicited,
                            info.is_closing,
                            info.pkt_type,
                        ) {
                            a2.last_sent == Some(info.now)
                        } else {
                            a2.last_sent == a.last_sent
                        })
                    },
                    None => final(self).ack_frequency is None,
                }
                &&& match old(self).padding {
                    Some(p) => {
                        &&& final(self).padding matches Some(q)
                        &&& (final(self).padding matches Some(q) ==> q.enable == p.enable
                            && if info.pkt_type == PacketType::Short && info.established {
                            &&& q.stop_sending
                            &&& r.1 matches Some(arm)
                            &&& (r.1 matches Some(arm) ==> arm.extension_id
                                == PADDING_EXTENSION_ID && arm.timer_id == PADDING_TIMER_ID
                                && info.now <= arm.deadline < info.now + JITTER_BOUND_MICROS)
                        } else {
                            q.stop_sending == p.stop_sending && r.1 is None
                        })
                    },
                    None => final(self).padding is None && r.1 is None,
                }
            },
    {
        let mut offers: Vec<u64> = Vec::new();
        // First bucket.
        if let Some(b) = &self.bdp {
            if b.should_send_frame_bd(info.pkt_type, info.is_closing) {
                offers.push(0xbd);
            }
        }
        if let Some(sf) = &self.super_frame {
            if sf.should_send_frame_42(info.pkt_type, info.is_closing) {
                offers.push(0x42);
            }
        }
        if let Some(p) = &self.padding {
            if p.should_send_frame_aaaa() {
                match p.prepare_frame_aaaa() {
                    CalloutStatus::Abort => {
                        return (PollOutcome::Aborted, None);
                    },
                    _ => {},
                }
            }
        }
        // AfterAck bucket.
        if let Some(a) = &mut self.ack_frequency {
            if a.should_send_frame_2(
                info.pkt_type,
                info.ack_elicited,
                info.need_ack,
                info.is_closing,
                info.now,
            ) {
                offers.push(0xaf);
            }
        }
        if let Some(pr) = &self.probe_path {
            if pr.should_send_frame_1a(info.pkt_type, info.is_closing) {
                offers.push(0x1a);
            }
        }
        // End bucket.
        let mut timer: Option<TimerArm> = None;
        if let Some(p) = &mut self.padding {
            let (gate, arm) = p.should_send_frame_0(
                info.pkt_type,
                info.left,
                info.now,
                info.established,
            );
            timer = arm;
            if gate {
                offers.push(0x0);
            }
        }
        proof {
            assert(offers@ =~= offered_types(*old(self), *info));
        }
        (PollOutcome::Offers(offers), timer)
    }
}

/// The registrations whose send order is `order`, in registration order.
pub open spec fn bucket(s: Seq<FrameRegistration>, order: SendOrder) -> Seq<FrameRegistration>
    decreases s.len(),
{
    if s.len() == 0 {
        Seq::empty()
    } else {
        let rest = bucket(s.drop_last(), order);
        if s.last().send_order == order {
            rest.push(s.last())
        } else {
            rest
        }
    }
}

/// The order in which the host attempts frame emission: by send-order
/// bucket — `First`, then `AfterAck`, then `End` — and within a bucket by
/// registration sequence. The ordering is stable: registrations of one
/// bucket keep their relative order.
pub fn poll_order(regs: &Vec<FrameRegistration>) -> (r: Vec<FrameRegistration>)
    ensures
        r@ == bucket(regs@, SendOrder::First) + bucket(regs@, SendOrder::AfterAck) + bucket(
            regs@,
            SendOrder::End,
        ),
{
    let ghost all = regs@;
    let mut first: Vec<FrameRegistration> = Vec::new();
    let mut after: Vec<FrameRegistration> = Vec::new();
    let mut end: Vec<FrameRegistration> = Vec::new();
    let n = regs.len();
    let mut i: usize = 0;
    proof {
        assert(all.subrange(0, 0) =~= Seq::<FrameRegistration>::empty());
    }
    while i < n
        invariant
            i <= n,
            n == all.len(),
            regs@ == all,
            first@ == bucket(all.subrange(0, i as int), SendOrder::First),
            after@ == bucket(all.subrange(0, i as int), SendOrder::AfterAck),
            end@ == bucket(all.subrange(0, i as int), SendOrder::End),
        decreases n - i,
    {
        proof {
            assert(all.subrange(0, i + 1).drop_last() =~= all.subrange(0, i as int));
            assert(all.subrange(0, i + 1).last() == all[i as int]);
        }
        let reg = regs[i];
        match reg.send_order {
            SendOrder::First => first.push(reg),
            SendOrder::AfterAck => after.push(reg),
            SendOrder::End => end.push(reg),
        }
        i = i + 1;
    }
    proof {
        assert(all.subrange(0, n as int) =~= all);
    }
    let mut r = first;
    r.append(&mut after);
    r.append(&mut end);
    r
}

/// Packet-suppression law: while the padding extension is installed and
/// suppressed, a poll aborts the packet and leaves every extension — the
/// suppression flag included — exactly as it was. So from the trigger on,
/// packet after packet is aborted, until the timer callback lowers the
/// flag.
pub proof fn lemma_suppression_holds_until_timer(conn: Connection)
    requires
        conn.padding matches Some(p) && p.enable && p.stop_sending,
    ensures
        sentinel_aborts(conn),
{
}

} // verus!

