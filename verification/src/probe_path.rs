//! Path-validation extension.
//!
//! On an external trigger (a capability call), the next short-header packet
//! of a connection that is not closing offers a challenge frame carrying a
//! random 64-bit nonce. When the host commits it, the pair (nonce, send
//! time) is recorded; several challenges may be outstanding at once. A
//! response whose nonce matches a pending challenge yields the elapsed time
//! since that challenge was sent and removes the entry; a response with a
//! nonce matching nothing leaves every entry pending.

use vstd::prelude::*;
use crate::{Frame, FrameRegistration, PacketType, PathChallengeFrame, Registration, SendKind,
    SendOrder};
use crate::codec::{be_encode, be_val, lemma_pow256_8};
use crate::rng::{rng_any_u64, rng_with_seed};

verus! {

/// The send decision of the challenge frame: a short-header packet, a connection
/// that is not closing, and a challenge owed.
pub open spec fn challenge_gate(pkt_type: PacketType, is_closing: bool, need_challenge: bool)
    -> bool {
    pkt_type == PacketType::Short && !is_closing && need_challenge
}

/// Time elapsed from `then` to `now`, zero if the clock stands earlier.
pub open spec fn elapsed(now: u64, then: u64) -> u64 {
    if now >= then {
        (now - then) as u64
    } else {
        0
    }
}

/// The measured intervals a response with nonce `data` at `now` yields from
/// the pending entries `s`: one interval per matching entry, in order.
pub open spec fn measured_intervals(s: Seq<(u64, u64)>, data: u64, now: u64) -> Seq<u64>
    decreases s.len(),
{
    if s.len() == 0 {
        Seq::empty()
    } else {
        let rest = measured_intervals(s.drop_last(), data, now);
        if s.last().0 == data {
            rest.push(elapsed(now, s.last().1))
        } else {
            rest
        }
    }
}

/// The entries a response with nonce `data` leaves pending: those whose
/// nonce differs, in order.
pub open spec fn remaining_entries(s: Seq<(u64, u64)>, data: u64) -> Seq<(u64, u64)>
    decreases s.len(),
{
    if s.len() == 0 {
        Seq::empty()
    } else {
        let rest = remaining_entries(s.drop_last(), data);
        if s.last().0 == data {
            rest
        } else {
            rest.push(s.last())
        }
    }
}

/// Per-connection state of the path-validation extension.
pub struct ProbePathContext {
    /// A challenge is owed on the next opportunity.
    pub need_challenge: bool,
    /// The outstanding challenges: nonce and send time, microseconds.
    pub challenge_time: Vec<(u64, u64)>,
}

impl ProbePathContext {
    /// Fresh state, and what the host must register: the challenge frame,
    /// polled after the acknowledgment block.
    pub fn init() -> (r: (ProbePathContext, Vec<Registration>))
        ensures
            !r.0.need_challenge,
            r.0.challenge_time@ == Seq::<(u64, u64)>::empty(),
            r.1@ == seq![
                Registration::Frame(
                    FrameRegistration {
                        frame_type: 0x1a,
                        send_order: SendOrder::AfterAck,
                        send_kind: SendKind::OncePerPacket,
                        ack_eliciting: false,
                        in_flight_tracked: true,
                    },
                ),
            ],
    {
        let ctx = ProbePathContext { need_challenge: false, challenge_time: Vec::new() };
        let mut regs: Vec<Registration> = Vec::new();
        regs.push(
            Registration::Frame(
                FrameRegistration {
                    frame_type: 0x1a,
                    send_order: SendOrder::AfterAck,
                    send_kind: SendKind::OncePerPacket,
                    ack_eliciting: false,
                    in_flight_tracked: true,
                },
            ),
        );
        proof {
            assert(ctx.challenge_time@ =~= Seq::<(u64, u64)>::empty());
            assert(regs@ =~= seq![
                Registration::Frame(
                    FrameRegistration {
                        frame_type: 0x1a,
                        send_order: SendOrder::AfterAck,
                        send_kind: SendKind::OncePerPacket,
                        ack_eliciting: false,
                        in_flight_tracked: true,
                    },
                ),
            ]);
        }
        (ctx, regs)
    }

    /// The send gate of the challenge frame.
    pub fn should_send_frame_1a(&self, pkt_type: PacketType, is_closing: bool) -> (r: bool)
        ensures
            r == challenge_gate(pkt_type, is_closing, self.need_challenge),
    {
        pkt_type == PacketType::Short && !is_closing && self.need_challenge
    }

    /// The challenge to commit: a nonce drawn from a generator seeded with
    /// `seed`. Nothing is promised of the nonce's value; everything after
    /// this call is verified for every nonce.
    pub fn prepare_frame_1a(&self, seed: u64) -> (r: Frame)
        ensures
            r matches Frame::PathChallenge(_),
    {
        let mut rng = rng_with_seed(seed);
        let data = rng_any_u64(&mut rng);
        Frame::PathChallenge(PathChallengeFrame { data })
    }

    /// The wire bytes of a challenge: the one-byte frame type, then the
    /// nonce as eight big-endian bytes.
    pub fn write_frame_1a(&self, data: u64) -> (r: Vec<u8>)
        ensures
            r@.len() == 9,
            r@[0] == 0x1au8,
            be_val(r@.subrange(1, 9)) == data as nat,
    {
        let mut r: Vec<u8> = Vec::new();
        r.push(0x1a);
        proof {
            lemma_pow256_8();
        }
        let mut payload = be_encode(data, 8);
        let ghost payload_view = payload@;
        r.append(&mut payload);
        proof {
            assert(r@.subrange(1, 9) =~= payload_view);
        }
        r
    }

    /// The host committed the challenge: record (nonce, send time); the
    /// trigger is consumed.
    pub fn on_frame_reserved_1a(&mut self, data: u64, now: u64)
        ensures
            final(self).challenge_time@ == old(self).challenge_time@.push((data, now)),
            !final(self).need_challenge,
    {
        self.challenge_time.push((data, now));
        self.need_challenge = false;
    }

    /// A response arrived. Every pending challenge whose nonce matches is
    /// measured — elapsed time from its send time to `now` — and removed;
    /// entries with any other nonce stay pending, in order.
    pub fn pre_process_frame_1b(&mut self, data: u64, now: u64) -> (r: Vec<u64>)
        ensures
            final(self).challenge_time@ == remaining_entries(old(self).challenge_time@, data),
            r@ == measured_intervals(old(self).challenge_time@, data, now),
            final(self).need_challenge == old(self).need_challenge,
    {
        let ghost all = self.challenge_time@;
        let mut kept: Vec<(u64, u64)> = Vec::new();
        let mut out: Vec<u64> = Vec::new();
        let n = self.challenge_time.len();
        let mut i: usize = 0;
        proof {
            assert(all.subrange(0, 0) =~= Seq::<(u64, u64)>::empty());
        }
        while i < n
            invariant
                i <= n,
                n == all.len(),
                self.challenge_time@ == all,
                self.need_challenge == old(self).need_challenge,
                kept@ == remaining_entries(all.subrange(0, i as int), data),
                out@ == measured_intervals(all.subrange(0, i as int), data, now),
            decreases n - i,
        {
            let (nonce, sent) = self.challenge_time[i];
            proof {
                assert(all.subrange(0, i + 1).drop_last() =~= all.subrange(0, i as int));
                assert(all.subrange(0, i + 1).last() == all[i as int]);
            }
            if nonce == data {
                let interval = if now >= sent {
                    now - sent
                } else {
                    0
                };
                out.push(interval);
            } else {
                kept.push((nonce, sent));
            }
            i = i + 1;
        }
        proof {
            assert(all.subrange(0, n as int) =~= all);
        }
        self.challenge_time = kept;
        out
    }

    /// Capability entry point: ask for a challenge on the next opportunity.
    pub fn plugin_control_1(&mut self)
        ensures
            final(self).need_challenge,
            final(self).challenge_time@ == old(self).challenge_time@,
    {
        self.need_challenge = true;
    }
}

/// A sequence that contains an element still contains it after a push.
proof fn lemma_push_keeps_contains<A>(s: Seq<A>, x: A, y: A)
    requires
        s.contains(y),
    ensures
        s.push(x).contains(y),
{
    let j = choose|j: int| 0 <= j < s.len() && s[j] == y;
    assert(s.push(x)[j] == y);
}

/// Response law: a response removes exactly the pending challenges that
/// carry its nonce. Every entry with a different nonce is still pending
/// afterwards, and nothing pending afterwards carries the responded nonce —
/// so a response whose nonce matches nothing leaves the entries as they
/// were.
pub proof fn lemma_response_removes_only_matches(s: Seq<(u64, u64)>, data: u64)
    ensures
        forall|i: int|
            0 <= i < s.len() && s[i].0 != data ==> remaining_entries(s, data).contains(s[i]),
        forall|j: int| 0 <= j < remaining_entries(s, data).len()
            ==> #[trigger] remaining_entries(s, data)[j].0 != data,
        (forall|i: int| 0 <= i < s.len() ==> #[trigger] s[i].0 != data) ==> remaining_entries(
            s,
            data,
        ) == s,
    decreases s.len(),
{
    if s.len() > 0 {
        let prefix = s.drop_last();
        lemma_response_removes_only_matches(prefix, data);
        let rest = remaining_entries(prefix, data);
        assert forall|i: int| 0 <= i < s.len() && s[i].0 != data implies remaining_entries(
            s,
            data,
        ).contains(s[i]) by {
            if i < s.len() - 1 {
                assert(prefix[i] == s[i]);
                assert(rest.contains(s[i]));
                if s.last().0 != data {
                    lemma_push_keeps_contains(rest, s.last(), s[i]);
                }
            } else {
                assert(remaining_entries(s, data) == rest.push(s.last()));
                assert(remaining_entries(s, data)[rest.len() as int] == s[i]);
            }
        }
        if forall|i: int| 0 <= i < s.len() ==> #[trigger] s[i].0 != data {
            assert(forall|i: int| 0 <= i < prefix.len() ==> #[trigger] prefix[i].0 != data);
            assert(s.last().0 != data);
            assert(remaining_entries(s, data) =~= s);
        }
    }
}

/// Measurement law: a single matching pending challenge sent at `sent` and
/// answered at `now` yields exactly one measured interval, `now - sent`.
pub proof fn lemma_single_match_measures_elapsed(
    s: Seq<(u64, u64)>,
    data: u64,
    sent: u64,
    now: u64,
)
    requires
        forall|i: int| 0 <= i < s.len() ==> #[trigger] s[i].0 != data,
        sent <= now,
    ensures
        measured_intervals(s.push((data, sent)), data, now) == seq![(now - sent) as u64],
    decreases s.len(),
{
    let t = s.push((data, sent));
    assert(t.drop_last() =~= s);
    lemma_no_match_measures_nothing(s, data, now);
    assert(measured_intervals(t, data, now) =~= seq![(now - sent) as u64]);
}

/// No matching pending challenge, no measured interval.
pub proof fn lemma_no_match_measures_nothing(s: Seq<(u64, u64)>, data: u64, now: u64)
    requires
        forall|i: int| 0 <= i < s.len() ==> #[trigger] s[i].0 != data,
    ensures
        measured_intervals(s, data, now) == Seq::<u64>::empty(),
    decreases s.len(),
{
    if s.len() > 0 {
        assert(s.drop_last() =~= s.subrange(0, s.len() - 1));
        assert(forall|i: int| 0 <= i < s.drop_last().len() ==> #[trigger] s.drop_last()[i].0
            != data);
        lemma_no_match_measures_nothing(s.drop_last(), data, now);
    }
}

} // verus!
