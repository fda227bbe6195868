use quic_extensions::connection::{
    CapabilityOutcome, Connection, PacketInfo, PollOutcome, CAPABILITY_REQUEST_CHALLENGE,
    CAPABILITY_TOGGLE_PADDING,
};
use quic_extensions::padding::PaddingContext;
use quic_extensions::probe_path::ProbePathContext;
use quic_extensions::super_frame::SuperFrameContext;
use quic_extensions::tag_table::TagTable;
use quic_extensions::timer::TimerQueue;
use quic_extensions::{CalloutStatus, ExtensionFrame, Frame, FrameRegistration, PacketType,
    SendKind, SendOrder};

fn short_packet(now: u64) -> PacketInfo {
    PacketInfo {
        pkt_type: PacketType::Short,
        is_closing: false,
        established: true,
        left: 100,
        now,
        ack_elicited: true,
        need_ack: true,
    }
}

#[test]
fn tag_table_cycle_returns_to_baseline() {
    let mut table: TagTable<u8> = TagTable::new();
    assert_eq!(table.len(), 0);
    let t1 = table.allocate();
    table.store(t1, 11);
    assert_eq!(table.len(), 1);
    assert_eq!(table.fetch(t1), Some(&11));
    table.release(t1);
    assert_eq!(table.len(), 0);
    assert_eq!(table.fetch(t1), None);
    // A released tag is never reissued: the next handle is fresh.
    let t2 = table.allocate();
    assert_ne!(t1, t2);
    table.store(t2, 22);
    table.release(t2);
    assert_eq!(table.len(), 0);
}

#[test]
fn tag_table_release_of_absent_tag_changes_nothing() {
    let mut table: TagTable<u8> = TagTable::new();
    let t = table.allocate();
    table.store(t, 5);
    table.release(99);
    assert_eq!(table.len(), 1);
    assert_eq!(table.fetch(t), Some(&5));
}

#[test]
fn multiplex_send_cycle_and_baseline() {
    let (mut ctx, _regs) = SuperFrameContext::init();
    let frame = ctx.prepare_frame_42();
    assert_eq!(
        frame,
        Frame::Extension(ExtensionFrame { frame_type: 0x42, tag: 0 })
    );
    assert_eq!(ctx.frames.len(), 1);
    assert_eq!(ctx.write_frame_42(0), Ok(vec![0x40, 0x42, 0x00]));
    assert_eq!(ctx.write_frame_42(1), Err(-2));
    ctx.on_frame_reserved_42();
    ctx.notify_frame_42(0, false);
    assert_eq!(ctx.frames.len(), 0);
    assert!(!ctx.in_flight);
}

#[test]
fn multiplex_parse_stores_payload_under_fresh_tag() {
    let (mut ctx, _regs) = SuperFrameContext::init();
    let frame = ctx.parse_frame_42(&vec![7, 99]).unwrap();
    assert_eq!(
        frame,
        Frame::Extension(ExtensionFrame { frame_type: 0x42, tag: 0 })
    );
    assert_eq!(ctx.write_frame_42(0), Ok(vec![0x40, 0x42, 7]));
    assert_eq!(ctx.parse_frame_42(&vec![]), Err(-2));
    ctx.notify_frame_42(0, false);
    assert_eq!(ctx.frames.len(), 0);
}

#[test]
fn multiplex_in_flight_excludes_second_offer() {
    let (mut ctx, _regs) = SuperFrameContext::init();
    assert!(ctx.should_send_frame_42(PacketType::Short, false));
    ctx.on_frame_reserved_42();
    assert!(!ctx.should_send_frame_42(PacketType::Short, false));
    ctx.notify_frame_42(0, true);
    assert!(ctx.should_send_frame_42(PacketType::Short, false));
    assert!(!ctx.should_send_frame_42(PacketType::Initial, false));
    assert!(!ctx.should_send_frame_42(PacketType::Short, true));
}

#[test]
fn multiplex_parameter_bytes_and_wire_len() {
    let (mut ctx, _regs) = SuperFrameContext::init();
    assert_eq!(
        ctx.write_transport_parameter_aaaaaaaa(),
        vec![0xc0, 0x00, 0x00, 0x00, 0xaa, 0xaa, 0xaa, 0xaa, 0x00]
    );
    assert_eq!(ctx.wire_len_42(), 3);
    assert!(!ctx.enabled);
    let _ = ctx.decode_transport_parameter_aaaaaaaa();
    assert!(ctx.enabled);
}

#[test]
fn multiplex_cadence_toggles_padding_alternately() {
    // Every fifth processed frame invokes the padding toggle with an
    // alternating argument, then the counter returns to zero.
    let mut conn = Connection::new();
    conn.super_frame = Some(SuperFrameContext::init().0);
    conn.padding = Some(PaddingContext::init(1).0);
    assert!(conn.padding.as_ref().unwrap().enable);

    for _ in 0..5 {
        assert_eq!(conn.process_frame_42(), CalloutStatus::Done);
    }
    assert!(!conn.padding.as_ref().unwrap().enable);
    assert_eq!(conn.super_frame.as_ref().unwrap().cnt, 0);
    assert!(conn.super_frame.as_ref().unwrap().flip);

    for _ in 0..5 {
        let _ = conn.process_frame_42();
    }
    assert!(conn.padding.as_ref().unwrap().enable);
    assert!(!conn.super_frame.as_ref().unwrap().flip);
}

#[test]
fn multiplex_cadence_survives_absent_padding() {
    let mut conn = Connection::new();
    conn.super_frame = Some(SuperFrameContext::init().0);
    for _ in 0..12 {
        assert_eq!(conn.process_frame_42(), CalloutStatus::Done);
    }
    // The toggle was never applied, so the argument never alternated.
    assert!(!conn.super_frame.as_ref().unwrap().flip);
    assert!(conn.super_frame.as_ref().unwrap().cnt <= 4);
}

#[test]
fn capability_bus_not_installed_and_unknown_ids() {
    let mut conn = Connection::new();
    assert_eq!(
        conn.invoke_capability(CAPABILITY_TOGGLE_PADDING, true),
        CapabilityOutcome::NotInstalled
    );
    assert_eq!(
        conn.invoke_capability(CAPABILITY_REQUEST_CHALLENGE, false),
        CapabilityOutcome::NotInstalled
    );
    conn.padding = Some(PaddingContext::init(3).0);
    assert_eq!(
        conn.invoke_capability(0x7777, true),
        CapabilityOutcome::NotInstalled
    );
    assert_eq!(
        conn.invoke_capability(CAPABILITY_TOGGLE_PADDING, false),
        CapabilityOutcome::Applied
    );
    assert!(!conn.padding.as_ref().unwrap().enable);
}

#[test]
fn capability_challenge_trigger_reaches_probe_extension() {
    let mut conn = Connection::new();
    conn.probe_path = Some(ProbePathContext::init().0);
    assert_eq!(
        conn.invoke_capability(CAPABILITY_REQUEST_CHALLENGE, false),
        CapabilityOutcome::Applied
    );
    assert!(conn.probe_path.as_ref().unwrap().need_challenge);
}

#[test]
fn padding_trigger_suppresses_until_timer_fires() {
    // The trigger on a post-handshake short-header packet raises the
    // suppression flag and asks for a jittered timer; while the flag is up
    // the sentinel aborts every poll; the fired timer lifts it.
    let (mut padding, _regs) = PaddingContext::init(0xabcdef);
    let now: u64 = 9_000_000;
    let (gate, arm) = padding.should_send_frame_0(PacketType::Short, 100, now, true);
    assert!(gate);
    assert!(padding.stop_sending);
    let arm = arm.unwrap();
    assert_eq!(arm.extension_id, 1);
    assert_eq!(arm.timer_id, 7);
    assert!(arm.deadline >= now && arm.deadline < now + 10_000);

    assert!(padding.should_send_frame_aaaa());
    assert_eq!(padding.prepare_frame_aaaa(), CalloutStatus::Abort);

    let mut timers = TimerQueue::new();
    timers.arm(arm.deadline, arm.extension_id, arm.timer_id);
    assert!(timers.fire_due(arm.deadline - 1).is_none());
    let fired = timers.fire_due(arm.deadline).unwrap();
    assert_eq!(fired, arm);
    assert_eq!(timers.len(), 0);

    padding.on_plugin_timeout_7();
    assert!(!padding.stop_sending);
    assert!(!padding.should_send_frame_aaaa());
}

#[test]
fn padding_gate_and_toggle() {
    let (mut padding, _regs) = PaddingContext::init(5);
    let (gate, _arm) = padding.should_send_frame_0(PacketType::Initial, 50, 0, false);
    assert!(gate);
    let (gate, _arm) = padding.should_send_frame_0(PacketType::Initial, 0, 0, false);
    assert!(!gate);
    let _ = padding.plugin_control_80001(false);
    let (gate, _arm) = padding.should_send_frame_0(PacketType::Short, 50, 0, false);
    assert!(!gate);
    let (gate, _arm) = padding.should_send_frame_0(PacketType::Initial, 50, 0, false);
    assert!(gate);
}

#[test]
fn padding_frame_is_all_zero_bytes() {
    let (padding, _regs) = PaddingContext::init(5);
    assert_eq!(padding.write_frame_0(5), vec![0u8; 5]);
    assert_eq!(padding.write_frame_0(0), Vec::<u8>::new());
    assert_eq!(padding.wire_len_0(17), 17);
    assert_eq!(
        padding.prepare_frame_0(9),
        Frame::Padding(quic_extensions::PaddingFrame { length: 9 })
    );
}

#[test]
fn poll_offers_in_bucket_then_registration_order() {
    let mut conn = Connection::new();
    let (mut bdp, _) = quic_extensions::bdp_frame::BdpFrameContext::init();
    let _ = bdp.decode_transport_parameter_bf(false);
    conn.bdp = Some(bdp);
    conn.super_frame = Some(SuperFrameContext::init().0);
    conn.ack_frequency = Some(quic_extensions::ack_frequency::AckFrequencyContext::init().0);
    let (mut probe, _) = ProbePathContext::init();
    probe.plugin_control_1();
    conn.probe_path = Some(probe);
    conn.padding = Some(PaddingContext::init(9).0);

    let (outcome, timer) = conn.poll_frames(&short_packet(1_000));
    match outcome {
        PollOutcome::Offers(offers) => {
            assert_eq!(offers, vec![0xbd, 0x42, 0xaf, 0x1a, 0x00]);
        },
        PollOutcome::Aborted => panic!("poll aborted unexpectedly"),
    }
    // The short established packet triggered the padding suppression.
    assert!(timer.is_some());
    assert!(conn.padding.as_ref().unwrap().stop_sending);
    assert_eq!(conn.ack_frequency.as_ref().unwrap().last_sent, Some(1_000));
}

#[test]
fn poll_aborts_while_suppressed_and_resumes_after_timer() {
    let mut conn = Connection::new();
    conn.padding = Some(PaddingContext::init(9).0);
    let (outcome, timer) = conn.poll_frames(&short_packet(1_000));
    assert!(matches!(outcome, PollOutcome::Offers(_)));
    assert!(timer.is_some());

    // Suppression is in force: every further poll aborts, state untouched.
    for round in 0..3u64 {
        let (outcome, timer) = conn.poll_frames(&short_packet(2_000 + round));
        assert!(matches!(outcome, PollOutcome::Aborted));
        assert!(timer.is_none());
        assert!(conn.padding.as_ref().unwrap().stop_sending);
    }

    // The timer callback lifts the suppression; polling resumes.
    conn.padding.as_mut().unwrap().on_plugin_timeout_7();
    let (outcome, _timer) = conn.poll_frames(&short_packet(9_000));
    match outcome {
        PollOutcome::Offers(offers) => assert_eq!(offers, vec![0x00]),
        PollOutcome::Aborted => panic!("suppression should have been lifted"),
    }
}

#[test]
fn timer_queue_fires_oldest_due_entry_once() {
    let mut timers = TimerQueue::new();
    timers.arm(300, 1, 7);
    timers.arm(100, 2, 9);
    timers.arm(200, 3, 11);
    assert!(timers.fire_due(50).is_none());
    let first = timers.fire_due(250).unwrap();
    assert_eq!((first.deadline, first.extension_id, first.timer_id), (100, 2, 9));
    let second = timers.fire_due(250).unwrap();
    assert_eq!((second.deadline, second.extension_id, second.timer_id), (200, 3, 11));
    assert!(timers.fire_due(250).is_none());
    assert_eq!(timers.len(), 1);
}

#[test]
fn poll_order_is_a_stable_bucket_sort() {
    let reg = |frame_type: u64, send_order: SendOrder| FrameRegistration {
        frame_type,
        send_order,
        send_kind: SendKind::OncePerPacket,
        ack_eliciting: false,
        in_flight_tracked: true,
    };
    let regs = vec![
        reg(0x0, SendOrder::End),
        reg(0xaaaa, SendOrder::First),
        reg(0xaf, SendOrder::AfterAck),
        reg(0xbd, SendOrder::First),
        reg(0x1a, SendOrder::AfterAck),
    ];
    let ordered = quic_extensions::connection::poll_order(&regs);
    let types: Vec<u64> = ordered.iter().map(|r| r.frame_type).collect();
    assert_eq!(types, vec![0xaaaa, 0xbd, 0xaf, 0x1a, 0x0]);
}
