use quic_extensions::ack_frequency::AckFrequencyContext;
use quic_extensions::codec::{be_decode, be_encode};
use quic_extensions::PacketType;

#[test]
fn pacing_negotiated_interval_scenario() {
    // Negotiate a 10 ms (10000 us) minimum interval, then gate three
    // ack-eliciting packets: at t0, at t0 + 5 ms, and at t0 + 11 ms.
    let (mut ctx, _regs) = AckFrequencyContext::init();
    let status = ctx.decode_transport_parameter_ff04de1b(&vec![0x27, 0x10]);
    assert_eq!(status, quic_extensions::CalloutStatus::Done);
    assert_eq!(ctx.min_ack, Some(10000));

    let t0: u64 = 1_000_000;
    assert!(ctx.should_send_frame_2(PacketType::Short, true, true, false, t0));
    assert_eq!(ctx.last_sent, Some(t0));
    assert!(!ctx.should_send_frame_2(PacketType::Short, true, true, false, t0 + 5_000));
    assert_eq!(ctx.last_sent, Some(t0));
    assert!(ctx.should_send_frame_2(PacketType::Short, true, true, false, t0 + 11_000));
    assert_eq!(ctx.last_sent, Some(t0 + 11_000));
}

#[test]
fn pacing_first_decision_gated_by_base_condition_only() {
    // No recorded send: the decision is exactly the base protocol condition.
    let (mut ctx, _regs) = AckFrequencyContext::init();
    let _ = ctx.decode_transport_parameter_ff04de1b(&vec![0x27, 0x10]);
    assert!(!ctx.should_send_frame_2(PacketType::Short, false, true, false, 5));
    assert!(!ctx.should_send_frame_2(PacketType::Short, true, false, false, 5));
    assert!(!ctx.should_send_frame_2(PacketType::Short, true, true, true, 5));
    assert_eq!(ctx.last_sent, None);
    assert!(ctx.should_send_frame_2(PacketType::Short, true, true, false, 5));
    assert_eq!(ctx.last_sent, Some(5));
}

#[test]
fn pacing_blocked_within_interval_whatever_else_holds() {
    // With a recorded send and less than the interval elapsed, the decision
    // is negative even though every base condition holds.
    let (mut ctx, _regs) = AckFrequencyContext::init();
    let _ = ctx.decode_transport_parameter_ff04de1b(&vec![0x27, 0x10]);
    assert!(ctx.should_send_frame_2(PacketType::Short, true, true, false, 100));
    assert!(!ctx.should_send_frame_2(PacketType::Handshake, true, true, true, 101));
    assert!(!ctx.should_send_frame_2(PacketType::Short, true, true, false, 10_099));
    assert!(ctx.should_send_frame_2(PacketType::Short, true, true, false, 10_100));
}

#[test]
fn pacing_closing_allows_only_handshake_space() {
    let (mut ctx, _regs) = AckFrequencyContext::init();
    assert!(!ctx.should_send_frame_2(PacketType::Short, true, true, true, 7));
    assert!(ctx.should_send_frame_2(PacketType::Handshake, true, true, true, 7));
}

#[test]
fn pacing_without_negotiation_gate_is_base_condition() {
    // No negotiated interval: every base-true decision passes, back to back.
    let (mut ctx, _regs) = AckFrequencyContext::init();
    assert!(ctx.should_send_frame_2(PacketType::Short, true, true, false, 1));
    assert!(ctx.should_send_frame_2(PacketType::Short, true, true, false, 2));
}

#[test]
fn pacing_parameter_decode_left_pads_to_eight_bytes() {
    let (mut ctx, _regs) = AckFrequencyContext::init();
    let _ = ctx.decode_transport_parameter_ff04de1b(&vec![0x10]);
    assert_eq!(ctx.min_ack, Some(16));
    let _ = ctx.decode_transport_parameter_ff04de1b(&vec![
        0x00, 0x00, 0x00, 0x00, 0x00, 0x00, 0x27, 0x10,
    ]);
    assert_eq!(ctx.min_ack, Some(10000));
    let _ = ctx.decode_transport_parameter_ff04de1b(&vec![]);
    assert_eq!(ctx.min_ack, Some(0));
}

#[test]
fn pacing_parameter_write_is_fixed_ten_milliseconds() {
    let (ctx, _regs) = AckFrequencyContext::init();
    assert_eq!(
        ctx.write_transport_parameter_ff04de1b(),
        vec![0xc0, 0x00, 0x00, 0x00, 0xff, 0x04, 0xde, 0x1b, 0x02, 0x27, 0x10]
    );
}

#[test]
fn codec_round_trips_every_width_case() {
    for v in [0u64, 1, 255, 256, 0xdead_beef, u64::MAX] {
        let bytes = be_encode(v, 8);
        assert_eq!(bytes.len(), 8);
        assert_eq!(be_decode(&bytes), v);
    }
    assert_eq!(be_encode(10000, 2), vec![0x27, 0x10]);
    assert_eq!(be_encode(0, 0), Vec::<u8>::new());
}

#[test]
fn codec_decode_ignores_leading_zero_bytes() {
    assert_eq!(be_decode(&vec![0x00, 0x00, 0x27, 0x10]), 10000);
    assert_eq!(be_decode(&vec![0x27, 0x10]), 10000);
    assert_eq!(be_decode(&vec![]), 0);
}
