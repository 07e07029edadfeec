use vor_router::receiver::{Receiver, ReceiverEvent, ReceiverPhase};
use vor_router::route::{AppRoute, RouteEvent, RoutePhase};
use vor_router::router::{handle_router_msg, RouterMsg, ShutdownStep};
use vor_router::status::{Failure, RouteStatus, StatusReport};
use vor_router::filter::{FilterRules, PacketFilter};

fn report(index: i64, status: RouteStatus) -> Option<StatusReport> {
    Some(StatusReport { index, status })
}

#[test]
fn route_reports_running_then_stopped_on_signal() {
    let mut r = AppRoute::new(4, false);
    assert_eq!(r.step(RouteEvent::Bound).report, report(4, RouteStatus::Running));
    assert_eq!(r.phase, RoutePhase::AwaitingControl);
    assert!(r.step(RouteEvent::NoControl).report.is_none());
    assert_eq!(r.phase, RoutePhase::AwaitingBuffer);
    assert!(r.step(RouteEvent::Empty).report.is_none());
    assert_eq!(r.phase, RoutePhase::AwaitingControl);
    assert!(r.step(RouteEvent::Control(false)).report.is_none());
    assert_eq!(r.phase, RoutePhase::AwaitingBuffer);
    assert!(r.step(RouteEvent::Lagged).report.is_none());
    assert_eq!(r.step(RouteEvent::Control(true)).report, report(4, RouteStatus::Stopped));
    assert!(r.is_finished());
}

#[test]
fn route_bind_failure_is_reported_and_final() {
    let mut r = AppRoute::new(2, true);
    assert_eq!(r.step(RouteEvent::BindFailed).report, report(2, RouteStatus::Failed(Failure::AppBind)));
    assert!(r.is_finished());
    for e in [RouteEvent::Bound, RouteEvent::Control(true), RouteEvent::Closed, RouteEvent::Sent] {
        let out = r.step(e);
        assert!(out.report.is_none());
        assert!(!out.emit_debug);
        assert!(r.is_finished());
    }
}

#[test]
fn route_sends_and_shows_debug_only_when_listening() {
    for debugging in [false, true] {
        let mut r = AppRoute::new(0, debugging);
        r.step(RouteEvent::Bound);
        r.step(RouteEvent::NoControl);
        assert!(!r.step(RouteEvent::Received).emit_debug);
        assert_eq!(r.phase, RoutePhase::AwaitingSend);
        let out = r.step(RouteEvent::Sent);
        assert_eq!(out.emit_debug, debugging);
        assert!(out.report.is_none());
        assert_eq!(r.phase, RoutePhase::AwaitingControl);
    }
}

#[test]
fn route_send_failure_is_reported_and_route_carries_on() {
    let mut r = AppRoute::new(9, true);
    r.step(RouteEvent::Bound);
    r.step(RouteEvent::NoControl);
    r.step(RouteEvent::Received);
    let out = r.step(RouteEvent::SendFailed);
    assert_eq!(out.report, report(9, RouteStatus::Failed(Failure::AppSend)));
    assert!(!out.emit_debug);
    assert_eq!(r.phase, RoutePhase::AwaitingControl);
}

#[test]
fn route_stops_when_buffer_channel_closes() {
    let mut r = AppRoute::new(1, false);
    r.step(RouteEvent::Bound);
    r.step(RouteEvent::Control(false));
    assert_eq!(r.step(RouteEvent::Closed).report, report(1, RouteStatus::Stopped));
    assert!(r.is_finished());
}

#[test]
fn route_ignores_events_of_another_phase() {
    let mut r = AppRoute::new(1, false);
    let out = r.step(RouteEvent::Sent);
    assert!(out.report.is_none());
    assert_eq!(r.phase, RoutePhase::Binding);
}

#[test]
fn failure_codes() {
    assert_eq!(Failure::RouterBind.code(), -1);
    assert_eq!(Failure::AppBind.code(), -2);
    assert_eq!(Failure::AppSend.code(), -3);
    let r = StatusReport::router_bind_failed();
    assert_eq!(r.index, -1);
    assert_eq!(r.status, RouteStatus::Failed(Failure::RouterBind));
}

#[test]
fn shutdown_plan_threads() {
    let steps = handle_router_msg(&RouterMsg::ShutdownAll, 2, false);
    assert_eq!(
        steps,
        vec![ShutdownStep::StopReceiver, ShutdownStep::StopRoute(0), ShutdownStep::StopRoute(1)]
    );
}

#[test]
fn shutdown_plan_async() {
    let steps = handle_router_msg(&RouterMsg::ShutdownAll, 2, true);
    assert_eq!(
        steps,
        vec![
            ShutdownStep::StopReceiver,
            ShutdownStep::StopRoute(0),
            ShutdownStep::StopRoute(1),
            ShutdownStep::AbortTask(0),
            ShutdownStep::AbortTask(1),
            ShutdownStep::StopRuntime,
        ]
    );
}

#[test]
fn shutdown_plan_without_routes() {
    assert_eq!(handle_router_msg(&RouterMsg::ShutdownAll, 0, false), vec![ShutdownStep::StopReceiver]);
    assert_eq!(
        handle_router_msg(&RouterMsg::ShutdownAll, 0, true),
        vec![ShutdownStep::StopReceiver, ShutdownStep::StopRuntime]
    );
}

fn open_filter() -> FilterRules {
    FilterRules::new(&PacketFilter {
        enabled: false,
        filter_bad_packets: false,
        wl_enabled: false,
        address_wl: vec![],
        bl_enabled: false,
        address_bl: vec![],
    })
}

#[test]
fn receiver_filters_nonempty_datagrams_then_checks_control() {
    let mut buf = vec![1u8, 2, 3, 4];
    let mut rx = Receiver::new(open_filter());
    assert_eq!(rx.phase(), ReceiverPhase::Receiving);
    let r = rx.step(ReceiverEvent::Datagram(4), &mut buf, false).expect("filtered");
    assert_eq!(r.forward, Some(buf.clone()));
    assert_eq!(rx.phase(), ReceiverPhase::CheckingControl);
    assert!(rx.step(ReceiverEvent::NoControl, &mut buf, false).is_none());
    assert_eq!(rx.phase(), ReceiverPhase::Receiving);
}

#[test]
fn receiver_skips_empty_datagram_without_control_check() {
    let mut buf = vec![0u8; 8];
    let mut rx = Receiver::new(open_filter());
    assert!(rx.step(ReceiverEvent::Datagram(0), &mut buf, true).is_none());
    assert_eq!(rx.phase(), ReceiverPhase::Receiving);
}

#[test]
fn receiver_checks_control_after_failed_receive_and_stops_on_signal() {
    let mut buf = vec![0u8; 8];
    let mut rx = Receiver::new(open_filter());
    assert!(rx.step(ReceiverEvent::ReceiveFailed, &mut buf, false).is_none());
    assert_eq!(rx.phase(), ReceiverPhase::CheckingControl);
    assert!(rx.step(ReceiverEvent::Control(false), &mut buf, false).is_none());
    assert_eq!(rx.phase(), ReceiverPhase::Receiving);
    rx.step(ReceiverEvent::ReceiveFailed, &mut buf, false);
    assert!(rx.step(ReceiverEvent::Control(true), &mut buf, false).is_none());
    assert_eq!(rx.phase(), ReceiverPhase::Finished);
    assert!(rx.step(ReceiverEvent::Datagram(8), &mut buf, false).is_none());
    assert_eq!(rx.phase(), ReceiverPhase::Finished);
}

#[test]
fn relayed_bad_packet_is_zero_padded_over_stale_bytes() {
    for (wl, bl) in [(true, false), (false, true), (false, false)] {
        let pf = PacketFilter {
            enabled: true,
            filter_bad_packets: false,
            wl_enabled: wl,
            address_wl: vec![("/a".to_string(), true)],
            bl_enabled: bl,
            address_bl: vec![("/b".to_string(), true)],
        };
        let mut rx = Receiver::new(FilterRules::new(&pf));
        // An earlier, longer datagram left bytes behind.
        let mut buf = vec![0xAAu8; 16];
        buf[..3].copy_from_slice(b"bad");
        let r = rx.step(ReceiverEvent::Datagram(3), &mut buf, true).expect("filtered");
        let mut expected = b"bad".to_vec();
        expected.resize(16, 0);
        assert_eq!(r.forward, Some(expected.clone()));
        assert_eq!(buf, expected);
        let d = r.debug.expect("a debug record");
        assert_eq!(d.verdict, vor_router::filter::Verdict::Allowed);
        assert!(d.packet.is_none());
    }
}

#[test]
fn dropped_bad_packet_when_filtered() {
    let pf = PacketFilter {
        enabled: true,
        filter_bad_packets: true,
        wl_enabled: true,
        address_wl: vec![],
        bl_enabled: false,
        address_bl: vec![],
    };
    let mut rx = Receiver::new(FilterRules::new(&pf));
    let mut buf = vec![0xAAu8; 16];
    let r = rx.step(ReceiverEvent::Datagram(3), &mut buf, true).expect("filtered");
    assert!(r.forward.is_none());
    assert_eq!(r.debug.unwrap().verdict, vor_router::filter::Verdict::Dropped);
}

#[test]
fn stale_bytes_do_not_change_a_reencoded_message() {
    let msg = rosc::encoder::encode(&rosc::OscPacket::Message(rosc::OscMessage {
        addr: "/x".to_string(),
        args: vec![],
    }))
    .unwrap();
    let pf = PacketFilter {
        enabled: true,
        filter_bad_packets: true,
        wl_enabled: false,
        address_wl: vec![],
        bl_enabled: false,
        address_bl: vec![],
    };
    let mut rx = Receiver::new(FilterRules::new(&pf));
    let mut buf = vec![0x55u8; 64];
    buf[..msg.len()].copy_from_slice(&msg);
    let r = rx.step(ReceiverEvent::Datagram(msg.len()), &mut buf, false).expect("filtered");
    assert_eq!(r.forward, Some(msg.clone()));
    assert!(buf[msg.len()..].iter().all(|b| *b == 0));
}

#[test]
fn bound_route_reports_only_stops_and_send_failures() {
    let mut r = AppRoute::new(3, false);
    r.step(RouteEvent::Bound);
    let mut reports = Vec::new();
    for e in [
        RouteEvent::NoControl,
        RouteEvent::Received,
        RouteEvent::SendFailed,
        RouteEvent::NoControl,
        RouteEvent::Received,
        RouteEvent::Sent,
        RouteEvent::Control(true),
        RouteEvent::Bound,
    ] {
        if let Some(rep) = r.step(e).report {
            reports.push(rep.status);
        }
    }
    assert_eq!(reports, vec![RouteStatus::Failed(Failure::AppSend), RouteStatus::Stopped]);
    assert!(r.is_finished());
}

#[test]
fn decode_bound_is_the_rosc_mtu() {
    assert_eq!(vor_router::osc::MAX_DATAGRAM_LEN, rosc::decoder::MTU);
}
