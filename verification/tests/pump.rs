use tow::monitor::MonitorMode;
use tow::pump::{received_bytes, udp_to_ws_step, ws_to_tcp_step, ws_to_udp_step, Frame, PumpStep};

fn forwarded(step: PumpStep) -> Option<Vec<u8>> {
    match step {
        PumpStep::Forward(bytes) => Some(bytes),
        _ => None,
    }
}

#[test]
fn ws_to_tcp_passes_binary_payloads() {
    assert_eq!(forwarded(ws_to_tcp_step(Frame::Binary(vec![1, 2, 3]))), Some(vec![1, 2, 3]));
}

#[test]
fn ws_to_tcp_stops_on_close_and_skips_others() {
    assert!(matches!(ws_to_tcp_step(Frame::Close), PumpStep::Finish));
    assert!(matches!(ws_to_tcp_step(Frame::Other), PumpStep::Skip));
}

#[test]
fn ws_to_udp_touches_after_everything_but_close() {
    let d = ws_to_udp_step(Frame::Binary(vec![9]));
    assert!(d.touch);
    assert_eq!(forwarded(d.step), Some(vec![9]));
    let d = ws_to_udp_step(Frame::Other);
    assert!(d.touch);
    assert!(matches!(d.step, PumpStep::Skip));
    let d = ws_to_udp_step(Frame::Close);
    assert!(!d.touch);
    assert!(matches!(d.step, PumpStep::Finish));
}

#[test]
fn udp_to_ws_forwards_and_touches() {
    let d = udp_to_ws_step(vec![4, 5]);
    assert!(d.touch);
    assert_eq!(forwarded(d.step), Some(vec![4, 5]));
}

#[test]
fn empty_udp_read_ends_the_pump() {
    let buffer = [7u8; 2048];
    let datagram = received_bytes(&buffer, 0);
    assert!(datagram.is_empty());
    let d = udp_to_ws_step(datagram);
    assert!(!d.touch);
    assert!(matches!(d.step, PumpStep::Finish));
}

#[test]
fn received_bytes_takes_the_prefix() {
    let mut buffer = [0u8; 8192];
    buffer[0] = 10;
    buffer[1] = 20;
    buffer[2] = 30;
    assert_eq!(received_bytes(&buffer, 3), vec![10, 20, 30]);
    assert_eq!(received_bytes(&buffer, 8192).len(), 8192);
    assert_eq!(received_bytes(&buffer, 0), Vec::<u8>::new());
}

#[test]
fn monitor_mode_follows_the_timeout() {
    assert_eq!(MonitorMode::from_timeout(Some(1500)), MonitorMode::Timeout(1500));
    assert_eq!(MonitorMode::from_timeout(None), MonitorMode::SockDiag);
}
