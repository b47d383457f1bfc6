use hylarana::devices::DeviceType;
use hylarana::manager::{
    core_service_name, encode_frame, frame_step, is_target, is_target_id, FrameStep, Node,
    NodeTable,
};
use hylarana::router::{Payload, ResponseContent, RouteAction, RouterState};
use hylarana::status::{Status, StatusError, StreamKind, StreamSession};

#[test]
fn frames_carry_a_big_endian_length() {
    let payload: Vec<u8> = (0..300u32).map(|i| i as u8).collect();
    let frame = encode_frame(&payload);
    assert_eq!(frame.len(), 302);
    assert_eq!(&frame[..2], &[1, 44]);
    assert_eq!(&frame[2..], &payload[..]);
    assert_eq!(encode_frame(&[]), vec![0, 0]);
}

#[test]
fn frame_round_trip() {
    let payload = b"{\"name\":\"a\"}".to_vec();
    let mut buffer = encode_frame(&payload);
    match frame_step(&mut buffer) {
        FrameStep::Message(p) => assert_eq!(p, payload),
        FrameStep::Wait => panic!("complete frame not read"),
    }
    assert!(buffer.is_empty());
}

#[test]
fn partial_frames_wait() {
    let mut buffer = vec![0, 3];
    assert!(matches!(frame_step(&mut buffer), FrameStep::Wait));
    assert_eq!(buffer, vec![0, 3]);
    let mut buffer = vec![0, 3, b'a', b'b'];
    assert!(matches!(frame_step(&mut buffer), FrameStep::Wait));
    assert_eq!(buffer, vec![0, 3, b'a', b'b']);
    buffer.push(b'c');
    match frame_step(&mut buffer) {
        FrameStep::Message(p) => assert_eq!(p, b"abc".to_vec()),
        FrameStep::Wait => panic!("whole frame not read"),
    }
    assert!(buffer.is_empty());
}

#[test]
fn frames_in_one_buffer_are_read_one_by_one() {
    let mut buffer = encode_frame(b"ab");
    buffer.extend(encode_frame(b"cde"));
    buffer.extend([0, 9, 1]);
    match frame_step(&mut buffer) {
        FrameStep::Message(p) => assert_eq!(p, b"ab".to_vec()),
        FrameStep::Wait => panic!("first frame not read"),
    }
    match frame_step(&mut buffer) {
        FrameStep::Message(p) => assert_eq!(p, b"cde".to_vec()),
        FrameStep::Wait => panic!("second frame not read"),
    }
    assert!(matches!(frame_step(&mut buffer), FrameStep::Wait));
    assert_eq!(buffer, vec![0, 9, 1]);
}

#[test]
fn targets() {
    assert!(is_target(&vec![], 7));
    assert!(is_target(&vec![1, 7], 7));
    assert!(!is_target(&vec![1, 2], 7));
    assert!(is_target_id(&vec![], "x"));
    assert!(is_target_id(&vec!["a".to_string(), "x".to_string()], "x"));
    assert!(!is_target_id(&vec!["a".to_string()], "x"));
}

#[test]
fn core_service_names_are_unique() {
    let a = core_service_name();
    let b = core_service_name();
    assert_eq!(a.len(), 50);
    assert!(a.starts_with("hylarana-core="));
    assert_eq!(a.chars().nth(14 + 14), Some('4'));
    assert_ne!(a, b);
}

fn node(name: &str) -> Node {
    Node { name: name.to_string(), kind: DeviceType::Windows, description: None }
}

#[test]
fn node_table_insert_replace_remove() {
    let mut t = NodeTable::new();
    t.insert(1, node("a"));
    t.insert(2, node("b"));
    t.insert(1, node("c"));
    let mut list: Vec<(u32, String)> = t.get_devices().into_iter().map(|n| (n.ip, n.name)).collect();
    list.sort();
    assert_eq!(list, vec![(1, "c".to_string()), (2, "b".to_string())]);
    assert!(t.remove(1));
    assert!(!t.remove(1));
    assert_eq!(t.get_devices().len(), 1);
    assert_eq!(t.get_devices()[0].kind, DeviceType::Windows);
}

#[test]
fn response_content_round_trip() {
    let ok: ResponseContent<u32> = ResponseContent::from_result(Ok(5));
    assert_eq!(ok.into_result(), Ok(5));
    let err: ResponseContent<u32> = ResponseContent::from_result(Err("boom".to_string()));
    assert!(matches!(&err, ResponseContent::Failure(m) if m == "boom"));
    assert_eq!(err.into_result(), Err("boom".to_string()));
}

#[test]
fn router_dispatches_known_methods() {
    let mut r = RouterState::new();
    r.on("GetDevices".to_string());
    let req = Payload::Request { method: "GetDevices".to_string(), sequence: 9, content: () };
    assert_eq!(r.on_payload(&req), RouteAction::Dispatch { sequence: 9 });
    let unknown = Payload::Request { method: "Nope".to_string(), sequence: 9, content: () };
    assert_eq!(r.on_payload(&unknown), RouteAction::Ignore);
    let event: Payload<()> = Payload::Events { method: "GetDevices".to_string() };
    assert_eq!(r.on_payload(&event), RouteAction::Ignore);
}

#[test]
fn answer_resolves_a_call_once() {
    let mut r = RouterState::new();
    let first = r.begin_call();
    let second = r.begin_call();
    assert_eq!(first, 0);
    assert_eq!(second, 1);
    let answer = Payload::Response { sequence: first, content: () };
    assert_eq!(r.on_payload(&answer), RouteAction::Resolve { sequence: first });
    assert_eq!(r.on_payload(&answer), RouteAction::Ignore);
    r.cancel(second);
    let late = Payload::Response { sequence: second, content: () };
    assert_eq!(r.on_payload(&late), RouteAction::Ignore);
}

#[test]
fn one_stream_at_a_time() {
    let mut s = StreamSession::new(false);
    assert_eq!(s.get_status(), Status::Idle);
    assert_eq!(s.check_start(), Ok(()));
    s.stream_started(StreamKind::Sender);
    assert_eq!(s.get_status(), Status::Sending);
    assert_eq!(s.check_start(), Err(StatusError::NotIdle));
    s.stream_closed();
    assert_eq!(s.get_status(), Status::Idle);
    s.stream_started(StreamKind::Receiver);
    assert_eq!(s.get_status(), Status::Receiving);
    assert_eq!(Status::default(), Status::Idle);
}

#[test]
fn stream_waits_for_a_name() {
    let mut s = StreamSession::new(true);
    assert_eq!(s.check_start(), Err(StatusError::NameMissing));
    assert!(s.name().is_none());
    s.set_name("desk".to_string());
    assert_eq!(s.name(), Some(&"desk".to_string()));
    assert_eq!(s.check_start(), Ok(()));
}
