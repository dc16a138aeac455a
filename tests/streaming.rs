use basicvideostreamer::config::ServerConfiguration;
use basicvideostreamer::dispatch::{part_to_broadcast, Command};
use basicvideostreamer::lifecycle::{Lifecycle, StopStep};
use basicvideostreamer::registry::Registry;
use basicvideostreamer::request::{answer, respond, Reply};
use basicvideostreamer::wire::{accepted_response, decimal_digits, frame_part, not_found_response};

const ACCEPTED: &str = "HTTP/1.1 200 OK\r\nContent-Type: multipart/x-mixed-replace; boundary=basic_stream_boundary\r\nConnection: close\r\nExpires: 0\r\nMax-Age: 0\r\nCache-Control: no-cache, private\r\nAccept-Range: bytes\r\nPragma: no-cache\r\n\r\n";

fn padded(request: &str) -> Vec<u8> {
    let mut buffer = vec![0u8; 1024];
    buffer[..request.len()].copy_from_slice(request.as_bytes());
    buffer
}

#[test]
fn configuration_defaults() {
    let c = ServerConfiguration::new(7879, None, None);
    assert_eq!(c.port, 7879);
    assert_eq!(c.address, "127.0.0.1");
    assert_eq!(c.endpoint, None);
    assert_eq!(c.endpoint_path(), "/");
}

#[test]
fn configuration_given_values() {
    let c = ServerConfiguration::new(80, Some("0.0.0.0".to_string()), Some("/img".to_string()));
    assert_eq!(c.port, 80);
    assert_eq!(c.address, "0.0.0.0");
    assert_eq!(c.endpoint, Some("/img".to_string()));
    assert_eq!(c.endpoint_path(), "/img");
}

#[test]
fn decimal_digits_values() {
    assert_eq!(decimal_digits(0), b"0".to_vec());
    assert_eq!(decimal_digits(7), b"7".to_vec());
    assert_eq!(decimal_digits(10), b"10".to_vec());
    assert_eq!(decimal_digits(1024), b"1024".to_vec());
    assert_eq!(decimal_digits(usize::MAX), usize::MAX.to_string().into_bytes());
}

#[test]
fn ten_byte_frame_part() {
    let frame: Vec<u8> = vec![0xFF, 0xD8, 1, 2, 3, 4, 5, 6, 0xFF, 0xD9];
    let part = frame_part(&frame);
    let head = b"--basic_stream_boundary\r\nContent-Type: image/jpeg\r\nContent-Length: 10\r\n\r\n";
    assert_eq!(&part[..head.len()], &head[..]);
    assert_eq!(&part[head.len()..], &frame[..]);
    assert_eq!(part.len(), head.len() + 10);
}

#[test]
fn empty_frame_part() {
    let part = frame_part(&Vec::new());
    assert_eq!(part, b"--basic_stream_boundary\r\nContent-Type: image/jpeg\r\nContent-Length: 0\r\n\r\n".to_vec());
}

#[test]
fn large_frame_part_length() {
    let frame = vec![7u8; 123456];
    let part = frame_part(&frame);
    let head = b"--basic_stream_boundary\r\nContent-Type: image/jpeg\r\nContent-Length: 123456\r\n\r\n";
    assert_eq!(&part[..head.len()], &head[..]);
    assert_eq!(&part[head.len()..], &frame[..]);
}

#[test]
fn response_heads() {
    assert_eq!(accepted_response(), ACCEPTED.as_bytes().to_vec());
    assert_eq!(not_found_response(), b"HTTP/1.1 404 Not Found\r\n\r\n".to_vec());
}

#[test]
fn get_on_endpoint_is_accepted() {
    let c = ServerConfiguration::new(0, None, Some("/img".to_string()));
    let buf = padded("GET /img HTTP/1.1\r\nHost: localhost\r\n\r\n");
    match respond(&buf, &c) {
        Reply::Accept(b) => assert_eq!(b, ACCEPTED.as_bytes().to_vec()),
        _ => panic!("expected the request to be accepted"),
    }
}

#[test]
fn get_on_other_path_is_rejected() {
    let c = ServerConfiguration::new(0, None, Some("/img".to_string()));
    let buf = padded("GET /other HTTP/1.1\r\nHost: localhost\r\n\r\n");
    match respond(&buf, &c) {
        Reply::Reject(b) => assert_eq!(b, b"HTTP/1.1 404 Not Found\r\n\r\n".to_vec()),
        _ => panic!("expected the request to be rejected"),
    }
}

#[test]
fn post_on_endpoint_is_rejected() {
    let c = ServerConfiguration::new(0, None, Some("/img".to_string()));
    let buf = padded("POST /img HTTP/1.1\r\n\r\n");
    assert!(matches!(respond(&buf, &c), Reply::Reject(_)));
}

#[test]
fn default_endpoint_is_root() {
    let c = ServerConfiguration::new(0, None, None);
    assert!(matches!(respond(&padded("GET / HTTP/1.1\r\n\r\n"), &c), Reply::Accept(_)));
    assert!(matches!(respond(&padded("GET /img HTTP/1.1\r\n\r\n"), &c), Reply::Reject(_)));
}

#[test]
fn unparsable_request_is_rejected() {
    let c = ServerConfiguration::new(0, None, None);
    match respond(b"G\x01T / HTTP/1.1\r\n\r\n", &c) {
        Reply::Reject(b) => assert_eq!(b, b"HTTP/1.1 404 Not Found\r\n\r\n".to_vec()),
        _ => panic!("expected the request to be rejected"),
    }
}

#[test]
fn truncated_request_is_rejected() {
    let c = ServerConfiguration::new(0, None, Some("/img".to_string()));
    assert!(matches!(respond(b"GET /img", &c), Reply::Reject(_)));
}

#[test]
fn answer_compares_method_and_path() {
    let c = ServerConfiguration::new(0, None, Some("/stream".to_string()));
    let get = Some("GET".to_string());
    assert!(matches!(answer(&get, &Some("/stream".to_string()), &c), Reply::Accept(_)));
    assert!(matches!(answer(&get, &Some("/stream/".to_string()), &c), Reply::Reject(_)));
    assert!(matches!(answer(&Some("get".to_string()), &Some("/stream".to_string()), &c), Reply::Reject(_)));
    assert!(matches!(answer(&None, &None, &c), Reply::Reject(_)));
}

#[test]
fn eviction_keeps_healthy_connections() {
    let mut r: Registry<u32> = Registry::new();
    for c in [10u32, 11, 12, 13, 14] {
        r.register(c);
    }
    assert_eq!(r.len(), 5);
    r.evict(&vec![false, true, false, true, false]);
    assert_eq!(r.len(), 3);
    assert_eq!(*r.get(0), 10);
    assert_eq!(*r.get(1), 12);
    assert_eq!(*r.get(2), 14);
}

#[test]
fn eviction_of_all_and_of_none() {
    let mut r: Registry<u32> = Registry::new();
    r.register(1);
    r.register(2);
    r.evict(&vec![false, false]);
    assert_eq!(r.len(), 2);
    r.evict(&vec![true, true]);
    assert_eq!(r.len(), 0);
    r.evict(&Vec::new());
    assert_eq!(r.len(), 0);
}

#[test]
fn stop_before_start_is_refused() {
    let mut l: Lifecycle<u8, u16> = Lifecycle::new();
    assert!(!l.is_running());
    assert!(matches!(l.stop(), StopStep::NotRunning));
    assert!(!l.is_running());
}

#[test]
fn send_before_start_is_refused() {
    let l: Lifecycle<u8, u16> = Lifecycle::new();
    assert!(matches!(l.send_channel(), Ok(None)));
}

#[test]
fn start_while_running_is_refused() {
    let mut l: Lifecycle<u8, u16> = Lifecycle::new();
    assert!(l.may_start());
    l.started(3, 4);
    assert!(l.is_running());
    assert!(!l.may_start());
    assert!(matches!(l.send_channel(), Ok(Some(&3))));
}

#[test]
fn stop_twice() {
    let mut l: Lifecycle<u8, u16> = Lifecycle::new();
    l.started(3, 4);
    assert!(matches!(l.stop(), StopStep::Halt(3, 4)));
    assert!(!l.is_running());
    assert!(matches!(l.stop(), StopStep::NotRunning));
    assert!(matches!(l.send_channel(), Ok(None)));
    assert!(l.may_start());
}

#[test]
fn broadcast_commands() {
    assert!(part_to_broadcast(&Command::Stop).is_none());
    let frame = vec![1u8, 2, 3];
    assert_eq!(part_to_broadcast(&Command::Data(frame.clone())), Some(frame_part(&frame)));
}
