use mjpg_streamer::config::ServerConfig;
use mjpg_streamer::response::{snapshot_response, stream_part, stream_preamble, unauthorized_response};
use mjpg_streamer::session::{Action, Event, Phase, Session};

fn config(token: &str, interval: u64) -> ServerConfig {
    ServerConfig::new(8080, 0, 320, 240, interval, token.to_string(), true)
}

fn sent(a: Action) -> Vec<u8> {
    match a {
        Action::Send(b) => b,
        _ => panic!("expected bytes to send"),
    }
}

fn is_capture(a: &Action) -> bool {
    matches!(a, Action::Capture)
}

fn is_close(a: &Action) -> bool {
    matches!(a, Action::Close)
}

#[test]
fn plain_request_gets_one_snapshot() {
    let mut s = Session::new(&config("", 0));
    assert_eq!(s.phase(), Phase::AwaitingLine);
    let a = s.step(Event::LineRead(b"GET / HTTP/1.1\r\n".to_vec()));
    assert!(is_capture(&a));
    let jpeg = vec![0xFFu8, 0xD8, 1, 2, 3, 0xFF, 0xD9];
    let bytes = sent(s.step(Event::Captured(jpeg.clone())));
    assert!(bytes.starts_with(b"HTTP/1.1 200 OK\r\nContent-Type: image/jpeg\r\nContent-Length: 7\r\n\r\n"));
    assert_eq!(bytes, snapshot_response(&jpeg, true));
    assert!(is_close(&s.step(Event::Written)));
    assert!(s.is_closed());
}

#[test]
fn token_in_stream_request_enters_stream() {
    let mut s = Session::new(&config("secret", 0));
    let bytes = sent(s.step(Event::LineRead(b"GET /stream?key=secret HTTP/1.1\r\n".to_vec())));
    assert_eq!(bytes, stream_preamble());
    assert_eq!(s.phase(), Phase::SendingPreamble);
    assert!(is_capture(&s.step(Event::Written)));
    let part = sent(s.step(Event::Captured(b"jpg".to_vec())));
    assert_eq!(part, stream_part(b"jpg"));
}

#[test]
fn missing_token_is_refused_without_capture() {
    let mut s = Session::new(&config("secret", 0));
    let bytes = sent(s.step(Event::LineRead(b"GET /mjpg HTTP/1.1\r\n".to_vec())));
    assert_eq!(bytes, unauthorized_response());
    assert_eq!(s.phase(), Phase::SendingRefusal);
    assert!(is_close(&s.step(Event::Written)));
    assert!(s.is_closed());
}

#[test]
fn refusal_closes_even_when_write_fails() {
    let mut s = Session::new(&config("secret", 0));
    sent(s.step(Event::LineRead(b"GET / HTTP/1.1".to_vec())));
    assert!(is_close(&s.step(Event::WriteFailed)));
    assert!(s.is_closed());
}

#[test]
fn stream_rests_between_parts() {
    let mut s = Session::new(&config("", 100_000_000));
    sent(s.step(Event::LineRead(b"GET /mjpg HTTP/1.1".to_vec())));
    for frame in 0..3u8 {
        let a = if frame == 0 { s.step(Event::Written) } else { s.step(Event::Rested) };
        assert!(is_capture(&a));
        assert_eq!(sent(s.step(Event::Captured(vec![frame; 5]))), stream_part(&[frame; 5]));
        match s.step(Event::Written) {
            Action::Rest(n) => assert_eq!(n, 100_000_000),
            _ => panic!("expected a rest"),
        }
        assert_eq!(s.phase(), Phase::Resting);
    }
}

#[test]
fn peer_leaving_ends_the_stream() {
    let mut s = Session::new(&config("", 0));
    sent(s.step(Event::LineRead(b"GET /stream HTTP/1.1".to_vec())));
    s.step(Event::Written);
    sent(s.step(Event::Captured(b"x".to_vec())));
    assert!(is_close(&s.step(Event::WriteFailed)));
    assert!(s.is_closed());
    assert!(is_close(&s.step(Event::Rested)));
    assert!(is_close(&s.step(Event::Captured(b"y".to_vec()))));
}

#[test]
fn one_peer_leaving_leaves_the_other_streaming() {
    let mut a = Session::new(&config("", 0));
    let mut b = Session::new(&config("", 0));
    sent(a.step(Event::LineRead(b"GET /stream".to_vec())));
    sent(b.step(Event::LineRead(b"GET /mjpg".to_vec())));
    a.step(Event::Written);
    b.step(Event::Written);
    let pa = sent(a.step(Event::Captured(b"frame-one".to_vec())));
    let pb = sent(b.step(Event::Captured(b"frame-two".to_vec())));
    assert_eq!(pa, stream_part(b"frame-one"));
    assert_eq!(pb, stream_part(b"frame-two"));
    assert!(is_close(&a.step(Event::WriteFailed)));
    assert!(matches!(b.step(Event::Written), Action::Rest(0)));
    assert!(is_capture(&b.step(Event::Rested)));
    assert_eq!(sent(b.step(Event::Captured(b"frame-three".to_vec()))), stream_part(b"frame-three"));
    assert!(a.is_closed());
    assert!(!b.is_closed());
}

#[test]
fn preamble_write_failure_closes() {
    let mut s = Session::new(&config("", 0));
    sent(s.step(Event::LineRead(b"GET /stream".to_vec())));
    assert!(is_close(&s.step(Event::WriteFailed)));
}

#[test]
fn capture_failure_closes() {
    let mut s = Session::new(&config("", 0));
    assert!(is_capture(&s.step(Event::LineRead(b"GET / HTTP/1.1".to_vec()))));
    assert!(is_close(&s.step(Event::CaptureFailed)));
    assert!(s.is_closed());
}

#[test]
fn unreadable_request_closes() {
    let mut s = Session::new(&config("", 0));
    assert!(is_close(&s.step(Event::LineFailed)));
    assert!(s.is_closed());
}

#[test]
fn legacy_header_is_kept_when_asked() {
    let cfg = ServerConfig::new(8080, 0, 320, 240, 0, String::new(), false);
    let mut s = Session::new(&cfg);
    s.step(Event::LineRead(b"GET /".to_vec()));
    let bytes = sent(s.step(Event::Captured(b"ab".to_vec())));
    assert_eq!(bytes, b"HTTP/1.1 200 OK\r\nContent-Type: image/jpeg\r\nContent-Length 2\r\n\r\nab\r\n".to_vec());
}

#[test]
fn defaults_and_token_switch() {
    let d = ServerConfig::default();
    assert_eq!(d.port, 8080);
    assert_eq!(d.device, 0);
    assert_eq!((d.frame_width, d.frame_height), (320, 240));
    assert_eq!(d.frame_interval_nanos, 100_000_000);
    assert!(d.strict_length_header);
    assert!(!d.auth_enabled());
    assert!(config("secret", 0).auth_enabled());
}
