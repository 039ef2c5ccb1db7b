use mjpg_streamer::request::{classify, contains_bytes, is_authorized, wants_stream, RequestClass};

#[test]
fn stream_path_selects_stream() {
    assert_eq!(classify(b"GET /stream HTTP/1.1\r\n", b""), RequestClass::Stream);
}

#[test]
fn mjpg_path_selects_stream() {
    assert_eq!(classify(b"GET /mjpg HTTP/1.1\r\n", b""), RequestClass::Stream);
}

#[test]
fn words_anywhere_in_line_select_stream() {
    assert_eq!(classify(b"GET /a?x=livestreaming HTTP/1.1", b""), RequestClass::Stream);
    assert_eq!(classify(b"POST /img.mjpg", b""), RequestClass::Stream);
    assert_eq!(classify(b"mjpg", b""), RequestClass::Stream);
}

#[test]
fn other_paths_select_snapshot() {
    assert_eq!(classify(b"GET / HTTP/1.1\r\n", b""), RequestClass::Snapshot);
    assert_eq!(classify(b"GET /snapshot.jpg HTTP/1.1", b""), RequestClass::Snapshot);
    assert_eq!(classify(b"", b""), RequestClass::Snapshot);
}

#[test]
fn routing_is_case_sensitive() {
    assert_eq!(classify(b"GET /STREAM HTTP/1.1", b""), RequestClass::Snapshot);
    assert_eq!(classify(b"GET /Mjpg HTTP/1.1", b""), RequestClass::Snapshot);
    assert!(!wants_stream(b"strea m"));
    assert!(wants_stream(b"xxstreamxx"));
}

#[test]
fn missing_token_is_unauthorized() {
    assert_eq!(classify(b"GET /mjpg HTTP/1.1", b"secret"), RequestClass::Unauthorized);
    assert_eq!(classify(b"GET / HTTP/1.1", b"secret"), RequestClass::Unauthorized);
    assert_eq!(classify(b"GET /?key=secre HTTP/1.1", b"secret"), RequestClass::Unauthorized);
}

#[test]
fn carried_token_passes_the_gate() {
    assert_eq!(classify(b"GET /stream?key=secret HTTP/1.1", b"secret"), RequestClass::Stream);
    assert_eq!(classify(b"GET /?secret HTTP/1.1", b"secret"), RequestClass::Snapshot);
}

#[test]
fn empty_token_never_refuses() {
    assert!(is_authorized(b"", b""));
    assert!(is_authorized(b"GET / HTTP/1.1", b""));
}

#[test]
fn substring_search_edges() {
    assert!(contains_bytes(b"abc", b""));
    assert!(contains_bytes(b"", b""));
    assert!(!contains_bytes(b"", b"a"));
    assert!(!contains_bytes(b"ab", b"abc"));
    assert!(contains_bytes(b"abc", b"abc"));
    assert!(contains_bytes(b"xxabc", b"abc"));
    assert!(contains_bytes(b"abcxx", b"abc"));
    assert!(!contains_bytes(b"abxabyabz", b"abc"));
    assert!(contains_bytes(b"aaab", b"aab"));
}
