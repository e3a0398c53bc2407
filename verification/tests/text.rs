use webview::ffi::{from, has_nul, into, into_opt};

#[test]
fn text_gets_a_terminator() {
    assert_eq!(into("abc"), vec![b'a', b'b', b'c', 0]);
}

#[test]
fn empty_text_is_a_lone_terminator() {
    assert_eq!(into(""), vec![0]);
}

#[test]
fn text_goes_out_as_utf8() {
    assert_eq!(into("é€"), vec![0xc3, 0xa9, 0xe2, 0x82, 0xac, 0]);
}

#[test]
fn nul_is_found_anywhere() {
    assert!(has_nul("\0"));
    assert!(has_nul("a\0b"));
    assert!(has_nul("ab\0"));
    assert!(!has_nul(""));
    assert!(!has_nul("https://example.org/?q=0"));
}

#[test]
fn absent_text_gives_no_bytes() {
    assert_eq!(into_opt(None), None);
}

#[test]
fn present_text_gives_its_bytes() {
    assert_eq!(into_opt(Some("/tmp/cache")), Some(b"/tmp/cache\0".to_vec()));
}

#[test]
fn null_gives_no_string() {
    assert_eq!(from(None), None);
}

#[test]
fn bytes_give_their_text() {
    assert_eq!(from(Some(b"title")), Some("title".to_string()));
    assert_eq!(from(Some(b"")), Some(String::new()));
    assert_eq!(
        from(Some(&[0xe4, 0xbd, 0xa0, 0xe5, 0xa5, 0xbd])),
        Some("你好".to_string())
    );
}

#[test]
fn malformed_bytes_give_no_string() {
    assert_eq!(from(Some(&[0xff, 0xfe])), None);
    assert_eq!(from(Some(&[b'a', 0xc3])), None);
    assert_eq!(from(Some(&[0xed, 0xa0, 0x80])), None);
}

#[test]
fn text_survives_the_round_trip() {
    let raw = into("héllo wörld");
    let body = &raw[..raw.len() - 1];
    assert_eq!(raw[raw.len() - 1], 0);
    assert_eq!(from(Some(body)), Some("héllo wörld".to_string()));
}
