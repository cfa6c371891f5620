use phantom::input::{char_bytes, paste_writes, text_bytes, typed_chunks, typing_pause};

#[test]
fn utf8_encoding_matches_std() {
    for c in ['a', '\u{e9}', '\u{20ac}', '\u{1f600}', '\u{7f}', '\u{80}', '\u{7ff}', '\u{800}', '\u{ffff}', '\u{10000}', '\u{10ffff}'] {
        let mut buf = [0u8; 4];
        assert_eq!(char_bytes(c), c.encode_utf8(&mut buf).as_bytes().to_vec());
    }
    let s = "héllo €😀";
    assert_eq!(text_bytes(s), s.as_bytes().to_vec());
}

#[test]
fn typing_is_char_by_char() {
    let chunks = typed_chunks("aé\n");
    assert_eq!(chunks, vec![vec![b'a'], vec![0xc3, 0xa9], vec![b'\n']]);
    assert_eq!(typing_pause(Some(0)), None);
    assert_eq!(typing_pause(Some(25)), Some(25));
    assert_eq!(typing_pause(None), None);
}

#[test]
fn paste_brackets_only_in_bracketed_mode() {
    assert_eq!(
        paste_writes("hi", true),
        vec![b"\x1b[200~".to_vec(), b"hi".to_vec(), b"\x1b[201~".to_vec()]
    );
    assert_eq!(paste_writes("hi", false), vec![b"hi".to_vec()]);
}
