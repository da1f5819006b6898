use kaku_win32::text::append_decimal;
use kaku_win32::utf16::{from_utf16_lossy, wide};

fn std_wide(s: &str) -> Vec<u16> {
    s.encode_utf16().chain(std::iter::once(0)).collect()
}

#[test]
fn wide_appends_a_terminator() {
    assert_eq!(wide(""), vec![0]);
    assert_eq!(wide("Kaku"), vec![0x4b, 0x61, 0x6b, 0x75, 0]);
    assert_eq!(wide("a\0b"), vec![0x61, 0, 0x62, 0]);
}

#[test]
fn wide_uses_surrogate_pairs() {
    assert_eq!(wide("\u{ffff}"), vec![0xffff, 0]);
    assert_eq!(wide("\u{10000}"), vec![0xd800, 0xdc00, 0]);
    assert_eq!(wide("\u{1f600}"), vec![0xd83d, 0xde00, 0]);
    assert_eq!(wide("\u{10ffff}"), vec![0xdbff, 0xdfff, 0]);
}

#[test]
fn wide_agrees_with_std_on_every_character() {
    let mut chunk = String::new();
    for n in 0..=0x10ffff_u32 {
        if let Some(c) = char::from_u32(n) {
            chunk.push(c);
        }
        if n % 0x1000 == 0xfff {
            assert_eq!(wide(&chunk), std_wide(&chunk));
            chunk.clear();
        }
    }
}

#[test]
fn lossy_decoding_replaces_unpaired_surrogates() {
    assert_eq!(from_utf16_lossy(&[]), "");
    assert_eq!(from_utf16_lossy(&[0x61, 0xd83d, 0xde00, 0x62]), "a\u{1f600}b");
    assert_eq!(from_utf16_lossy(&[0xd83d, 0x62]), "\u{fffd}b");
    assert_eq!(from_utf16_lossy(&[0xde00, 0x62]), "\u{fffd}b");
    assert_eq!(from_utf16_lossy(&[0x61, 0xd83d]), "a\u{fffd}");
    assert_eq!(from_utf16_lossy(&[0xd800, 0xd800, 0xdc00]), "\u{fffd}\u{10000}");
    assert_eq!(from_utf16_lossy(&[0xdc00, 0xd800]), "\u{fffd}\u{fffd}");
}

#[test]
fn lossy_decoding_agrees_with_std() {
    for u in 0..=0xffff_u16 {
        assert_eq!(from_utf16_lossy(&[u]), String::from_utf16_lossy(&[u]));
    }
    let edges = [
        0x0000, 0x0041, 0xd7ff, 0xd800, 0xdbff, 0xdc00, 0xdfff, 0xe000, 0xfffd, 0xffff,
    ];
    for a in edges {
        for b in edges {
            for c in edges {
                for d in edges {
                    let units = [a, b, c, d];
                    assert_eq!(from_utf16_lossy(&units), String::from_utf16_lossy(&units));
                }
            }
        }
    }
}

#[test]
fn decoding_inverts_encoding() {
    for text in ["", "plain", "gr\u{fc}n", "\u{5f71}\u{1f600}\u{10ffff}", "tail\u{d7ff}\u{e000}"] {
        let mut units = wide(text);
        assert_eq!(units.pop(), Some(0));
        assert_eq!(from_utf16_lossy(&units), text);
    }
}

#[test]
fn decimal_agrees_with_std() {
    for n in [0, 7, 9, 10, 42, 100, 1009, 65536, usize::MAX] {
        let mut text = String::from("id ");
        append_decimal(&mut text, n);
        assert_eq!(text, format!("id {}", n));
    }
}
