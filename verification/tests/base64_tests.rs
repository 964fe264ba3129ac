use paper_trail_db::base64::encode;

const ALPHABET: &[u8; 64] = b"ABCDEFGHIJKLMNOPQRSTUVWXYZabcdefghijklmnopqrstuvwxyz0123456789+/";

/// Textbook encoder, written independently of the library: gathers the
/// input bit by bit and emits a letter for every six bits.
fn reference(input: &[u8]) -> String {
    let mut out = String::new();
    let mut acc: u32 = 0;
    let mut bits: u32 = 0;
    for &byte in input {
        acc = (acc << 8) | byte as u32;
        bits += 8;
        while bits >= 6 {
            bits -= 6;
            out.push(ALPHABET[((acc >> bits) & 63) as usize] as char);
        }
    }
    if bits > 0 {
        out.push(ALPHABET[((acc << (6 - bits)) & 63) as usize] as char);
    }
    while out.len() % 4 != 0 {
        out.push('=');
    }
    out
}

#[test]
fn encode_empty_input_gives_empty_text() {
    assert_eq!(encode(&[]), "");
}

#[test]
fn encode_rfc_4648_vectors() {
    assert_eq!(encode(b"f"), "Zg==");
    assert_eq!(encode(b"fo"), "Zm8=");
    assert_eq!(encode(b"foo"), "Zm9v");
    assert_eq!(encode(b"foob"), "Zm9vYg==");
    assert_eq!(encode(b"fooba"), "Zm9vYmE=");
    assert_eq!(encode(b"foobar"), "Zm9vYmFy");
}

#[test]
fn encode_uses_the_last_two_letters_of_the_alphabet() {
    assert_eq!(encode(&[0xfb, 0xff]), "+/8=");
    assert_eq!(encode(&[0xff, 0xff, 0xff]), "////");
    assert_eq!(encode(&[0x00, 0x00, 0x00]), "AAAA");
}

#[test]
fn encode_matches_reference_for_lengths_0_to_10() {
    for len in 0..=10usize {
        let input: Vec<u8> = (0..len).map(|i| (i * 37 + 11) as u8).collect();
        assert_eq!(encode(&input), reference(&input), "length {}", len);
    }
}

#[test]
fn encode_matches_reference_for_long_inputs() {
    let all: Vec<u8> = (0..=255u8).collect();
    assert_eq!(encode(&all), reference(&all));
    let mut longer = all.clone();
    longer.push(7);
    assert_eq!(encode(&longer), reference(&longer));
    longer.push(200);
    assert_eq!(encode(&longer), reference(&longer));
}

#[test]
fn encode_pads_to_a_multiple_of_four() {
    for len in 0..=64usize {
        let input = vec![0xa5u8; len];
        let text = encode(&input);
        assert_eq!(text.len(), 4 * ((len + 2) / 3));
        let padding = text.chars().filter(|c| *c == '=').count();
        assert_eq!(padding, (3 - len % 3) % 3);
        assert!(text.trim_end_matches('=').chars().all(|c| c != '='));
    }
}

#[test]
fn encode_is_not_the_identity() {
    assert_eq!(encode(b"Man"), "TWFu");
    assert_ne!(encode(b"TWFu"), "TWFu");
}
