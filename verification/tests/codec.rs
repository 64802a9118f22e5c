use dgruft::codec::{decode, decode_text, encode, encode_text, text_from_bytes};

#[test]
fn known_encodings() {
    assert_eq!(encode(b""), b"".to_vec());
    assert_eq!(encode(b"f"), b"Zg==".to_vec());
    assert_eq!(encode(b"fo"), b"Zm8=".to_vec());
    assert_eq!(encode(b"foo"), b"Zm9v".to_vec());
    assert_eq!(encode(b"foob"), b"Zm9vYg==".to_vec());
    assert_eq!(encode(b"fooba"), b"Zm9vYmE=".to_vec());
    assert_eq!(encode(b"foobar"), b"Zm9vYmFy".to_vec());
    assert_eq!(encode_text(&[0xfb, 0xff, 0xbf]), "+/+/");
    assert_eq!(encode_text(&[0xff, 0xff, 0xff]), "////");
    assert_eq!(encode_text(&[0, 0, 0]), "AAAA");
    assert_eq!(encode_text(&[0xff]), "/w==");
}

#[test]
fn known_decodings() {
    assert_eq!(decode(b""), Some(vec![]));
    assert_eq!(decode(b"Zg=="), Some(b"f".to_vec()));
    assert_eq!(decode(b"Zm8="), Some(b"fo".to_vec()));
    assert_eq!(decode(b"Zm9v"), Some(b"foo".to_vec()));
    assert_eq!(decode(b"Zm9vYmFy"), Some(b"foobar".to_vec()));
    assert_eq!(decode_text("+/+/"), Some(vec![0xfb, 0xff, 0xbf]));
    assert_eq!(decode_text("/w=="), Some(vec![0xff]));
}

#[test]
fn texts_that_encode_nothing() {
    for text in [
        "Z", "Zg", "Zg=", "Zg==Zg==", "Z===", "====", "=g==", "Zm9", "Zm9vY", "Zm 9", "Zm9v\n",
        "Zh==", "Zm9=", "Zm8=Zm9v", "Zg==A", "Zm-v", "Zm_v", "Zm9v====", "Z\u{e9}==",
    ] {
        assert_eq!(decode_text(text), None, "{text:?}");
    }
}

#[test]
fn round_trip_of_every_length() {
    let mut bytes: Vec<u8> = Vec::new();
    for n in 0..300usize {
        let text = encode_text(&bytes);
        assert_eq!(text.len(), 4 * ((n + 2) / 3));
        assert!(text.is_ascii());
        assert_eq!(decode_text(&text), Some(bytes.clone()));
        assert_eq!(encode(&bytes), text.as_bytes().to_vec());
        bytes.push((n * 131 % 256) as u8);
    }
}

#[test]
fn round_trip_of_bytes_that_are_no_text() {
    let bytes: Vec<u8> = vec![0xff, 0xfe, 0x00, 0x80, 0xc0, 0xc1, 0xf5];
    assert!(std::str::from_utf8(&bytes).is_err());
    assert_eq!(decode_text(&encode_text(&bytes)), Some(bytes));
}

#[test]
fn round_trip_of_every_pair_of_bytes() {
    for a in 0..=255u8 {
        for b in [0u8, 1, 15, 16, 63, 64, 127, 128, 254, 255] {
            assert_eq!(decode(&encode(&[a])), Some(vec![a]));
            assert_eq!(decode(&encode(&[a, b])), Some(vec![a, b]));
            assert_eq!(decode(&encode(&[b, a, b])), Some(vec![b, a, b]));
        }
    }
}

#[test]
fn every_text_that_decodes_is_an_encoding() {
    let alphabet = b"ABCDEFGHIJKLMNOPQRSTUVWXYZabcdefghijklmnopqrstuvwxyz0123456789+/";
    for &x in alphabet.iter() {
        for &y in alphabet.iter() {
            let text = [b'A', x, y, b'='];
            if let Some(bytes) = decode(&text) {
                assert_eq!(encode(&bytes), text.to_vec());
            }
            let text = [x, y, b'=', b'='];
            if let Some(bytes) = decode(&text) {
                assert_eq!(encode(&bytes), text.to_vec());
            }
        }
    }
}

#[test]
fn texts_from_bytes() {
    assert_eq!(text_from_bytes(b"plain".to_vec()), Some("plain".to_string()));
    assert_eq!(text_from_bytes("dgruft很酷。".as_bytes().to_vec()), Some("dgruft很酷。".to_string()));
    assert_eq!(text_from_bytes(vec![0xff]), None);
    assert_eq!(text_from_bytes(vec![]), Some(String::new()));
}
