use avl_render::image::{decode_image, has_data_uri_prefix, strip_data_uri_prefix, DecodeFault};
use base64::Engine;

fn encode(bytes: &[u8]) -> String {
    base64::engine::general_purpose::STANDARD.encode(bytes)
}

#[test]
fn prefix_is_found_only_at_the_start() {
    assert!(has_data_uri_prefix("data:image/png;base64,AAAA"));
    assert!(has_data_uri_prefix("data:image/png;base64,"));
    assert!(!has_data_uri_prefix("AAAA"));
    assert!(!has_data_uri_prefix(""));
    assert!(!has_data_uri_prefix("data:image/png;base64"));
    assert!(!has_data_uri_prefix("data:image/jpg;base64,AAAA"));
    assert!(!has_data_uri_prefix(" data:image/png;base64,AAAA"));
    assert!(!has_data_uri_prefix("AAAAdata:image/png;base64,AAAA"));
}

#[test]
fn prefix_comes_off_once() {
    assert_eq!(strip_data_uri_prefix("data:image/png;base64,aGVsbG8="), "aGVsbG8=");
    assert_eq!(strip_data_uri_prefix("aGVsbG8="), "aGVsbG8=");
    assert_eq!(strip_data_uri_prefix("data:image/png;base64,"), "");
    assert_eq!(
        strip_data_uri_prefix("data:image/png;base64,data:image/png;base64,AAAA"),
        "data:image/png;base64,AAAA"
    );
    assert_eq!(strip_data_uri_prefix("AAAAdata:image/png;base64,"), "AAAAdata:image/png;base64,");
}

#[test]
fn known_text_decodes_to_known_bytes() {
    assert_eq!(decode_image("aGVsbG8="), Ok(b"hello".to_vec()));
    assert_eq!(decode_image("data:image/png;base64,aGVsbG8="), Ok(b"hello".to_vec()));
    assert_eq!(decode_image("iVBORw0KGgo="), Ok(vec![0x89, 0x50, 0x4e, 0x47, 0x0d, 0x0a, 0x1a, 0x0a]));
    assert_eq!(decode_image("/+8="), Ok(vec![0xff, 0xef]));
}

#[test]
fn empty_payload_is_an_image_of_no_bytes() {
    assert_eq!(decode_image(""), Ok(Vec::new()));
    assert_eq!(decode_image("data:image/png;base64,"), Ok(Vec::new()));
}

#[test]
fn encoded_bytes_come_back_bare() {
    let bytes: Vec<u8> = (0..=255u8).collect();
    assert_eq!(decode_image(&encode(&bytes)), Ok(bytes));
}

#[test]
fn encoded_bytes_come_back_with_prefix() {
    let bytes: Vec<u8> = (0..=255u8).rev().collect();
    let payload = format!("data:image/png;base64,{}", encode(&bytes));
    assert_eq!(decode_image(&payload), Ok(bytes));
}

#[test]
fn encoded_bytes_of_every_short_length_come_back() {
    for len in 0..10usize {
        let bytes: Vec<u8> = (0..len).map(|i| (i * 37 + 11) as u8).collect();
        assert_eq!(decode_image(&encode(&bytes)), Ok(bytes));
    }
}

#[test]
fn byte_outside_the_alphabet_is_reported() {
    assert_eq!(decode_image("!!!!"), Err(DecodeFault::InvalidByte { offset: 0, byte: b'!' }));
    assert_eq!(decode_image("aGVs bG8="), Err(DecodeFault::InvalidByte { offset: 4, byte: b' ' }));
}

#[test]
fn offset_counts_from_behind_the_prefix() {
    assert_eq!(
        decode_image("data:image/png;base64,AA*A"),
        Err(DecodeFault::InvalidByte { offset: 2, byte: b'*' })
    );
}

#[test]
fn prefix_in_the_middle_is_no_base64() {
    assert_eq!(
        decode_image("AAAAdata:image/png;base64,AAAA"),
        Err(DecodeFault::InvalidByte { offset: 8, byte: b':' })
    );
}

#[test]
fn single_symbol_has_no_length() {
    assert_eq!(decode_image("A"), Err(DecodeFault::InvalidLength { length: 1 }));
}

#[test]
fn missing_padding_is_reported() {
    assert_eq!(decode_image("AAA"), Err(DecodeFault::InvalidPadding));
    assert_eq!(decode_image("aGVsbG8"), Err(DecodeFault::InvalidPadding));
}

#[test]
fn stray_bits_in_the_last_symbol_are_reported() {
    assert_eq!(decode_image("AB=="), Err(DecodeFault::InvalidLastSymbol { offset: 1, byte: b'B' }));
}
