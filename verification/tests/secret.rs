use aicap_handshake::secret::{
    generate_api_token, generate_random_filename_component, get_api_token, hex_encode,
    hex_of_draw, TokenCell, FILE_NAME_BYTES, TOKEN_BYTES,
};

fn is_lower_hex(text: &str) -> bool {
    text.chars().all(|c| matches!(c, '0'..='9' | 'a'..='f'))
}

fn draw(text: Result<String, aicap_handshake::secret::RandomSourceError>) -> String {
    match text {
        Ok(text) => text,
        Err(error) => panic!("no random bytes: {}", error.cause),
    }
}

#[test]
fn hex_encode_writes_two_lowercase_digits_per_byte() {
    assert_eq!(hex_encode(&[]), "");
    assert_eq!(hex_encode(&[0x00]), "00");
    assert_eq!(hex_encode(&[0x0f]), "0f");
    assert_eq!(hex_encode(&[0xa0]), "a0");
    assert_eq!(hex_encode(&[0xff]), "ff");
    assert_eq!(hex_encode(&[0x09, 0x0a, 0x10, 0x9f]), "090a109f");
    assert_eq!(hex_encode(&[0xde, 0xad, 0xbe, 0xef]), "deadbeef");
}

#[test]
fn hex_encode_covers_every_byte() {
    let all: Vec<u8> = (0u8..=255).collect();
    let text = hex_encode(&all);
    assert_eq!(text.len(), 512);
    for (i, byte) in all.iter().enumerate() {
        assert_eq!(&text[2 * i..2 * i + 2], format!("{:02x}", byte));
    }
}

#[test]
fn hex_encode_keeps_different_bytes_apart() {
    assert_ne!(hex_encode(&[0x01, 0x10]), hex_encode(&[0x10, 0x01]));
    assert_ne!(hex_encode(&[0x00]), hex_encode(&[0x00, 0x00]));
    assert_ne!(hex_encode(&[0x0a]), hex_encode(&[0xa0]));
}

#[test]
fn token_is_sixty_four_lowercase_hex_digits() {
    assert_eq!(TOKEN_BYTES, 32);
    let token = draw(generate_api_token());
    assert_eq!(token.len(), 64);
    assert!(is_lower_hex(&token));
}

#[test]
fn file_name_component_is_thirty_two_lowercase_hex_digits() {
    assert_eq!(FILE_NAME_BYTES, 16);
    let part = draw(generate_random_filename_component());
    assert_eq!(part.len(), 32);
    assert!(is_lower_hex(&part));
}

#[test]
fn random_bytes_are_not_the_zeroed_buffer() {
    assert_ne!(draw(generate_api_token()), "0".repeat(64));
    assert_ne!(draw(generate_random_filename_component()), "0".repeat(32));
}

#[test]
fn consecutive_tokens_differ_in_ten_thousand_trials() {
    let mut previous = draw(generate_api_token());
    for _ in 0..10_000 {
        let next = draw(generate_api_token());
        assert_ne!(previous, next);
        previous = next;
    }
}

#[test]
fn consecutive_file_name_components_differ_in_ten_thousand_trials() {
    let mut previous = draw(generate_random_filename_component());
    for _ in 0..10_000 {
        let next = draw(generate_random_filename_component());
        assert_ne!(previous, next);
        previous = next;
    }
}

#[test]
fn token_of_a_process_is_generated_once() {
    let mut cell = TokenCell::new();
    let first = draw(get_api_token(&mut cell));
    let second = draw(get_api_token(&mut cell));
    let third = draw(get_api_token(&mut cell));
    assert_eq!(first.len(), 64);
    assert!(is_lower_hex(&first));
    assert_eq!(first, second);
    assert_eq!(second, third);
}

#[test]
fn two_processes_have_two_tokens() {
    let mut one = TokenCell::new();
    let mut other = TokenCell::new();
    assert_ne!(draw(get_api_token(&mut one)), draw(get_api_token(&mut other)));
}

#[test]
fn drawn_bytes_become_their_hexadecimal_text() {
    assert_eq!(hex_of_draw(Ok(vec![0xde, 0xad, 0xbe, 0xef])).ok(), Some("deadbeef".to_string()));
    assert_eq!(hex_of_draw(Ok(vec![])).ok(), Some(String::new()));
    assert_eq!(hex_of_draw(Ok(vec![0u8; 32])).ok(), Some("0".repeat(64)));
}

#[test]
fn failed_draw_hands_on_the_error_of_the_source() {
    match hex_of_draw(Err(rand::Error::new("no entropy"))) {
        Ok(text) => panic!("text without bytes: {}", text),
        Err(error) => assert_eq!(error.cause.to_string(), "no entropy"),
    }
}
