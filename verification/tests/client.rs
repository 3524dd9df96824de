use aicap_handshake::client::{
    get_client, CONNECT_TIMEOUT_SECS, MAX_IDLE_PER_HOST, REQUEST_TIMEOUT_SECS, TOKEN_HEADER,
};
use aicap_handshake::secret::{get_api_token, TokenCell};

#[test]
fn client_settings_are_the_fixed_ones() {
    assert_eq!(TOKEN_HEADER, "x-aicap-token");
    assert_eq!(REQUEST_TIMEOUT_SECS, 30);
    assert_eq!(CONNECT_TIMEOUT_SECS, 10);
    assert_eq!(MAX_IDLE_PER_HOST, 2);
    let mut cell = TokenCell::new();
    let config = get_client(&mut cell).ok().expect("random bytes");
    assert_eq!(config.header_name, "x-aicap-token");
    assert_eq!(config.timeout_secs, 30);
    assert_eq!(config.connect_timeout_secs, 10);
    assert_eq!(config.pool_max_idle_per_host, 2);
}

#[test]
fn client_carries_the_token_of_the_process() {
    let mut cell = TokenCell::new();
    let token = get_api_token(&mut cell).ok().expect("random bytes");
    let config = get_client(&mut cell).ok().expect("random bytes");
    assert_eq!(config.header_value, token);
}

#[test]
fn client_generates_the_token_if_nobody_asked_before() {
    let mut cell = TokenCell::new();
    let config = get_client(&mut cell).ok().expect("random bytes");
    assert_eq!(config.header_value.len(), 64);
    assert!(config.header_value.chars().all(|c| matches!(c, '0'..='9' | 'a'..='f')));
    assert!(config.header_value.bytes().all(|b| (0x21..=0x7e).contains(&b)));
    let token = get_api_token(&mut cell).ok().expect("random bytes");
    assert_eq!(config.header_value, token);
}
