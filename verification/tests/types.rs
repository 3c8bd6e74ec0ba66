use open_auth2::{ClientId, ClientIdBuf, Code, CodeBuf, State, StateBuf};

// --- ClientId ---

#[test]
fn valid_client_id() {
    assert!(ClientId::new("my-client".to_owned()).is_ok());
    assert!(ClientId::new("a".to_owned()).is_ok());
    assert!(ClientId::new("client 123".to_owned()).is_ok());
}

#[test]
fn empty_client_id_is_valid() {
    // Grammar is `*VSCHAR`, so empty is allowed.
    assert!(ClientId::new("".to_owned()).is_ok());
}

#[test]
fn client_id_rejects_control_chars() {
    assert!(ClientId::new("\x00".to_owned()).is_err());
    assert!(ClientId::new("\x1f".to_owned()).is_err());
    assert!(ClientId::new("abc\ndef".to_owned()).is_err());
    assert!(ClientId::new("abc\x7f".to_owned()).is_err());
}

#[test]
fn valid_client_id_buf() {
    assert!(ClientIdBuf::new("my-client".to_owned()).is_ok());
    assert!(ClientIdBuf::new("".to_owned()).is_ok());
}

#[test]
fn invalid_client_id_buf() {
    assert!(ClientIdBuf::new("\x00".to_owned()).is_err());
}

#[test]
fn client_id_round_trip() {
    let id = ClientId::new("my-client".to_owned()).unwrap();
    assert_eq!(id.as_str(), "my-client");
}

#[test]
fn client_id_rejects_non_ascii() {
    assert!(ClientId::new("caf\u{e9}".to_owned()).is_err());
}

// --- Code ---

#[test]
fn valid_code() {
    assert!(Code::new("abc123".to_owned()).is_ok());
    assert!(Code::new("a".to_owned()).is_ok());
    assert!(Code::new("code with spaces".to_owned()).is_ok());
    assert!(Code::new("~!@#$%^&*()".to_owned()).is_ok());
}

#[test]
fn empty_code_is_invalid() {
    assert!(Code::new("".to_owned()).is_err());
}

#[test]
fn code_rejects_control_chars() {
    assert!(Code::new("\x00".to_owned()).is_err());
    assert!(Code::new("\x1f".to_owned()).is_err());
    assert!(Code::new("abc\ndef".to_owned()).is_err());
    assert!(Code::new("abc\x7f".to_owned()).is_err());
}

#[test]
fn valid_code_buf() {
    assert!(CodeBuf::new("code123".to_owned()).is_ok());
}

#[test]
fn invalid_code_buf() {
    assert!(CodeBuf::new("".to_owned()).is_err());
    assert!(CodeBuf::new("\x00bad".to_owned()).is_err());
}

#[test]
fn code_round_trip() {
    let code = Code::new("abc 123".to_owned()).unwrap();
    assert_eq!(code.as_str(), "abc 123");
}

// --- State ---

#[test]
fn valid_state_round_trip() {
    let state = State::new("xyzzy".to_owned()).unwrap();
    assert_eq!(state.as_str(), "xyzzy");
}

#[test]
fn empty_state_is_invalid() {
    assert!(State::new("".to_owned()).is_err());
    assert!(State::new("abc\x01".to_owned()).is_err());
}

#[test]
fn random_state_is_valid() {
    let state = StateBuf::new_random();
    assert_eq!(state.as_str().len(), 22);
    assert!(State::new(state.as_str().to_owned()).is_ok());
}

#[test]
fn random_state_len_is_valid() {
    let state = StateBuf::new_random_len(30);
    assert_eq!(state.as_str().len(), 40);
    assert!(State::new(state.as_str().to_owned()).is_ok());
}
