use open_auth2::{IntoScope, Scope, ScopeBuf, ScopeToken, ScopeTokenBuf};

// --- ScopeToken ---

#[test]
fn valid_scope_token() {
    assert!(ScopeToken::new("openid".to_owned()).is_ok());
    assert!(ScopeToken::new("read:user".to_owned()).is_ok());
    assert!(ScopeToken::new("!!".to_owned()).is_ok());
}

#[test]
fn empty_scope_token_is_invalid() {
    assert!(ScopeToken::new("".to_owned()).is_err());
}

#[test]
fn scope_token_rejects_space() {
    // Space is the scope delimiter, not allowed inside a token.
    assert!(ScopeToken::new("read write".to_owned()).is_err());
}

#[test]
fn scope_token_rejects_backslash() {
    // 0x5C (backslash) is excluded from the grammar.
    assert!(ScopeToken::new("ab\\cd".to_owned()).is_err());
}

#[test]
fn scope_token_rejects_double_quote() {
    // 0x22 (double quote) is excluded from the grammar.
    assert!(ScopeToken::new("ab\"cd".to_owned()).is_err());
}

#[test]
fn scope_token_rejects_control_chars() {
    assert!(ScopeToken::new("\x00".to_owned()).is_err());
    assert!(ScopeToken::new("\x1f".to_owned()).is_err());
    assert!(ScopeToken::new("\x7f".to_owned()).is_err());
}

// --- Scope ---

#[test]
fn valid_scope() {
    assert!(Scope::new("openid".to_owned()).is_ok());
    assert!(Scope::new("openid profile email".to_owned()).is_ok());
}

#[test]
fn empty_scope_is_invalid() {
    assert!(Scope::new("".to_owned()).is_err());
}

#[test]
fn scope_rejects_leading_space() {
    assert!(Scope::new(" openid".to_owned()).is_err());
}

#[test]
fn scope_rejects_trailing_space() {
    assert!(Scope::new("openid ".to_owned()).is_err());
}

#[test]
fn scope_rejects_double_space() {
    assert!(Scope::new("openid  profile".to_owned()).is_err());
}

#[test]
fn scope_rejects_invalid_token_chars() {
    assert!(Scope::new("open\"id".to_owned()).is_err());
    assert!(Scope::new("open\\id".to_owned()).is_err());
}

#[test]
fn scope_list() {
    Scope::new("openid profile".to_owned()).unwrap();
}

#[test]
fn scope_iter() {
    let scope = Scope::new("openid profile email".to_owned()).unwrap();
    let tokens: Vec<String> = scope.iter().iter().map(|t| t.as_str().to_owned()).collect();
    assert_eq!(tokens, vec!["openid", "profile", "email"]);
}

#[test]
fn scope_contains() {
    let scope = Scope::new("openid profile".to_owned()).unwrap();
    assert!(scope.contains(&ScopeToken::new("openid".to_owned()).unwrap()));
    assert!(!scope.contains(&ScopeToken::new("email".to_owned()).unwrap()));
}

#[test]
fn scope_buf_insert() {
    let mut scope = ScopeBuf::new("openid".to_owned()).unwrap();
    assert!(scope.insert(&ScopeToken::new("profile".to_owned()).unwrap()));
    assert!(!scope.insert(&ScopeToken::new("openid".to_owned()).unwrap()));
    assert_eq!(scope.as_str(), "openid profile");
}

#[test]
fn scope_buf_from_tokens() {
    let tokens = vec![
        ScopeTokenBuf::new("openid".to_owned()).unwrap(),
        ScopeTokenBuf::new("profile".to_owned()).unwrap(),
    ];
    let scope = ScopeBuf::from_tokens(&tokens).unwrap();
    assert_eq!(scope.as_str(), "openid profile");
}

#[test]
fn scope_buf_from_empty_tokens() {
    let tokens: Vec<ScopeTokenBuf> = vec![];
    assert!(ScopeBuf::from_tokens(&tokens).is_none());
}

// Inserting an already-present token returns `false` and leaves the
// scope unchanged.
#[test]
fn scope_buf_insert_is_idempotent() {
    let mut scope = ScopeBuf::new("openid profile".to_owned()).unwrap();
    let token = ScopeToken::new("profile".to_owned()).unwrap();
    assert!(!scope.insert(&token));
    assert_eq!(scope.as_str(), "openid profile");
    assert!(!scope.insert(&token));
    assert_eq!(scope.as_str(), "openid profile");
}

#[test]
fn scope_extend_skips_duplicates() {
    let mut scope = ScopeBuf::new("openid".to_owned()).unwrap();
    let tokens = vec![
        ScopeTokenBuf::new("openid".to_owned()).unwrap(),
        ScopeTokenBuf::new("email".to_owned()).unwrap(),
        ScopeTokenBuf::new("email".to_owned()).unwrap(),
    ];
    scope.extend(&tokens);
    assert_eq!(scope.as_str(), "openid email");
}

#[test]
fn into_scope_of_tokens() {
    let tokens = vec![
        ScopeTokenBuf::new("openid".to_owned()).unwrap(),
        ScopeTokenBuf::new("profile".to_owned()).unwrap(),
    ];
    let scope = tokens.into_scope().unwrap();
    assert_eq!(scope.as_str(), "openid profile");
    let empty: Vec<ScopeTokenBuf> = vec![];
    assert!(empty.into_scope().is_none());
    let direct: Option<ScopeBuf> = Some(ScopeBuf::new("a".to_owned()).unwrap());
    assert_eq!(direct.into_scope().unwrap().as_str(), "a");
}
