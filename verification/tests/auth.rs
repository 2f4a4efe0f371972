use uxum::auth::token::AuthToken;

#[test]
fn tokens_are_masked() {
    assert_eq!(AuthToken::Absent.masked(), "Absent");
    assert_eq!(AuthToken::ExternallyVerified.masked(), "ExternallyVerified");
    assert_eq!(AuthToken::from("sesame".to_string()).masked(), "PlainPassword(***)");
    assert_eq!(
        AuthToken::from("sesame".to_string()).masked(),
        AuthToken::from("other".to_string()).masked()
    );
}

#[test]
fn default_token_is_absent() {
    assert!(matches!(AuthToken::default(), AuthToken::Absent));
}

#[test]
fn secret_is_wiped() {
    let mut token = AuthToken::from("sesame".to_string());
    let copy = token.clone();
    token.zeroize();
    assert!(matches!(&token, AuthToken::PlainPassword(password) if password.is_empty()));
    assert!(matches!(&copy, AuthToken::PlainPassword(password) if password == "sesame"));
    assert_eq!(token.masked(), copy.masked());
    let mut token = AuthToken::ExternallyVerified;
    token.zeroize();
    assert!(matches!(token.clone(), AuthToken::ExternallyVerified));
    assert!(matches!(AuthToken::Absent.clone(), AuthToken::Absent));
}
