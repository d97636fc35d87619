use templo::account::{
    byte_length, judge_password, registration_outcome, signup_outcome, validate_password,
    validate_register_inputs, validate_signup_inputs, AuthResponse, RegisterResponse,
    UserAccountKey,
};
use templo::error::ErrorKind;

fn fields(a: &str, b: &str, c: &str, d: &str) -> (String, String, String, String) {
    (a.to_string(), b.to_string(), c.to_string(), d.to_string())
}

fn message(out: Result<(), templo::error::StoreError>) -> String {
    let err = out.unwrap_err();
    assert_eq!(err.kind, ErrorKind::InvalidInput);
    err.message
}

#[test]
fn register_form_is_accepted() {
    assert!(validate_register_inputs(&fields("user", "u@x.io", "secret", "secret")).is_ok());
    let thirty = "a".repeat(30);
    assert!(validate_register_inputs(&fields(&thirty, &thirty, &thirty, &thirty)).is_ok());
    assert!(validate_register_inputs(&fields("", "", "", "")).is_ok());
}

#[test]
fn register_form_faults_in_order() {
    let long = "a".repeat(31);
    assert_eq!(
        message(validate_register_inputs(&fields(&long, &long, &long, "x"))),
        "The username should not have more than 30 characters."
    );
    assert_eq!(
        message(validate_register_inputs(&fields("u", &long, &long, "x"))),
        "The email should not have more than 30 characters."
    );
    assert_eq!(
        message(validate_register_inputs(&fields("u", "e", &long, "x"))),
        "The password should not have more than 30 characters."
    );
    assert_eq!(
        message(validate_register_inputs(&fields("u", "e", "secret", "secre"))),
        "The confirm password is incorrect."
    );
}

#[test]
fn lengths_are_counted_in_bytes() {
    assert_eq!(byte_length(""), 0);
    assert_eq!(byte_length("abc"), 3);
    assert_eq!(byte_length("é"), 2);
    assert_eq!(byte_length("\u{1F600}"), 4);
    let sixteen = "é".repeat(16);
    assert_eq!(
        message(validate_register_inputs(&fields(&sixteen, "e", "p", "p"))),
        "The username should not have more than 30 characters."
    );
}

#[test]
fn password_is_accepted() {
    assert!(validate_password("Abcdef1!", "Abcdef1!").is_ok());
    assert!(validate_password("aB3$ef", "aB3$ef").is_ok());
    assert!(validate_password("Zz9_Zz9_Zz9_Zz9_Zz9_Zz9_Zz9_Zz", "Zz9_Zz9_Zz9_Zz9_Zz9_Zz9_Zz9_Zz").is_ok());
}

#[test]
fn password_faults_in_order() {
    let long = "Aa1!".repeat(8);
    assert_eq!(
        message(validate_password(&long, &long)),
        "The password must have 30 characteres or less."
    );
    assert_eq!(
        message(validate_password("Aa1!x", "Aa1!x")),
        "The password must have 6 characters or more."
    );
    assert_eq!(
        message(validate_password("Abcdef12", "Abcdef12")),
        "The password must have at least one special character."
    );
    assert_eq!(
        message(validate_password("abcdef1!", "abcdef1!")),
        "The password must have at least one uppercase character."
    );
    assert_eq!(
        message(validate_password("ABCDEF1!", "ABCDEF1!")),
        "The password must have at least one lowercase character."
    );
    assert_eq!(
        message(validate_password("Abcdefg!", "Abcdefg!")),
        "The password must have at least one digit."
    );
    assert_eq!(
        message(validate_password("Abcdef1 ", "Abcdef1 ")),
        "The password must not have whitespaces."
    );
    assert_eq!(
        message(validate_password("Abc\tef1!", "Abc\tef1!")),
        "The password must not have whitespaces."
    );
    assert_eq!(
        message(validate_password("Abcdef1!", "Abcdef1?")),
        "The confirm password is incorrect."
    );
}

#[test]
fn password_rules_applied_to_findings() {
    assert!(judge_password(6, true, true, true, true, false, true).is_ok());
    assert!(judge_password(30, true, true, true, true, false, true).is_ok());
    assert_eq!(
        message(judge_password(31, true, true, true, true, false, true)),
        "The password must have 30 characteres or less."
    );
    assert_eq!(
        message(judge_password(5, false, false, false, false, true, false)),
        "The password must have 6 characters or more."
    );
    assert_eq!(
        message(judge_password(8, false, false, false, false, true, false)),
        "The password must have at least one special character."
    );
    assert_eq!(
        message(judge_password(8, true, false, false, false, true, false)),
        "The password must have at least one uppercase character."
    );
    assert_eq!(
        message(judge_password(8, true, true, false, false, true, false)),
        "The password must have at least one lowercase character."
    );
    assert_eq!(
        message(judge_password(8, true, true, true, false, true, false)),
        "The password must have at least one digit."
    );
    assert_eq!(
        message(judge_password(8, true, true, true, true, true, false)),
        "The password must not have whitespaces."
    );
    assert_eq!(
        message(judge_password(8, true, true, true, true, false, false)),
        "The confirm password is incorrect."
    );
}

#[test]
fn signup_form() {
    assert!(validate_signup_inputs(&fields("user", "u@x.io", "Abcdef1!", "Abcdef1!")).is_ok());
    let long = "a".repeat(31);
    assert_eq!(
        message(validate_signup_inputs(&fields(&long, "e", "x", "y"))),
        "The username should not have more than 30 characters."
    );
    assert_eq!(
        message(validate_signup_inputs(&fields("u", &long, "x", "y"))),
        "The email should not have more than 30 characters."
    );
    assert_eq!(
        message(validate_signup_inputs(&fields("u", "e", "short", "short"))),
        "The password must have 6 characters or more."
    );
    assert_eq!(
        message(validate_signup_inputs(&fields("u", "e", "Abcdef1!", "other"))),
        "The confirm password is incorrect."
    );
}

#[test]
fn registration_answers() {
    let ok = RegisterResponse {
        registered: true,
        user: "{\"key\":\"k\"}".to_string(),
        message: "welcome".to_string(),
    };
    assert_eq!(registration_outcome(ok).unwrap(), "{\"key\":\"k\"}");
    let taken = RegisterResponse {
        registered: false,
        user: String::new(),
        message: "name taken".to_string(),
    };
    let err = registration_outcome(taken).unwrap_err();
    assert_eq!(err.kind, ErrorKind::AlreadyExists);
    assert_eq!(err.message, "name taken");
}

#[test]
fn signup_answers() {
    assert_eq!(signup_outcome(true, Some("{}".to_string()), "ok").unwrap(), "{}");
    let err = signup_outcome(false, Some("{}".to_string()), "name taken").unwrap_err();
    assert_eq!(err.kind, ErrorKind::AlreadyExists);
    assert_eq!(err.message, "name taken");
    let err = signup_outcome(true, None, "ok").unwrap_err();
    assert_eq!(err.kind, ErrorKind::Other);
    let err = signup_outcome(false, None, "no").unwrap_err();
    assert_eq!(err.kind, ErrorKind::AlreadyExists);
}

#[test]
fn account_records_hold_their_fields() {
    let key = UserAccountKey {
        username: "u".to_string(),
        email: "e".to_string(),
        password: "p".to_string(),
        key: "k".to_string(),
    };
    assert_eq!(key.username, "u");
    assert_eq!(key.key, "k");
    let auth = AuthResponse { authenticated: true, user: "u".to_string(), message: "m".to_string() };
    assert!(auth.authenticated);
    assert_eq!(auth.message, "m");
}
