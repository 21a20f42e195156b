use jot::auth::{
    check_inserted, check_registration, login_reply, register_inserted, register_start,
    str_equal, user_cookie_value, user_id_from_cookie, AuthError, RegisterData, Reply, Route, User,
    LoginData, MIN_PASSWORD_LEN, USER_COOKIE,
};

fn form<'a>(username: &'a str, password: &'a str, confirm: &'a str) -> RegisterData<'a> {
    RegisterData { username, password, password_confirm: confirm }
}

#[test]
fn registration_accepts_matching_long_passwords() {
    assert!(check_registration(&form("ann", "correcthorse", "correcthorse")).is_ok());
    assert!(check_registration(&form("ann", "12345678", "12345678")).is_ok());
    assert!(register_start(&form("ann", "12345678", "12345678")).is_none());
}

#[test]
fn registration_mismatch_first() {
    assert!(matches!(
        check_registration(&form("ann", "short", "other")),
        Err(AuthError::PasswordMismatch)
    ));
    match register_start(&form("ann", "abcdefgh", "abcdefgX")) {
        Some(Reply::Refused { to, message }) => {
            assert_eq!(to, Route::Register);
            assert_eq!(message, "passwords do not match");
        }
        other => panic!("{:?}", other),
    }
}

#[test]
fn registration_too_short() {
    assert!(matches!(
        check_registration(&form("ann", "1234567", "1234567")),
        Err(AuthError::PasswordTooShort)
    ));
    match register_start(&form("ann", "", "")) {
        Some(Reply::Refused { to, message }) => {
            assert_eq!(to, Route::Register);
            assert_eq!(message, "password must be 8 characters or longer");
        }
        other => panic!("{:?}", other),
    }
    assert_eq!(MIN_PASSWORD_LEN, 8);
}

#[test]
fn registration_length_counts_bytes() {
    // Four characters of two bytes each: eight bytes, as `str::len` counts.
    assert!(check_registration(&form("ann", "éééé", "éééé")).is_ok());
    assert!(matches!(
        check_registration(&form("ann", "ééé", "ééé")),
        Err(AuthError::PasswordTooShort)
    ));
}

#[test]
fn username_taken_message() {
    let data = form("bob", "password1", "password1");
    assert!(check_inserted(&data, true).is_ok());
    match check_inserted(&data, false) {
        Err(AuthError::UsernameTaken(name)) => assert_eq!(name, "bob"),
        other => panic!("{:?}", other),
    }
    assert!(register_inserted(&data, true).is_none());
    match register_inserted(&data, false) {
        Some(Reply::Refused { to, message }) => {
            assert_eq!(to, Route::Register);
            assert_eq!(message, "username \"bob\" is taken");
        }
        other => panic!("{:?}", other),
    }
}

#[test]
fn error_messages_and_routes() {
    assert_eq!(AuthError::PasswordMismatch.message(), "passwords do not match");
    assert_eq!(AuthError::InvalidCredentials.message(), "invalid username or password");
    assert_eq!(AuthError::InvalidCredentials.route(), Route::Login);
    assert_eq!(AuthError::PasswordTooShort.route(), Route::Register);
    assert_eq!(AuthError::UsernameTaken(String::from("x")).route(), Route::Register);
}

#[test]
fn login_reply_sets_cookie_or_refuses() {
    let user = User { id: 42, name: String::from("ann") };
    match login_reply(Some(&user)) {
        Reply::LoggedIn { user_cookie } => assert_eq!(user_cookie, "42"),
        other => panic!("{:?}", other),
    }
    match login_reply(None) {
        Reply::Refused { to, message } => {
            assert_eq!(to, Route::Login);
            assert_eq!(message, "invalid username or password");
        }
        other => panic!("{:?}", other),
    }
}

#[test]
fn session_cookie_roundtrip() {
    assert_eq!(USER_COOKIE, "user_id");
    for id in [0u64, 1, 2, 1000, 4294967295] {
        let value = user_cookie_value(id);
        assert_eq!(user_id_from_cookie(Some(&value)), Some(id as u32));
    }
    assert_eq!(user_id_from_cookie(Some(&user_cookie_value(4294967296))), None);
}

#[test]
fn cookie_without_number() {
    assert_eq!(user_id_from_cookie(None), None);
    assert_eq!(user_id_from_cookie(Some("abc")), None);
    assert_eq!(user_id_from_cookie(Some("")), None);
    assert_eq!(user_id_from_cookie(Some("-3")), None);
}

#[test]
fn str_equal_compares_characters() {
    assert!(str_equal("abc", "abc"));
    assert!(str_equal("", ""));
    assert!(!str_equal("abc", "abd"));
    assert!(!str_equal("abc", "ab"));
}

#[test]
fn login_form_fields() {
    let d = LoginData { username: "ann", password: "pw" };
    assert_eq!(d.username, "ann");
    assert_eq!(d.password, "pw");
}
