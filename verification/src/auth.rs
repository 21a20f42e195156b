//! Accounts of the web inbox: login and registration decisions, and the session
//! cookie that remembers who is logged in.
use vstd::prelude::*;

use crate::decimal::{decimal, parse_u32, parse_u32_spec, u64_to_decimal};

verus! {

/// A user and their ID.
pub struct User {
    pub id: u64,
    pub name: String,
}

/// The fields of the login form.
pub struct LoginData<'r> {
    pub username: &'r str,
    pub password: &'r str,
}

/// The fields of the registration form.
pub struct RegisterData<'r> {
    pub username: &'r str,
    pub password: &'r str,
    pub password_confirm: &'r str,
}

/// The pages that an authentication request may send the browser to.
#[derive(Clone, Copy, Debug, PartialEq, Eq, Structural)]
pub enum Route {
    Home,
    Login,
    Register,
}

/// Why a login or registration was refused.
#[derive(Debug)]
pub enum AuthError {
    /// The password and its confirmation differ.
    PasswordMismatch,
    /// The password is shorter than the minimum length.
    PasswordTooShort,
    /// Another account already has this username.
    UsernameTaken(String),
    /// No account matches the username and password.
    InvalidCredentials,
}

/// The answer to a login or registration request.
#[derive(Debug)]
pub enum Reply {
    /// The user is logged in: set the session cookie to `user_cookie` and go home.
    LoggedIn { user_cookie: String },
    /// The request is refused: show `message` on the page `to`.
    Refused { to: Route, message: String },
}

/// The name of the private cookie that holds the logged-in user's ID.
pub const USER_COOKIE: &'static str = "user_id";

/// The minimum length of a password, in bytes of its UTF-8 encoding.
pub const MIN_PASSWORD_LEN: usize = 8;

/// The message shown for a refused request.
pub open spec fn error_message(e: AuthError) -> Seq<char> {
    match e {
        AuthError::PasswordMismatch => "passwords do not match"@,
        AuthError::PasswordTooShort => "password must be 8 characters or longer"@,
        AuthError::UsernameTaken(name) => "username \""@ + name@ + "\" is taken"@,
        AuthError::InvalidCredentials => "invalid username or password"@,
    }
}

/// The page a refused request goes back to.
pub open spec fn error_route(e: AuthError) -> Route {
    match e {
        AuthError::InvalidCredentials => Route::Login,
        _ => Route::Register,
    }
}

/// The reply that refuses a request for the reason `e`.
pub open spec fn refusal(e: AuthError) -> (Route, Seq<char>) {
    (error_route(e), error_message(e))
}

/// What the registration form is refused for before any account is created:
/// differing passwords first, then a password under the minimum length.
pub open spec fn registration_problem(password: &str, password_confirm: &str) -> Option<AuthError> {
    if password@ != password_confirm@ {
        Some(AuthError::PasswordMismatch)
    } else if password.len() < MIN_PASSWORD_LEN {
        Some(AuthError::PasswordTooShort)
    } else {
        None
    }
}

/// Whether two texts are equal, character for character.
pub fn str_equal(a: &str, b: &str) -> (r: bool)
    ensures
        r == (a@ == b@),
{
    let n = a.unicode_len();
    if n != b.unicode_len() {
        return false;
    }
    let mut i: usize = 0;
    while i < n
        invariant
            n == a@.len(),
            n == b@.len(),
            i <= n,
            forall|j: int| 0 <= j < i ==> a@[j] == b@[j],
        decreases n - i,
    {
        if a.get_char(i) != b.get_char(i) {
            return false;
        }
        i = i + 1;
    }
    proof {
        assert(a@ =~= b@);
    }
    true
}

impl AuthError {
    /// The message shown to the user for this refusal.
    pub fn message(&self) -> (r: String)
        ensures
            r@ == error_message(*self),
    {
        proof {
            reveal_strlit("passwords do not match");
            reveal_strlit("password must be 8 characters or longer");
            reveal_strlit("username \"");
            reveal_strlit("\" is taken");
            reveal_strlit("invalid username or password");
        }
        match self {
            AuthError::PasswordMismatch => String::from_str("passwords do not match"),
            AuthError::PasswordTooShort => String::from_str("password must be 8 characters or longer"),
            AuthError::UsernameTaken(name) => {
                let mut s = String::from_str("username \"");
                s.append(name.as_str());
                s.append("\" is taken");
                s
            },
            AuthError::InvalidCredentials => String::from_str("invalid username or password"),
        }
    }

    /// The page that a request refused for this reason goes back to: the login
    /// page for wrong credentials, the registration page otherwise.
    pub fn route(&self) -> (r: Route)
        ensures
            r == error_route(*self),
    {
        match self {
            AuthError::InvalidCredentials => Route::Login,
            _ => Route::Register,
        }
    }

    /// The reply that refuses a request for this reason.
    pub fn into_reply(self) -> (r: Reply)
        ensures
            r matches Reply::Refused { to, message } && (to, message@) == refusal(self),
    {
        let to = self.route();
        let message = self.message();
        Reply::Refused { to, message }
    }
}

/// Checks the registration form before an account is created.
///
/// Refused with `PasswordMismatch` when the password and its confirmation
/// differ; otherwise refused with `PasswordTooShort` when the password has
/// fewer than 8 bytes; otherwise accepted.
pub fn check_registration(data: &RegisterData) -> (r: Result<(), AuthError>)
    ensures
        match registration_problem(data.password, data.password_confirm) {
            Some(e) => r == Err::<(), AuthError>(e),
            None => r is Ok,
        },
        r is Ok ==> data.password@ == data.password_confirm@ && data.password.len() >= 8,
        data.password@ != data.password_confirm@ ==> r matches Err(AuthError::PasswordMismatch),
        data.password@ == data.password_confirm@ && data.password.len() < 8 ==> r matches Err(
            AuthError::PasswordTooShort,
        ),
        data.password@ == data.password_confirm@ && data.password.len() >= 8 ==> r is Ok,
{
    if !str_equal(data.password, data.password_confirm) {
        return Err(AuthError::PasswordMismatch);
    }
    if data.password.len() < MIN_PASSWORD_LEN {
        return Err(AuthError::PasswordTooShort);
    }
    Ok(())
}

/// The outcome of inserting the new account: an insertion that failed means
/// the username is taken.
pub fn check_inserted(data: &RegisterData, inserted: bool) -> (r: Result<(), AuthError>)
    ensures
        inserted ==> r is Ok,
        !inserted ==> (r matches Err(AuthError::UsernameTaken(name)) && name@ == data.username@),
{
    if inserted {
        Ok(())
    } else {
        Err(AuthError::UsernameTaken(String::from_str(data.username)))
    }
}

/// The value of the session cookie for the user with ID `id`: its decimal notation.
pub fn user_cookie_value(id: u64) -> (r: String)
    ensures
        r@ == decimal(id as nat),
{
    u64_to_decimal(id)
}

/// The user ID that a session cookie holds: `None` when there is no cookie,
/// or when its value is not the decimal notation of a `u32`.
pub fn user_id_from_cookie(value: Option<&str>) -> (r: Option<u32>)
    ensures
        match value {
            None => r is None,
            Some(v) => r == parse_u32_spec(v@),
        },
{
    match value {
        None => None,
        Some(v) => parse_u32(v),
    }
}

/// The reply to a credentials check: logged in as `user` when one was found,
/// refused with "invalid username or password" otherwise.
pub fn login_reply(user: Option<&User>) -> (r: Reply)
    ensures
        match user {
            Some(u) => r matches Reply::LoggedIn { user_cookie } && user_cookie@ == decimal(u.id as nat),
            None => r matches Reply::Refused { to, message } && (to, message@) == refusal(AuthError::InvalidCredentials),
        },
{
    match user {
        Some(u) => Reply::LoggedIn { user_cookie: user_cookie_value(u.id) },
        None => AuthError::InvalidCredentials.into_reply(),
    }
}

/// The first decision on a registration form: `Some` refusal when the form is
/// rejected before any account is created, `None` when the account may be inserted.
pub fn register_start(data: &RegisterData) -> (r: Option<Reply>)
    ensures
        match registration_problem(data.password, data.password_confirm) {
            Some(e) => r matches Some(Reply::Refused { to, message }) && (to, message@) == refusal(e),
            None => r is None,
        },
        r is None <==> (data.password@ == data.password_confirm@ && data.password.len() >= 8),
{
    match check_registration(data) {
        Ok(()) => None,
        Err(e) => Some(e.into_reply()),
    }
}

/// The decision after inserting the account: `None` when it was inserted and the
/// new user is to be logged in, a refusal naming the username otherwise.
pub fn register_inserted(data: &RegisterData, inserted: bool) -> (r: Option<Reply>)
    ensures
        inserted ==> r is None,
        !inserted ==> (r matches Some(Reply::Refused { to, message })
            && to == Route::Register
            && message@ == "username \""@ + data.username@ + "\" is taken"@),
{
    match check_inserted(data, inserted) {
        Ok(()) => None,
        Err(e) => Some(e.into_reply()),
    }
}

/// A session cookie written for a user can be read back as that user's ID,
/// whenever the ID fits in the `u32` that the inbox looks users up by.
pub proof fn lemma_session_cookie_roundtrip(id: u64)
    requires
        id <= u32::MAX,
    ensures
        parse_u32_spec(decimal(id as nat)) == Some(id as u32),
{
    crate::decimal::lemma_parse_decimal_roundtrip(id as nat);
}

/// A registration form passes the first check exactly when the password equals its
/// confirmation, character for character, and is at least 8 bytes long; whenever the
/// two differ, the refusal is for the mismatch, whatever their lengths.
pub proof fn lemma_registration_needs_matching_long_password(password: &str, password_confirm: &str)
    ensures
        registration_problem(password, password_confirm) is None <==> (password@ == password_confirm@
            && password.len() >= 8),
        password@ != password_confirm@ ==> registration_problem(password, password_confirm) == Some(
            AuthError::PasswordMismatch,
        ),
{
}

} // verus!
