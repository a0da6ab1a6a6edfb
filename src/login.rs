//! The login gate: the form shown to a visitor and the decision taken on a
//! submitted username.
use vstd::prelude::*;

verus! {

/// The one username that is let in.
pub const ADMIN_USERNAME: &'static str = "ram";

/// The cookie set on a successful login, and its value.
pub const AUTH_COOKIE_NAME: &'static str = "my_auth_cookie";

pub const AUTH_COOKIE_VALUE: &'static str = "SomeValue";

/// Where a successful login is sent.
pub const AFTER_LOGIN_LOCATION: &'static str = "/dashboard";

/// Where a logout is sent.
pub const AFTER_LOGOUT_LOCATION: &'static str = "/";

/// The message shown when a login is refused.
pub const INVALID_CREDENTIALS: &'static str = "Invalid credentials";

/// The fields of the login page.
#[derive(Debug, Clone)]
pub struct LoginForm {
    pub username: String,
    pub password: String,
    pub error_message: Option<String>,
}

/// What a submitted login leads to.
#[derive(Debug)]
pub enum LoginOutcome {
    /// Let in: set the session cookie and go to the dashboard.
    Granted,
    /// Refused: show the form again with these fields.
    Rejected(LoginForm),
}

impl LoginForm {
    /// An empty login form without an error.
    pub fn new() -> (r: LoginForm)
        ensures
            r.username@ == Seq::<char>::empty(),
            r.password@ == Seq::<char>::empty(),
            r.error_message is None,
    {
        LoginForm { username: String::new(), password: String::new(), error_message: None }
    }
}

/// Decides a login: the admin username is let in whatever the password; any
/// other is refused, and the form comes back with the username kept, the
/// password cleared and an error message.
pub fn check_login(username: &str) -> (r: LoginOutcome)
    ensures
        match r {
            LoginOutcome::Granted => username@ == ADMIN_USERNAME@,
            LoginOutcome::Rejected(f) => {
                &&& username@ != ADMIN_USERNAME@
                &&& f.username@ == username@
                &&& f.password@ == Seq::<char>::empty()
                &&& f.error_message is Some
                &&& f.error_message->0@ == INVALID_CREDENTIALS@
            },
        },
{
    let given = username.to_owned();
    let admin = ADMIN_USERNAME.to_owned();
    if given == admin {
        LoginOutcome::Granted
    } else {
        LoginOutcome::Rejected(
            LoginForm {
                username: given,
                password: String::new(),
                error_message: Some(INVALID_CREDENTIALS.to_owned()),
            },
        )
    }
}

} // verus!
