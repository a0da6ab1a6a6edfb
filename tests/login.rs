use admin_app::login::{check_login, LoginForm, LoginOutcome};

#[test]
fn empty_login_form() {
    let f = LoginForm::new();
    assert_eq!(f.username, "");
    assert_eq!(f.password, "");
    assert!(f.error_message.is_none());
}

#[test]
fn admin_is_let_in() {
    assert!(matches!(check_login("ram"), LoginOutcome::Granted));
}

#[test]
fn other_user_is_refused() {
    match check_login("sita") {
        LoginOutcome::Rejected(f) => {
            assert_eq!(f.username, "sita");
            assert_eq!(f.password, "");
            assert_eq!(f.error_message.as_deref(), Some("Invalid credentials"));
        }
        LoginOutcome::Granted => panic!("refused user let in"),
    }
    assert!(matches!(check_login("Ram"), LoginOutcome::Rejected(_)));
    assert!(matches!(check_login(""), LoginOutcome::Rejected(_)));
}
