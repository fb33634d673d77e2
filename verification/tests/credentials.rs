use nimbra_edge::credentials::{credentials, Credentials};
use nimbra_edge::error::RegisterError;

fn text(s: &str) -> Option<String> {
    Some(s.to_string())
}

fn complete(username: &str, password: &str) -> Credentials {
    Credentials::Complete { username: username.to_string(), password: password.to_string() }
}

#[test]
fn without_terminal_the_password_is_required() {
    let error = credentials(text("root"), None, None, false).unwrap_err();
    assert_eq!(error, RegisterError::PasswordRequired);
    assert_eq!(
        error.message(),
        "EDGE_APPLIANCE_PASSWORD is required when not running interactively"
    );
}

#[test]
fn without_terminal_the_username_is_admin_unless_given() {
    assert_eq!(credentials(None, None, text("pw"), false), Ok(complete("admin", "pw")));
    assert_eq!(credentials(None, text("env"), text("pw"), false), Ok(complete("env", "pw")));
    assert_eq!(
        credentials(text("option"), text("env"), text("pw"), false),
        Ok(complete("option", "pw"))
    );
    assert_eq!(credentials(text(""), None, text("pw"), false), Ok(complete("", "pw")));
}

#[test]
fn at_terminal_nothing_known_is_asked_for() {
    assert_eq!(credentials(text("root"), None, text("pw"), true), Ok(complete("root", "pw")));
    assert_eq!(credentials(text(""), None, text("pw"), true), Ok(complete("admin", "pw")));
}

#[test]
fn at_terminal_the_username_is_asked_for() {
    let asked = credentials(None, None, text("pw"), true).unwrap();
    assert_eq!(asked, Credentials::AskUsername { known: text("pw") });
    assert_eq!(asked.after_line(" root\n"), complete("root", "pw"));
    let asked = credentials(None, None, text("pw"), true).unwrap();
    assert_eq!(asked.after_line("\n"), complete("admin", "pw"));
}

#[test]
fn at_terminal_the_password_is_asked_for() {
    let asked = credentials(text("root"), None, None, true).unwrap();
    assert_eq!(asked, Credentials::AskPassword { username: "root".to_string() });
    assert_eq!(asked.after_password(text(" secret ")), complete("root", " secret "));
}

#[test]
fn password_that_cannot_be_hidden_is_read_as_a_line() {
    let asked = credentials(None, None, None, true).unwrap().after_line("\n");
    assert_eq!(asked, Credentials::AskPassword { username: "".to_string() });
    let asked = asked.after_password(None);
    assert_eq!(asked, Credentials::AskPasswordLine { username: "".to_string() });
    assert_eq!(asked.after_line(" secret \r\n"), complete("admin", "secret"));
}

#[test]
fn answers_that_were_not_asked_for_change_nothing() {
    assert_eq!(complete("a", "b").after_line("c"), complete("a", "b"));
    assert_eq!(complete("a", "b").after_password(text("c")), complete("a", "b"));
}
