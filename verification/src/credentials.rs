//! Who logs in to the appliance: what is given is taken, what is missing is
//! asked for where there is somebody to ask.

use vstd::prelude::*;

use crate::error::{RegisterError, RegisterErrorView};
use crate::text::{optional_text, trim, trimmed};

verus! {

/// How far the credentials are known.
#[derive(Debug, PartialEq)]
pub enum Credentials {
    /// Both are known.
    Complete { username: String, password: String },
    /// The username is to be asked for; the password, as far as it is known.
    AskUsername { known: Option<String> },
    /// The password is to be asked for, without showing it.
    AskPassword { username: String },
    /// The password is to be asked for as any other line, as it cannot be read
    /// without showing it.
    AskPasswordLine { username: String },
}

/// How far the credentials are known, over texts.
pub enum CredentialsView {
    Complete { username: Seq<char>, password: Seq<char> },
    AskUsername { known: Option<Seq<char>> },
    AskPassword { username: Seq<char> },
    AskPasswordLine { username: Seq<char> },
}

impl View for Credentials {
    type V = CredentialsView;

    open spec fn view(&self) -> CredentialsView {
        match *self {
            Credentials::Complete { username, password } => CredentialsView::Complete {
                username: username@,
                password: password@,
            },
            Credentials::AskUsername { known } => CredentialsView::AskUsername {
                known: optional_text(known),
            },
            Credentials::AskPassword { username } => CredentialsView::AskPassword {
                username: username@,
            },
            Credentials::AskPasswordLine { username } => CredentialsView::AskPasswordLine {
                username: username@,
            },
        }
    }
}

impl CredentialsView {
    /// A username that was given at the terminal or before, and a password; an
    /// empty username stands for `admin`.
    pub open spec fn complete(username: Seq<char>, password: Seq<char>) -> CredentialsView {
        CredentialsView::Complete {
            username: if username.len() == 0 {
                "admin"@
            } else {
                username
            },
            password,
        }
    }

    /// The username is known; the password is, or is to be asked for.
    pub open spec fn with_username(
        username: Seq<char>,
        password: Option<Seq<char>>,
    ) -> CredentialsView {
        match password {
            Some(password) => CredentialsView::complete(username, password),
            None => CredentialsView::AskPassword { username },
        }
    }

    /// What is known before anybody is asked. Without a terminal the password
    /// has to be known, and a username that is not given is `admin`.
    pub open spec fn given(
        option: Option<Seq<char>>,
        user_variable: Option<Seq<char>>,
        password_variable: Option<Seq<char>>,
        interactive: bool,
    ) -> Result<CredentialsView, RegisterErrorView> {
        let username = if option is Some {
            option
        } else {
            user_variable
        };
        if interactive {
            match username {
                Some(username) => Ok(CredentialsView::with_username(username, password_variable)),
                None => Ok(CredentialsView::AskUsername { known: password_variable }),
            }
        } else {
            match password_variable {
                Some(password) => Ok(
                    CredentialsView::Complete {
                        username: match username {
                            Some(username) => username,
                            None => "admin"@,
                        },
                        password,
                    },
                ),
                None => Err(RegisterErrorView::PasswordRequired),
            }
        }
    }

    /// Whether a line is asked for.
    pub open spec fn asks_line(self) -> bool {
        self is AskUsername || self is AskPasswordLine
    }

    /// What is known once a line has been read.
    pub open spec fn after_line(self, line: Seq<char>) -> CredentialsView {
        match self {
            CredentialsView::AskUsername { known } => CredentialsView::with_username(
                trimmed(line),
                known,
            ),
            CredentialsView::AskPasswordLine { username } => CredentialsView::complete(
                username,
                trimmed(line),
            ),
            _ => self,
        }
    }

    /// What is known once a password has been read, or could not be read
    /// without showing it.
    pub open spec fn after_password(self, password: Option<Seq<char>>) -> CredentialsView {
        match self {
            CredentialsView::AskPassword { username } => match password {
                Some(password) => CredentialsView::complete(username, password),
                None => CredentialsView::AskPasswordLine { username },
            },
            _ => self,
        }
    }
}

fn complete(username: String, password: String) -> (r: Credentials)
    ensures
        r@ == CredentialsView::complete(username@, password@),
{
    let username = if username.as_str().is_empty() {
        "admin".to_owned()
    } else {
        username
    };
    Credentials::Complete { username, password }
}

fn with_username(username: String, password: Option<String>) -> (r: Credentials)
    ensures
        r@ == CredentialsView::with_username(username@, optional_text(password)),
{
    match password {
        Some(password) => complete(username, password),
        None => Credentials::AskPassword { username },
    }
}

/// The credentials as far as the option `--username`, the environment and the
/// presence of a terminal decide them.
pub fn credentials(
    option: Option<String>,
    user_variable: Option<String>,
    password_variable: Option<String>,
    interactive: bool,
) -> (r: Result<Credentials, RegisterError>)
    ensures
        crate::error::outcome(r) == CredentialsView::given(
            optional_text(option),
            optional_text(user_variable),
            optional_text(password_variable),
            interactive,
        ),
{
    let username = match option {
        Some(username) => Some(username),
        None => user_variable,
    };
    if !interactive {
        let username = match username {
            Some(username) => username,
            None => "admin".to_owned(),
        };
        return match password_variable {
            Some(password) => Ok(Credentials::Complete { username, password }),
            None => Err(RegisterError::PasswordRequired),
        };
    }
    match username {
        Some(username) => Ok(with_username(username, password_variable)),
        None => Ok(Credentials::AskUsername { known: password_variable }),
    }
}

impl Credentials {
    /// Takes in a line that was asked for.
    pub fn after_line(self, line: &str) -> (r: Credentials)
        ensures
            r@ == self@.after_line(line@),
    {
        match self {
            Credentials::AskUsername { known } => with_username(trim(line), known),
            Credentials::AskPasswordLine { username } => complete(username, trim(line)),
            other => other,
        }
    }

    /// Takes in a password that was asked for.
    pub fn after_password(self, password: Option<String>) -> (r: Credentials)
        ensures
            r@ == self@.after_password(optional_text(password)),
    {
        match self {
            Credentials::AskPassword { username } => match password {
                Some(password) => complete(username, password),
                None => Credentials::AskPasswordLine { username },
            },
            other => other,
        }
    }
}

/// Without a terminal nothing is asked for: the credentials are complete, or
/// their lack is an error.
pub proof fn law_nothing_asked_without_terminal(
    option: Option<Seq<char>>,
    user_variable: Option<Seq<char>>,
    password_variable: Option<Seq<char>>,
)
    ensures
        CredentialsView::given(option, user_variable, password_variable, false)
            matches Ok(credentials) ==> credentials is Complete,
        CredentialsView::given(option, user_variable, password_variable, false) is Ok
            <==> password_variable is Some,
{
}

/// At a terminal, credentials come to be complete after at most one line, one
/// password and one line in place of the password, whatever is answered.
pub proof fn law_three_answers_complete(
    option: Option<Seq<char>>,
    user_variable: Option<Seq<char>>,
    password_variable: Option<Seq<char>>,
    first: Seq<char>,
    password: Option<Seq<char>>,
    second: Seq<char>,
)
    ensures
        CredentialsView::given(option, user_variable, password_variable, true)
            matches Ok(credentials) && {
            let named = if credentials is AskUsername {
                credentials.after_line(first)
            } else {
                credentials
            };
            named.after_password(password).after_line(second) is Complete
        },
{
}

/// At a terminal an empty username stands for `admin`: the username of complete
/// credentials is never empty.
pub proof fn law_username_at_terminal_is_not_empty(
    option: Option<Seq<char>>,
    user_variable: Option<Seq<char>>,
    password_variable: Option<Seq<char>>,
    before: CredentialsView,
    line: Seq<char>,
    password: Option<Seq<char>>,
)
    requires
        !(before is Complete),
    ensures
        CredentialsView::given(option, user_variable, password_variable, true)
            matches Ok(CredentialsView::Complete { username, .. }) ==> username.len() > 0,
        before.after_line(line) matches CredentialsView::Complete { username, .. }
            ==> username.len() > 0,
        before.after_password(password) matches CredentialsView::Complete { username, .. }
            ==> username.len() > 0,
{
    reveal_strlit("admin");
}

/// What somebody at the terminal answers to each of the questions that may come
/// up, from the first one on until the credentials are complete.
pub open spec fn answered(
    asked: CredentialsView,
    name: Seq<char>,
    password: Option<Seq<char>>,
    line: Seq<char>,
) -> CredentialsView {
    let named = if asked is AskUsername {
        asked.after_line(name)
    } else {
        asked
    };
    let tried = if named is AskPassword {
        named.after_password(password)
    } else {
        named
    };
    if tried is AskPasswordLine {
        tried.after_line(line)
    } else {
        tried
    }
}

/// A username that is given is the one that logs in, that of the option before
/// that of the environment, however the password comes to be known. `admin`
/// stands in where none is given, and at a terminal for an empty one. The
/// password is that of the environment, or else the one that is answered.
pub proof fn law_what_is_given_is_used(
    option: Option<Seq<char>>,
    user_variable: Option<Seq<char>>,
    password_variable: Option<Seq<char>>,
    interactive: bool,
    name: Seq<char>,
    password: Option<Seq<char>>,
    line: Seq<char>,
)
    requires
        interactive || password_variable is Some,
    ensures
        CredentialsView::given(option, user_variable, password_variable, interactive)
            matches Ok(asked) && answered(asked, name, password, line)
            matches CredentialsView::Complete { username: used, password: secret } && {
            let chosen = if option is Some {
                option
            } else {
                user_variable
            };
            &&& chosen is Some && chosen->0.len() > 0 ==> used == chosen->0
            &&& chosen is Some && chosen->0.len() == 0 && interactive ==> used == "admin"@
            &&& chosen is Some && !interactive ==> used == chosen->0
            &&& chosen is None && !interactive ==> used == "admin"@
            &&& chosen is None && interactive && trimmed(name).len() > 0 ==> used == trimmed(name)
            &&& chosen is None && interactive && trimmed(name).len() == 0 ==> used == "admin"@
            &&& password_variable is Some ==> secret == password_variable->0
            &&& password_variable is None && password is Some ==> secret == password->0
            &&& password_variable is None && password is None ==> secret == trimmed(line)
        },
{
}

/// Nothing is asked for that is known: the username only where none is given, the
/// password only where the environment has none, and as a plain line only where
/// it could not be read otherwise.
pub proof fn law_only_what_is_missing_is_asked_for(
    option: Option<Seq<char>>,
    user_variable: Option<Seq<char>>,
    password_variable: Option<Seq<char>>,
    name: Seq<char>,
    password: Option<Seq<char>>,
)
    ensures
        CredentialsView::given(option, user_variable, password_variable, true)
            matches Ok(asked) && {
            let unnamed = option is None && user_variable is None;
            let named = if unnamed {
                asked.after_line(name)
            } else {
                asked
            };
            &&& asked is AskUsername <==> unnamed
            &&& named is Complete <==> password_variable is Some
            &&& named is AskPassword <==> password_variable is None
            &&& password_variable is None ==> (named.after_password(password) is AskPasswordLine
                <==> password is None)
        },
{
}

/// Credentials are what is known, field by field.
pub proof fn law_credentials_hold_every_field(credentials: Credentials)
    ensures
        match credentials {
            Credentials::Complete { username, password } => credentials@
                == (CredentialsView::Complete { username: username@, password: password@ }),
            Credentials::AskUsername { known } => credentials@ matches CredentialsView::AskUsername {
                known: text,
            } && (text is Some <==> known is Some) && (known is Some ==> text == Some(known->0@)),
            Credentials::AskPassword { username } => credentials@
                == (CredentialsView::AskPassword { username: username@ }),
            Credentials::AskPasswordLine { username } => credentials@
                == (CredentialsView::AskPasswordLine { username: username@ }),
        },
{
}

} // verus!
