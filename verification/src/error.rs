//! The ways in which a registration can fail.

use vstd::prelude::*;

use crate::register::CONNECT_TIMEOUT_NANOS;
use crate::text::{optional_text, three_digits};

verus! {

/// The requests that a logged-in session makes to an appliance, and the login
/// itself.
#[derive(Debug, Clone, Copy, PartialEq, Eq)]
pub enum ApplianceRequest {
    Login,
    SystemInfo,
    Status,
    Configure,
}

/// Why a registration failed.
#[derive(Debug, PartialEq)]
pub enum RegisterError {
    /// The HTTP client could not be made.
    Client { cause: String },
    /// The appliance could not be reached. The hint is `--insecure`.
    Connect { url: String, cause: String, hint: bool },
    /// What answered is not an appliance; why its answer could not be read, where
    /// that is how it shows.
    NotAppliance { url: String, unread: Option<String> },
    /// The group could not be resolved.
    Group { cause: String },
    /// The regions could not be looked up.
    RegionLookup { cause: String },
    /// There is no such region.
    RegionNotFound { name: String },
    /// No password is known, and there is nobody to ask.
    PasswordRequired,
    /// An answer could not be read from the terminal.
    Prompt { cause: String },
    /// The appliance refused the user.
    InvalidCredentials { url: String },
    /// A request to the appliance failed or was refused.
    Appliance { request: ApplianceRequest, cause: String },
    /// The system information could not be read.
    UnreadableSystemInfo { cause: String },
    /// The registration status could not be read.
    UnreadableStatus { cause: String },
    /// The appliance is registered already; with which Nimbra Edge, where it says.
    AlreadyRegistered { with: Option<String> },
    /// The token was not created.
    Token { cause: String },
    /// The appliance did not connect in time; what it last reported.
    NotConnected { edge_url: String, status: String, error: Option<String> },
}

/// Why a registration failed, over texts.
pub enum RegisterErrorView {
    Client { cause: Seq<char> },
    Connect { url: Seq<char>, cause: Seq<char>, hint: bool },
    NotAppliance { url: Seq<char>, unread: Option<Seq<char>> },
    Group { cause: Seq<char> },
    RegionLookup { cause: Seq<char> },
    RegionNotFound { name: Seq<char> },
    PasswordRequired,
    Prompt { cause: Seq<char> },
    InvalidCredentials { url: Seq<char> },
    Appliance { request: ApplianceRequest, cause: Seq<char> },
    UnreadableSystemInfo { cause: Seq<char> },
    UnreadableStatus { cause: Seq<char> },
    AlreadyRegistered { with: Option<Seq<char>> },
    Token { cause: Seq<char> },
    NotConnected { edge_url: Seq<char>, status: Seq<char>, error: Option<Seq<char>> },
}

impl View for RegisterError {
    type V = RegisterErrorView;

    open spec fn view(&self) -> RegisterErrorView {
        match *self {
            RegisterError::Client { cause } => RegisterErrorView::Client { cause: cause@ },
            RegisterError::Connect { url, cause, hint } => RegisterErrorView::Connect {
                url: url@,
                cause: cause@,
                hint,
            },
            RegisterError::NotAppliance { url, unread } => RegisterErrorView::NotAppliance {
                url: url@,
                unread: optional_text(unread),
            },
            RegisterError::Group { cause } => RegisterErrorView::Group { cause: cause@ },
            RegisterError::RegionLookup { cause } => RegisterErrorView::RegionLookup {
                cause: cause@,
            },
            RegisterError::RegionNotFound { name } => RegisterErrorView::RegionNotFound {
                name: name@,
            },
            RegisterError::PasswordRequired => RegisterErrorView::PasswordRequired,
            RegisterError::Prompt { cause } => RegisterErrorView::Prompt { cause: cause@ },
            RegisterError::InvalidCredentials { url } => RegisterErrorView::InvalidCredentials {
                url: url@,
            },
            RegisterError::Appliance { request, cause } => RegisterErrorView::Appliance {
                request,
                cause: cause@,
            },
            RegisterError::UnreadableSystemInfo { cause } => {
                RegisterErrorView::UnreadableSystemInfo { cause: cause@ }
            },
            RegisterError::UnreadableStatus { cause } => RegisterErrorView::UnreadableStatus {
                cause: cause@,
            },
            RegisterError::AlreadyRegistered { with } => {
                RegisterErrorView::AlreadyRegistered { with: optional_text(with) }
            },
            RegisterError::Token { cause } => RegisterErrorView::Token { cause: cause@ },
            RegisterError::NotConnected { edge_url, status, error } => {
                RegisterErrorView::NotConnected {
                    edge_url: edge_url@,
                    status: status@,
                    error: optional_text(error),
                }
            },
        }
    }
}

/// An outcome, over texts.
pub open spec fn outcome<T: View>(r: Result<T, RegisterError>) -> Result<T::V, RegisterErrorView> {
    match r {
        Ok(value) => Ok(value@),
        Err(error) => Err(error@),
    }
}

impl ApplianceRequest {
    /// What is said of the request where it did not succeed.
    pub open spec fn complaint_text(self) -> Seq<char> {
        match self {
            ApplianceRequest::Login => "Failed to log in to the appliance"@,
            ApplianceRequest::SystemInfo => "Failed to fetch appliance system info"@,
            ApplianceRequest::Status => "Failed to fetch appliance registration status"@,
            ApplianceRequest::Configure => "Failed to configure the appliance"@,
        }
    }

    /// What is said of the request where it did not succeed.
    pub fn complaint(self) -> (text: &'static str)
        ensures
            text@ == self.complaint_text(),
    {
        match self {
            ApplianceRequest::Login => "Failed to log in to the appliance",
            ApplianceRequest::SystemInfo => "Failed to fetch appliance system info",
            ApplianceRequest::Status => "Failed to fetch appliance registration status",
            ApplianceRequest::Configure => "Failed to configure the appliance",
        }
    }
}

/// `s` behind `lead`, or nothing where there is no `s`.
pub open spec fn led_by(lead: Seq<char>, s: Option<Seq<char>>) -> Seq<char> {
    match s {
        Some(s) => lead + s,
        None => Seq::empty(),
    }
}

/// The time that an appliance is given to connect, as the user is told it.
pub open spec fn deadline_text() -> Seq<char> {
    " within "@ + three_digits(CONNECT_TIMEOUT_NANOS as int / 1_000_000_000) + "s"@
}

impl RegisterErrorView {
    /// What the user is told.
    pub open spec fn text(self) -> Seq<char> {
        match self {
            RegisterErrorView::Client { cause } => "Failed to create HTTP client: "@ + cause,
            RegisterErrorView::Connect { url, cause, hint } => "Failed to connect to "@ + url
                + ": "@ + cause + (if hint {
                "\nPass --insecure if the appliance uses a self-signed certificate"@
            } else {
                Seq::empty()
            }),
            RegisterErrorView::NotAppliance { url, unread } => url
                + " does not look like an edge-os appliance"@ + led_by(": "@, unread),
            RegisterErrorView::Group { cause } => cause,
            RegisterErrorView::RegionLookup { cause } => "Failed to look up region: "@ + cause,
            RegisterErrorView::RegionNotFound { name } => "Region '"@ + name + "' not found"@,
            RegisterErrorView::PasswordRequired =>
                "EDGE_APPLIANCE_PASSWORD is required when not running interactively"@,
            RegisterErrorView::Prompt { cause } => cause,
            RegisterErrorView::InvalidCredentials { url } =>
                "Invalid username or password for "@ + url,
            RegisterErrorView::Appliance { request, cause } => request.complaint_text() + ": "@
                + cause,
            RegisterErrorView::UnreadableSystemInfo { cause } =>
                "Failed to parse appliance system info: "@ + cause,
            RegisterErrorView::UnreadableStatus { cause } =>
                "Failed to parse appliance registration status: "@ + cause,
            RegisterErrorView::AlreadyRegistered { with } =>
                "Appliance is already registered"@ + led_by(" with "@, with)
                + ", pass --force to register it anyway"@,
            RegisterErrorView::Token { cause } => "Failed to create an appliance token: "@ + cause,
            RegisterErrorView::NotConnected { edge_url, status, error } =>
                "The appliance did not connect to "@ + edge_url + deadline_text() + " (status: "@
                + status + led_by(", "@, error) + ")"@,
        }
    }
}

/// `s` behind `lead`, or nothing where there is no `s`.
fn lead_in(lead: &str, s: &Option<String>) -> (r: String)
    ensures
        r@ == led_by(lead@, optional_text(*s)),
{
    match s {
        Some(s) => lead.to_owned().concat(s.as_str()),
        None => String::new(),
    }
}

/// The time that an appliance is given to connect is two minutes, and the user is
/// told so.
pub proof fn law_deadline_is_told()
    ensures
        CONNECT_TIMEOUT_NANOS == 120 * 1_000_000_000,
        deadline_text() == " within 120s"@,
{
    reveal_strlit(" within 120s");
    reveal_strlit(" within ");
    reveal_strlit("s");
    assert(deadline_text() =~= " within 120s"@);
}

/// The time that an appliance is given to connect, as the user is told it.
fn deadline() -> (text: &'static str)
    ensures
        text@ == deadline_text(),
{
    proof {
        law_deadline_is_told();
    }
    " within 120s"
}

/// Two texts, one behind the other.
pub(crate) fn joined(a: &str, b: &str) -> (r: String)
    ensures
        r@ == a@ + b@,
{
    a.to_owned().concat(b)
}

impl RegisterError {
    /// What the user is told.
    pub fn message(&self) -> (text: String)
        ensures
            text@ == self@.text(),
    {
        match self {
            RegisterError::Client { cause } => joined(
                "Failed to create HTTP client: ",
                cause.as_str(),
            ),
            RegisterError::Connect { url, cause, hint } => {
                let text = joined("Failed to connect to ", url.as_str()).concat(": ").concat(
                    cause.as_str(),
                );
                let text = text.concat(
                    if *hint {
                        "\nPass --insecure if the appliance uses a self-signed certificate"
                    } else {
                        ""
                    },
                );
                proof {
                    reveal_strlit("");
                    assert(""@ =~= Seq::<char>::empty());
                }
                text
            },
            RegisterError::NotAppliance { url, unread } => joined(
                url.as_str(),
                " does not look like an edge-os appliance",
            ).concat(lead_in(": ", unread).as_str()),
            RegisterError::Group { cause } => cause.clone(),
            RegisterError::RegionLookup { cause } => joined(
                "Failed to look up region: ",
                cause.as_str(),
            ),
            RegisterError::RegionNotFound { name } => joined("Region '", name.as_str()).concat(
                "' not found",
            ),
            RegisterError::PasswordRequired => {
                "EDGE_APPLIANCE_PASSWORD is required when not running interactively".to_owned()
            },
            RegisterError::Prompt { cause } => cause.clone(),
            RegisterError::InvalidCredentials { url } => joined(
                "Invalid username or password for ",
                url.as_str(),
            ),
            RegisterError::Appliance { request, cause } => joined(
                request.complaint(),
                ": ",
            ).concat(cause.as_str()),
            RegisterError::UnreadableSystemInfo { cause } => joined(
                "Failed to parse appliance system info: ",
                cause.as_str(),
            ),
            RegisterError::UnreadableStatus { cause } => joined(
                "Failed to parse appliance registration status: ",
                cause.as_str(),
            ),
            RegisterError::AlreadyRegistered { with } => joined(
                "Appliance is already registered",
                lead_in(" with ", with).as_str(),
            ).concat(", pass --force to register it anyway"),
            RegisterError::Token { cause } => joined(
                "Failed to create an appliance token: ",
                cause.as_str(),
            ),
            RegisterError::NotConnected { edge_url, status, error } => joined(
                "The appliance did not connect to ",
                edge_url.as_str(),
            ).concat(deadline()).concat(" (status: ").concat(status.as_str()).concat(
                lead_in(", ", error).as_str(),
            ).concat(")"),
        }
    }
}

/// Every error is told with all that is known of it: the cause in full and at the
/// end where there is one, and the URL, the region or the status that it is about.
pub proof fn law_error_is_told_in_full(error: RegisterError)
    ensures
        match error {
            RegisterError::Client { cause } => error@.text() == "Failed to create HTTP client: "@
                + cause@,
            RegisterError::Connect { url, cause, hint } => {
                let told = "Failed to connect to "@ + url@ + ": "@ + cause@;
                &&& !hint ==> error@.text() == told
                &&& hint ==> error@.text() == told
                    + "\nPass --insecure if the appliance uses a self-signed certificate"@
            },
            RegisterError::NotAppliance { url, unread: None } => error@.text() == url@
                + " does not look like an edge-os appliance"@,
            RegisterError::NotAppliance { url, unread: Some(cause) } => error@.text() == url@
                + " does not look like an edge-os appliance: "@ + cause@,
            RegisterError::Group { cause } => error@.text() == cause@,
            RegisterError::RegionLookup { cause } => error@.text() == "Failed to look up region: "@
                + cause@,
            RegisterError::RegionNotFound { name } => error@.text() == "Region '"@ + name@
                + "' not found"@,
            RegisterError::PasswordRequired => error@.text()
                == "EDGE_APPLIANCE_PASSWORD is required when not running interactively"@,
            RegisterError::Prompt { cause } => error@.text() == cause@,
            RegisterError::InvalidCredentials { url } => error@.text()
                == "Invalid username or password for "@ + url@,
            RegisterError::Appliance { request: ApplianceRequest::Login, cause } => error@.text()
                == "Failed to log in to the appliance: "@ + cause@,
            RegisterError::Appliance { request: ApplianceRequest::SystemInfo, cause } =>
                error@.text() == "Failed to fetch appliance system info: "@ + cause@,
            RegisterError::Appliance { request: ApplianceRequest::Status, cause } => error@.text()
                == "Failed to fetch appliance registration status: "@ + cause@,
            RegisterError::Appliance { request: ApplianceRequest::Configure, cause } =>
                error@.text() == "Failed to configure the appliance: "@ + cause@,
            RegisterError::UnreadableSystemInfo { cause } => error@.text()
                == "Failed to parse appliance system info: "@ + cause@,
            RegisterError::UnreadableStatus { cause } => error@.text()
                == "Failed to parse appliance registration status: "@ + cause@,
            RegisterError::AlreadyRegistered { with: None } => error@.text()
                == "Appliance is already registered, pass --force to register it anyway"@,
            RegisterError::AlreadyRegistered { with: Some(url) } => error@.text()
                == "Appliance is already registered with "@ + url@
                + ", pass --force to register it anyway"@,
            RegisterError::Token { cause } => error@.text()
                == "Failed to create an appliance token: "@ + cause@,
            RegisterError::NotConnected { edge_url, status, error: None } => error@.text()
                == "The appliance did not connect to "@ + edge_url@ + " within 120s (status: "@
                + status@ + ")"@,
            RegisterError::NotConnected { edge_url, status, error: Some(reason) } => error@.text()
                == "The appliance did not connect to "@ + edge_url@ + " within 120s (status: "@
                + status@ + ", "@ + reason@ + ")"@,
        },
{
    match error {
        RegisterError::NotAppliance { url, unread: None } => {
            assert(error@.text() =~= url@ + " does not look like an edge-os appliance"@);
        },
        RegisterError::NotAppliance { url, unread: Some(cause) } => {
            reveal_strlit(" does not look like an edge-os appliance: ");
            reveal_strlit(" does not look like an edge-os appliance");
            reveal_strlit(": ");
            assert(" does not look like an edge-os appliance: "@
                =~= " does not look like an edge-os appliance"@ + ": "@);
            assert(error@.text() =~= url@ + " does not look like an edge-os appliance: "@ + cause@);
        },
        RegisterError::Connect { url, cause, hint } => {
            assert(!hint ==> error@.text() =~= "Failed to connect to "@ + url@ + ": "@ + cause@);
        },
        RegisterError::Appliance { request, cause } => {
            reveal_strlit("Failed to log in to the appliance: ");
            reveal_strlit("Failed to log in to the appliance");
            reveal_strlit("Failed to fetch appliance system info: ");
            reveal_strlit("Failed to fetch appliance system info");
            reveal_strlit("Failed to fetch appliance registration status: ");
            reveal_strlit("Failed to fetch appliance registration status");
            reveal_strlit("Failed to configure the appliance: ");
            reveal_strlit("Failed to configure the appliance");
            reveal_strlit(": ");
            let complaint = match request {
                ApplianceRequest::Login => "Failed to log in to the appliance: "@,
                ApplianceRequest::SystemInfo => "Failed to fetch appliance system info: "@,
                ApplianceRequest::Status => "Failed to fetch appliance registration status: "@,
                ApplianceRequest::Configure => "Failed to configure the appliance: "@,
            };
            assert(request.complaint_text() + ": "@ =~= complaint);
        },
        RegisterError::AlreadyRegistered { with } => {
            reveal_strlit("Appliance is already registered, pass --force to register it anyway");
            reveal_strlit("Appliance is already registered with ");
            reveal_strlit("Appliance is already registered");
            reveal_strlit(" with ");
            reveal_strlit(", pass --force to register it anyway");
            match with {
                None => {
                    assert(error@.text()
                        =~= "Appliance is already registered, pass --force to register it anyway"@);
                },
                Some(url) => {
                    assert(error@.text() =~= "Appliance is already registered with "@ + url@
                        + ", pass --force to register it anyway"@);
                },
            }
        },
        RegisterError::NotConnected { edge_url, status, error: reason } => {
            law_deadline_is_told();
            reveal_strlit(" within 120s (status: ");
            reveal_strlit(" within 120s");
            reveal_strlit(" (status: ");
            let lead = "The appliance did not connect to "@ + edge_url@ + " within 120s (status: "@
                + status@;
            match reason {
                None => {
                    assert(error@.text() =~= lead + ")"@);
                },
                Some(reason) => {
                    assert(error@.text() =~= lead + ", "@ + reason@ + ")"@);
                },
            }
        },
        _ => {},
    }
}

} // verus!
