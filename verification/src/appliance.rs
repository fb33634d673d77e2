//! The appliance's HTTP interface: where its requests go, and what its replies
//! mean.

use vstd::prelude::*;

use crate::error::{joined, outcome, ApplianceRequest, RegisterError, RegisterErrorView};
use crate::failure::{error_chain, Failure};
use crate::text::{contains, occurs, optional_text, same, three_digits};

verus! {

/// What came of a request whose answer holds a `T`.
#[derive(Debug)]
pub enum Reply<T> {
    /// There was no response.
    Failed(Failure),
    /// There was a response: its status code, its body read as a `T`, and the
    /// message in its body where that could be read as an error.
    Response { status: u16, body: Result<T, Failure>, message: Option<String> },
}

impl<T> Reply<T> {
    /// Whether the status code, if there is one, is one that HTTP allows.
    pub open spec fn well_formed(self) -> bool {
        self matches Reply::Response { status, .. } ==> 100 <= status < 1000
    }

    /// Whether the status code, if there is one, is one that HTTP allows.
    pub fn is_well_formed(&self) -> (r: bool)
        ensures
            r == self.well_formed(),
    {
        match self {
            Reply::Failed(_) => true,
            Reply::Response { status, .. } => 100 <= *status && *status < 1000,
        }
    }
}

/// What an appliance says of its version.
#[derive(Debug)]
pub struct ApplianceVersion {
    pub os_version: String,
}

/// What an appliance says of itself.
#[derive(Debug)]
pub struct SystemInfo {
    pub hostname: String,
}

/// How an appliance stands with Nimbra Edge.
#[derive(Debug, PartialEq)]
pub enum ConnectStatus {
    NotConfigured,
    Connected,
    Connecting,
    Disconnected,
    Error,
    Unknown(String),
}

/// How an appliance stands with Nimbra Edge, over texts.
pub enum ConnectStatusView {
    NotConfigured,
    Connected,
    Connecting,
    Disconnected,
    Error,
    Unknown(Seq<char>),
}

impl View for ConnectStatus {
    type V = ConnectStatusView;

    open spec fn view(&self) -> ConnectStatusView {
        match *self {
            ConnectStatus::NotConfigured => ConnectStatusView::NotConfigured,
            ConnectStatus::Connected => ConnectStatusView::Connected,
            ConnectStatus::Connecting => ConnectStatusView::Connecting,
            ConnectStatus::Disconnected => ConnectStatusView::Disconnected,
            ConnectStatus::Error => ConnectStatusView::Error,
            ConnectStatus::Unknown(status) => ConnectStatusView::Unknown(status@),
        }
    }
}

impl ConnectStatusView {
    /// The status that a name stands for in the appliance's answers.
    pub open spec fn named(name: Seq<char>) -> ConnectStatusView {
        if name == "notConfigured"@ {
            ConnectStatusView::NotConfigured
        } else if name == "connected"@ {
            ConnectStatusView::Connected
        } else if name == "connecting"@ {
            ConnectStatusView::Connecting
        } else if name == "disconnected"@ {
            ConnectStatusView::Disconnected
        } else if name == "error"@ {
            ConnectStatusView::Error
        } else {
            ConnectStatusView::Unknown(name)
        }
    }

    /// What the user is told of a status.
    pub open spec fn text(self) -> Seq<char> {
        match self {
            ConnectStatusView::NotConfigured => "not configured"@,
            ConnectStatusView::Connected => "connected"@,
            ConnectStatusView::Connecting => "connecting"@,
            ConnectStatusView::Disconnected => "disconnected"@,
            ConnectStatusView::Error => "error"@,
            ConnectStatusView::Unknown(status) => status,
        }
    }
}

impl ConnectStatus {
    /// The status that a name stands for in the appliance's answers.
    pub fn from_name(name: String) -> (r: ConnectStatus)
        ensures
            r@ == ConnectStatusView::named(name@),
    {
        if same(name.as_str(), "notConfigured") {
            ConnectStatus::NotConfigured
        } else if same(name.as_str(), "connected") {
            ConnectStatus::Connected
        } else if same(name.as_str(), "connecting") {
            ConnectStatus::Connecting
        } else if same(name.as_str(), "disconnected") {
            ConnectStatus::Disconnected
        } else if same(name.as_str(), "error") {
            ConnectStatus::Error
        } else {
            ConnectStatus::Unknown(name)
        }
    }

    /// What the user is told of a status.
    pub fn to_text(&self) -> (r: String)
        ensures
            r@ == self@.text(),
    {
        match self {
            ConnectStatus::NotConfigured => "not configured".to_owned(),
            ConnectStatus::Connected => "connected".to_owned(),
            ConnectStatus::Connecting => "connecting".to_owned(),
            ConnectStatus::Disconnected => "disconnected".to_owned(),
            ConnectStatus::Error => "error".to_owned(),
            ConnectStatus::Unknown(status) => status.clone(),
        }
    }
}

/// The registration of an appliance, as the appliance reports it.
#[derive(Debug, PartialEq)]
pub struct EdgeConnectStatus {
    pub status: ConnectStatus,
    pub edge_url: Option<String>,
    pub error: Option<String>,
}

/// The registration of an appliance, over texts.
pub struct EdgeConnectStatusView {
    pub status: ConnectStatusView,
    pub edge_url: Option<Seq<char>>,
    pub error: Option<Seq<char>>,
}

impl View for EdgeConnectStatus {
    type V = EdgeConnectStatusView;

    open spec fn view(&self) -> EdgeConnectStatusView {
        EdgeConnectStatusView {
            status: self.status@,
            edge_url: optional_text(self.edge_url),
            error: optional_text(self.error),
        }
    }
}

/// What an appliance is told in order to register it.
#[derive(Debug, PartialEq)]
pub struct ManagementConfig {
    pub edge_url: String,
    pub device_name: String,
    pub secret: String,
    pub edge_role: String,
    pub region: Option<String>,
    pub allow_self_signed_certs: bool,
}

/// What an appliance is told, over texts.
pub struct ManagementConfigView {
    pub edge_url: Seq<char>,
    pub device_name: Seq<char>,
    pub secret: Seq<char>,
    pub edge_role: Seq<char>,
    pub region: Option<Seq<char>>,
    pub allow_self_signed_certs: bool,
}

impl View for ManagementConfig {
    type V = ManagementConfigView;

    open spec fn view(&self) -> ManagementConfigView {
        ManagementConfigView {
            edge_url: self.edge_url@,
            device_name: self.device_name@,
            secret: self.secret@,
            edge_role: self.edge_role@,
            region: optional_text(self.region),
            allow_self_signed_certs: self.allow_self_signed_certs,
        }
    }
}

/// Whether a status code reports success.
pub open spec fn successful(status: u16) -> bool {
    200 <= status < 300
}

/// Whether a status code reports success.
pub fn is_success(status: u16) -> (r: bool)
    ensures
        r == successful(status),
{
    200 <= status && status < 300
}

/// The phrase that stands behind a status code, such as `Not Found` behind 404.
pub uninterp spec fn reason_phrase(status: u16) -> Seq<char>;

/// A status code with its phrase.
pub open spec fn status_line(status: u16) -> Seq<char> {
    three_digits(status as int) + " "@ + reason_phrase(status)
}

/// The `Display` of `reqwest::StatusCode` shows the code in decimal, a space and
/// a phrase that depends on the code alone. Which phrase goes with which code is
/// left to the name. `StatusCode::from_u16` accepts the codes from 100 to 999.
#[verifier::external_body]
fn status_text(status: u16) -> (text: String)
    requires
        100 <= status < 1000,
    ensures
        text@ == three_digits(status as int) + " "@ + reason_phrase(status),
{
    reqwest::StatusCode::from_u16(status).unwrap().to_string()
}

/// Whether what is told of a reply depends on the message in its body. It does
/// where a request is refused, except that a refused user is told nothing more.
pub open spec fn explained(request: ApplianceRequest, status: u16) -> bool {
    !successful(status) && !(request is Login && status == 401)
}

/// Whether what is told of a reply depends on the message in its body, which is
/// then to be read.
pub fn is_explained(request: ApplianceRequest, status: u16) -> (r: bool)
    ensures
        r == explained(request, status),
{
    match request {
        ApplianceRequest::Login => !is_success(status) && status != 401,
        _ => !is_success(status),
    }
}

/// What a refusal says: the message in its body, or else its status.
pub open spec fn refusal(status: u16, message: Option<String>) -> Seq<char> {
    match message {
        Some(message) => message@,
        None => status_line(status),
    }
}

/// The body of the answer to a request, or the error where the request failed
/// or was refused.
pub open spec fn accepted<T>(reply: Reply<T>, request: ApplianceRequest) -> Result<
    Result<T, Failure>,
    RegisterErrorView,
> {
    match reply {
        Reply::Failed(failure) => Err(
            RegisterErrorView::Appliance { request, cause: failure.text() },
        ),
        Reply::Response { status, body, message } => if successful(status) {
            Ok(body)
        } else {
            Err(RegisterErrorView::Appliance { request, cause: refusal(status, message) })
        },
    }
}

/// An appliance: its URL, and whether its certificate goes unverified.
#[derive(Debug, PartialEq)]
pub struct ApplianceClient {
    pub url: String,
    pub insecure: bool,
}

/// An appliance, over texts.
pub struct ApplianceClientView {
    pub url: Seq<char>,
    pub insecure: bool,
}

impl View for ApplianceClient {
    type V = ApplianceClientView;

    open spec fn view(&self) -> ApplianceClientView {
        ApplianceClientView { url: self.url@, insecure: self.insecure }
    }
}

impl ApplianceClientView {
    /// What the reply to the request for the version means.
    pub open spec fn version(self, reply: Reply<ApplianceVersion>) -> Result<
        Seq<char>,
        RegisterErrorView,
    > {
        match reply {
            Reply::Failed(failure) => Err(
                RegisterErrorView::Connect {
                    url: self.url,
                    cause: failure.text(),
                    hint: !self.insecure && occurs(failure.text(), "certificate"@),
                },
            ),
            Reply::Response { status, body, .. } => if !successful(status) {
                Err(RegisterErrorView::NotAppliance { url: self.url, unread: None })
            } else {
                match body {
                    Ok(version) => Ok(version.os_version@),
                    Err(failure) => Err(
                        RegisterErrorView::NotAppliance {
                            url: self.url,
                            unread: Some(failure.text()),
                        },
                    ),
                }
            },
        }
    }

    /// What the reply to a login means.
    pub open spec fn login(self, reply: Reply<()>) -> Result<(), RegisterErrorView> {
        if reply matches Reply::Response { status: 401, .. } {
            Err(RegisterErrorView::InvalidCredentials { url: self.url })
        } else {
            match accepted(reply, ApplianceRequest::Login) {
                Ok(_) => Ok(()),
                Err(error) => Err(error),
            }
        }
    }

    /// What the reply to the request for the hostname means.
    pub open spec fn hostname(self, reply: Reply<SystemInfo>) -> Result<
        Seq<char>,
        RegisterErrorView,
    > {
        match accepted(reply, ApplianceRequest::SystemInfo) {
            Ok(Ok(info)) => Ok(info.hostname@),
            Ok(Err(failure)) => Err(
                RegisterErrorView::UnreadableSystemInfo { cause: failure.text() },
            ),
            Err(error) => Err(error),
        }
    }

    /// What the reply to the request for the registration status means.
    pub open spec fn edge_connect_status(self, reply: Reply<EdgeConnectStatus>) -> Result<
        EdgeConnectStatusView,
        RegisterErrorView,
    > {
        match accepted(reply, ApplianceRequest::Status) {
            Ok(Ok(status)) => Ok(status@),
            Ok(Err(failure)) => Err(RegisterErrorView::UnreadableStatus { cause: failure.text() }),
            Err(error) => Err(error),
        }
    }

    /// What the reply to a configuration means.
    pub open spec fn set_management_config(self, reply: Reply<()>) -> Result<
        (),
        RegisterErrorView,
    > {
        match accepted(reply, ApplianceRequest::Configure) {
            Ok(_) => Ok(()),
            Err(error) => Err(error),
        }
    }
}

impl ApplianceClient {
    pub fn new(url: &str, insecure: bool) -> (r: ApplianceClient)
        ensures
            r@ == (ApplianceClientView { url: url@, insecure }),
    {
        ApplianceClient { url: url.to_owned(), insecure }
    }

    /// The URL of a part of the appliance's interface.
    pub fn endpoint(&self, path: &str) -> (r: String)
        ensures
            r@ == self.url@ + path@,
    {
        joined(self.url.as_str(), path)
    }

    /// The version that the appliance reports. Where it could not be reached for
    /// its certificate, the error hints at `--insecure`, unless that was given.
    pub fn version(&self, reply: Reply<ApplianceVersion>) -> (r: Result<String, RegisterError>)
        ensures
            outcome(r) == self@.version(reply),
    {
        match reply {
            Reply::Failed(failure) => {
                let cause = error_chain(&failure);
                let hint = !self.insecure && contains(cause.as_str(), "certificate");
                Err(RegisterError::Connect { url: self.url.clone(), cause, hint })
            },
            Reply::Response { status, body, .. } => if !is_success(status) {
                Err(RegisterError::NotAppliance { url: self.url.clone(), unread: None })
            } else {
                match body {
                    Ok(version) => Ok(version.os_version),
                    Err(failure) => Err(
                        RegisterError::NotAppliance {
                            url: self.url.clone(),
                            unread: Some(error_chain(&failure)),
                        },
                    ),
                }
            },
        }
    }

    /// The error for a status code that does not report success: what the
    /// appliance said, or else the status itself.
    pub fn error_if_not_success(
        &self,
        status: u16,
        message: Option<String>,
        request: ApplianceRequest,
    ) -> (r: Result<(), RegisterError>)
        requires
            100 <= status < 1000,
        ensures
            r is Ok <==> successful(status),
            r matches Err(error) ==> error@ == (RegisterErrorView::Appliance {
                request,
                cause: refusal(status, message),
            }),
    {
        if is_success(status) {
            return Ok(());
        }
        let cause = match message {
            Some(message) => message,
            None => status_text(status),
        };
        Err(RegisterError::Appliance { request, cause })
    }

    /// The body of the answer to a request, or the error where the request
    /// failed or was refused.
    fn answer<T>(&self, reply: Reply<T>, request: ApplianceRequest) -> (r: Result<
        Result<T, Failure>,
        RegisterError,
    >)
        requires
            reply.well_formed(),
        ensures
            match r {
                Ok(body) => accepted(reply, request) == Ok::<_, RegisterErrorView>(body),
                Err(error) => accepted(reply, request) == Err::<Result<T, Failure>, _>(error@),
            },
    {
        match reply {
            Reply::Failed(failure) => Err(
                RegisterError::Appliance { request, cause: error_chain(&failure) },
            ),
            Reply::Response { status, body, message } => match self.error_if_not_success(
                status,
                message,
                request,
            ) {
                Ok(()) => Ok(body),
                Err(error) => Err(error),
            },
        }
    }

    /// Whether the appliance accepted the user.
    pub fn login(&self, reply: Reply<()>) -> (r: Result<(), RegisterError>)
        requires
            reply.well_formed(),
        ensures
            outcome(r) == self@.login(reply),
    {
        if let Reply::Response { status, .. } = &reply {
            if *status == 401 {
                return Err(RegisterError::InvalidCredentials { url: self.url.clone() });
            }
        }
        match self.answer(reply, ApplianceRequest::Login) {
            Ok(_) => Ok(()),
            Err(error) => Err(error),
        }
    }

    /// The hostname of the appliance.
    pub fn hostname(&self, reply: Reply<SystemInfo>) -> (r: Result<String, RegisterError>)
        requires
            reply.well_formed(),
        ensures
            outcome(r) == self@.hostname(reply),
    {
        match self.answer(reply, ApplianceRequest::SystemInfo) {
            Ok(Ok(info)) => Ok(info.hostname),
            Ok(Err(failure)) => Err(
                RegisterError::UnreadableSystemInfo { cause: error_chain(&failure) },
            ),
            Err(error) => Err(error),
        }
    }

    /// The registration status of the appliance.
    pub fn edge_connect_status(&self, reply: Reply<EdgeConnectStatus>) -> (r: Result<
        EdgeConnectStatus,
        RegisterError,
    >)
        requires
            reply.well_formed(),
        ensures
            outcome(r) == self@.edge_connect_status(reply),
    {
        match self.answer(reply, ApplianceRequest::Status) {
            Ok(Ok(status)) => Ok(status),
            Ok(Err(failure)) => Err(
                RegisterError::UnreadableStatus { cause: error_chain(&failure) },
            ),
            Err(error) => Err(error),
        }
    }

    /// Whether the appliance accepted its configuration.
    pub fn set_management_config(&self, reply: Reply<()>) -> (r: Result<(), RegisterError>)
        requires
            reply.well_formed(),
        ensures
            outcome(r) == self@.set_management_config(reply),
    {
        match self.answer(reply, ApplianceRequest::Configure) {
            Ok(_) => Ok(()),
            Err(error) => Err(error),
        }
    }
}

/// A status that is not known is kept, and shown, as it was reported.
pub proof fn law_unknown_status_is_kept(name: Seq<char>)
    requires
        ConnectStatusView::named(name) is Unknown,
    ensures
        ConnectStatusView::named(name) == ConnectStatusView::Unknown(name),
        ConnectStatusView::named(name).text() == name,
{
}

/// A status is shown by the name under which it is reported, except for
/// `notConfigured`.
pub proof fn law_status_is_shown_by_name(name: Seq<char>)
    requires
        name != "notConfigured"@,
    ensures
        ConnectStatusView::named(name).text() == name,
{
}

/// Two names stand for the same status only if they are the same.
pub proof fn law_names_are_distinct(a: Seq<char>, b: Seq<char>)
    requires
        ConnectStatusView::named(a) == ConnectStatusView::named(b),
    ensures
        a == b,
{
}

/// A message that is not to be read changes nothing: neither that of a login that
/// is not explained, nor that of a reply to the request for the version.
pub proof fn law_unread_message_changes_nothing(
    client: ApplianceClientView,
    status: u16,
    login: Result<(), Failure>,
    version: Result<ApplianceVersion, Failure>,
    message: Option<String>,
)
    ensures
        !explained(ApplianceRequest::Login, status) ==> client.login(
            Reply::Response { status, body: login, message },
        ) == client.login(Reply::Response { status, body: login, message: None }),
        client.version(Reply::Response { status, body: version, message }) == client.version(
            Reply::Response { status, body: version, message: None },
        ),
{
}

} // verus!
