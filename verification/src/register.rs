//! `register`: the registration of an appliance, one decision at a time.
//!
//! A `Registration` says what to do next as an `Action`; the program around it
//! does that and reports what came of it as an `Event`.

use vstd::pervasive::unreached;
use vstd::prelude::*;

use crate::appliance::{
    ApplianceClient, ApplianceClientView, ApplianceVersion, ConnectStatus, EdgeConnectStatus,
    EdgeConnectStatusView, ManagementConfig, ManagementConfigView, Reply, SystemInfo,
};
use crate::credentials::{credentials, Credentials, CredentialsView};
use crate::error::{joined, outcome, RegisterError, RegisterErrorView};
use crate::failure::{error_chain, Failure};
use crate::register_laws::wanted;
use crate::text::{optional_text, same, trim_end_matches, without_trailing};
use crate::url::{normalize_url, normalized_url};

verus! {

/// An appliance that has not connected after this many nanoseconds is given up.
pub const CONNECT_TIMEOUT_NANOS: u128 = 120_000_000_000;

/// The seconds from one look at an appliance to the next.
pub const POLL_INTERVAL_SECS: u64 = 2;

/// The seconds after which a request to an appliance is given up.
pub const REQUEST_TIMEOUT_SECS: u64 = 30;

/// A region, as Nimbra Edge knows it.
#[derive(Debug)]
pub struct Region {
    pub name: String,
}

/// Whether one of the regions has the name.
pub open spec fn has_region(regions: Seq<Region>, name: Seq<char>) -> bool {
    exists|i: int| 0 <= i < regions.len() && (#[trigger] regions[i]).name@ == name
}

/// What the regions found under a name mean.
pub open spec fn region_check(found: Result<Vec<Region>, Failure>, name: Seq<char>) -> Result<
    (),
    RegisterErrorView,
> {
    match found {
        Ok(regions) => if has_region(regions@, name) {
            Ok(())
        } else {
            Err(RegisterErrorView::RegionNotFound { name })
        },
        Err(failure) => Err(RegisterErrorView::RegionLookup { cause: failure.text() }),
    }
}

/// Whether one of the regions has the name.
fn is_among(name: &str, regions: &Vec<Region>) -> (r: bool)
    ensures
        r == has_region(regions@, name@),
{
    let mut i: usize = 0;
    while i < regions.len()
        invariant
            i <= regions.len(),
            forall|j: int| 0 <= j < i ==> (#[trigger] regions@[j]).name@ != name@,
        decreases regions.len() - i,
    {
        if same(regions[i].name.as_str(), name) {
            return true;
        }
        i = i + 1;
    }
    false
}

/// Whether the regions found hold one that has the very name.
pub fn ensure_region_exists(found: &Result<Vec<Region>, Failure>, name: &str) -> (r: Result<
    (),
    RegisterError,
>)
    ensures
        outcome(r) == region_check(*found, name@),
        *found matches Ok(regions) ==> (r is Ok <==> exists|i: int|
            0 <= i < regions@.len() && (#[trigger] regions@[i]).name@ == name@),
{
    match found {
        Ok(regions) => if is_among(name, regions) {
            Ok(())
        } else {
            Err(RegisterError::RegionNotFound { name: name.to_owned() })
        },
        Err(failure) => Err(RegisterError::RegionLookup { cause: error_chain(failure) }),
    }
}

/// What the user asked for.
#[derive(Debug)]
pub struct Options {
    /// The URL of the appliance.
    pub url: String,
    /// The name to register it as, in place of its hostname.
    pub name: Option<String>,
    /// The region to register it in, in place of the default region.
    pub region: Option<String>,
    /// The group to register it in, in place of the current user's.
    pub group: Option<String>,
    /// The user to log in as.
    pub username: Option<String>,
    /// Whether the appliance's certificate goes unverified.
    pub insecure: bool,
    /// Whether the appliance may accept a self-signed certificate.
    pub allow_self_signed: bool,
    /// Whether to register it even if it is registered.
    pub force: bool,
}

/// How far a registration has come: what it waits for, and what it knows.
#[derive(Debug, PartialEq)]
pub enum Stage {
    CreatingClient,
    FetchingVersion,
    OpeningEdge,
    ResolvingGroup { edge_url: String },
    FindingRegion { edge_url: String, group: String, region: String },
    ReadingEnvironment { edge_url: String, group: String },
    Asking { edge_url: String, group: String, credentials: Credentials },
    LoggingIn { edge_url: String, group: String },
    FetchingStatus { edge_url: String, group: String },
    FetchingHostname { edge_url: String, group: String },
    CreatingToken { edge_url: String, name: String },
    Configuring { edge_url: String, name: String },
    ReadingClock { edge_url: String, name: String, last: Option<EdgeConnectStatus> },
    Sleeping { edge_url: String, name: String, last: Option<EdgeConnectStatus> },
    Polling { edge_url: String, name: String, last: Option<EdgeConnectStatus> },
    Finished,
}

/// How far a registration has come, over texts.
pub enum StageView {
    CreatingClient,
    FetchingVersion,
    OpeningEdge,
    ResolvingGroup { edge_url: Seq<char> },
    FindingRegion { edge_url: Seq<char>, group: Seq<char>, region: Seq<char> },
    ReadingEnvironment { edge_url: Seq<char>, group: Seq<char> },
    Asking { edge_url: Seq<char>, group: Seq<char>, credentials: CredentialsView },
    LoggingIn { edge_url: Seq<char>, group: Seq<char> },
    FetchingStatus { edge_url: Seq<char>, group: Seq<char> },
    FetchingHostname { edge_url: Seq<char>, group: Seq<char> },
    CreatingToken { edge_url: Seq<char>, name: Seq<char> },
    Configuring { edge_url: Seq<char>, name: Seq<char> },
    ReadingClock { edge_url: Seq<char>, name: Seq<char>, last: Option<EdgeConnectStatusView> },
    Sleeping { edge_url: Seq<char>, name: Seq<char>, last: Option<EdgeConnectStatusView> },
    Polling { edge_url: Seq<char>, name: Seq<char>, last: Option<EdgeConnectStatusView> },
    Finished,
}

/// An optional status, over texts.
pub open spec fn optional_status(s: Option<EdgeConnectStatus>) -> Option<EdgeConnectStatusView> {
    match s {
        Some(s) => Some(s@),
        None => None,
    }
}

impl View for Stage {
    type V = StageView;

    open spec fn view(&self) -> StageView {
        match *self {
            Stage::CreatingClient => StageView::CreatingClient,
            Stage::FetchingVersion => StageView::FetchingVersion,
            Stage::OpeningEdge => StageView::OpeningEdge,
            Stage::ResolvingGroup { edge_url } => StageView::ResolvingGroup {
                edge_url: edge_url@,
            },
            Stage::FindingRegion { edge_url, group, region } => StageView::FindingRegion {
                edge_url: edge_url@,
                group: group@,
                region: region@,
            },
            Stage::ReadingEnvironment { edge_url, group } => StageView::ReadingEnvironment {
                edge_url: edge_url@,
                group: group@,
            },
            Stage::Asking { edge_url, group, credentials } => StageView::Asking {
                edge_url: edge_url@,
                group: group@,
                credentials: credentials@,
            },
            Stage::LoggingIn { edge_url, group } => StageView::LoggingIn {
                edge_url: edge_url@,
                group: group@,
            },
            Stage::FetchingStatus { edge_url, group } => StageView::FetchingStatus {
                edge_url: edge_url@,
                group: group@,
            },
            Stage::FetchingHostname { edge_url, group } => StageView::FetchingHostname {
                edge_url: edge_url@,
                group: group@,
            },
            Stage::CreatingToken { edge_url, name } => StageView::CreatingToken {
                edge_url: edge_url@,
                name: name@,
            },
            Stage::Configuring { edge_url, name } => StageView::Configuring {
                edge_url: edge_url@,
                name: name@,
            },
            Stage::ReadingClock { edge_url, name, last } => StageView::ReadingClock {
                edge_url: edge_url@,
                name: name@,
                last: optional_status(last),
            },
            Stage::Sleeping { edge_url, name, last } => StageView::Sleeping {
                edge_url: edge_url@,
                name: name@,
                last: optional_status(last),
            },
            Stage::Polling { edge_url, name, last } => StageView::Polling {
                edge_url: edge_url@,
                name: name@,
                last: optional_status(last),
            },
            Stage::Finished => StageView::Finished,
        }
    }
}

/// What a registration wants done next.
#[derive(Debug, PartialEq)]
pub enum Action {
    /// Make an HTTP client that keeps cookies.
    CreateClient { insecure: bool, timeout_secs: u64 },
    /// Get the appliance's version.
    FetchVersion { url: String },
    /// Show the notice, and open the connection to Nimbra Edge.
    OpenEdge { notice: String },
    /// Resolve the group, the current user's where none is named.
    ResolveGroup { named: Option<String> },
    /// Look up regions by name.
    FindRegion { name: String },
    /// Read the credentials in the environment, and whether there is a terminal.
    ReadEnvironment,
    /// Show the prompt, and read a line.
    Ask { prompt: String },
    /// Show the prompt, and read a password without showing it.
    AskPassword { prompt: String },
    /// Post the credentials to the appliance.
    Login { url: String, username: String, password: String },
    /// Get the appliance's registration status.
    FetchStatus { url: String },
    /// Get the appliance's system information.
    FetchHostname { url: String },
    /// Create an appliance token.
    CreateToken { group: String, role: String },
    /// Put the configuration to the appliance.
    Configure { url: String, config: ManagementConfig },
    /// Start the clock, and read it.
    StartClock,
    /// Read the clock.
    ReadClock,
    /// Sleep.
    Sleep { seconds: u64 },
    /// Nothing more; show the line, or the error.
    Finish(Result<String, RegisterError>),
}

/// What a registration wants done next, over texts.
pub enum ActionView {
    CreateClient { insecure: bool, timeout_secs: u64 },
    FetchVersion { url: Seq<char> },
    OpenEdge { notice: Seq<char> },
    ResolveGroup { named: Option<Seq<char>> },
    FindRegion { name: Seq<char> },
    ReadEnvironment,
    Ask { prompt: Seq<char> },
    AskPassword { prompt: Seq<char> },
    Login { url: Seq<char>, username: Seq<char>, password: Seq<char> },
    FetchStatus { url: Seq<char> },
    FetchHostname { url: Seq<char> },
    CreateToken { group: Seq<char>, role: Seq<char> },
    Configure { url: Seq<char>, config: ManagementConfigView },
    StartClock,
    ReadClock,
    Sleep { seconds: u64 },
    Finish(Result<Seq<char>, RegisterErrorView>),
}

impl View for Action {
    type V = ActionView;

    open spec fn view(&self) -> ActionView {
        match *self {
            Action::CreateClient { insecure, timeout_secs } => ActionView::CreateClient {
                insecure,
                timeout_secs,
            },
            Action::FetchVersion { url } => ActionView::FetchVersion { url: url@ },
            Action::OpenEdge { notice } => ActionView::OpenEdge { notice: notice@ },
            Action::ResolveGroup { named } => ActionView::ResolveGroup {
                named: optional_text(named),
            },
            Action::FindRegion { name } => ActionView::FindRegion { name: name@ },
            Action::ReadEnvironment => ActionView::ReadEnvironment,
            Action::Ask { prompt } => ActionView::Ask { prompt: prompt@ },
            Action::AskPassword { prompt } => ActionView::AskPassword { prompt: prompt@ },
            Action::Login { url, username, password } => ActionView::Login {
                url: url@,
                username: username@,
                password: password@,
            },
            Action::FetchStatus { url } => ActionView::FetchStatus { url: url@ },
            Action::FetchHostname { url } => ActionView::FetchHostname { url: url@ },
            Action::CreateToken { group, role } => ActionView::CreateToken {
                group: group@,
                role: role@,
            },
            Action::Configure { url, config } => ActionView::Configure {
                url: url@,
                config: config@,
            },
            Action::StartClock => ActionView::StartClock,
            Action::ReadClock => ActionView::ReadClock,
            Action::Sleep { seconds } => ActionView::Sleep { seconds },
            Action::Finish(result) => ActionView::Finish(outcome(result)),
        }
    }
}

/// What came of an action.
#[derive(Debug)]
pub enum Event {
    /// The HTTP client was made, or not.
    ClientCreated(Result<(), Failure>),
    /// The reply to the request for the version.
    Version(Reply<ApplianceVersion>),
    /// The connection to Nimbra Edge is open; its URL.
    EdgeOpened { url: String },
    /// The group was resolved, or not.
    Group(Result<String, Failure>),
    /// The regions that were found.
    Regions(Result<Vec<Region>, Failure>),
    /// What the environment holds, and whether there is a terminal.
    Environment { user: Option<String>, password: Option<String>, interactive: bool },
    /// The line that was read.
    Line(Result<String, Failure>),
    /// The password that was read, or none where it could not be read without
    /// showing it.
    Password(Result<Option<String>, Failure>),
    /// The reply to the login.
    LoggedIn(Reply<()>),
    /// The reply to the request for the registration status.
    Status(Reply<EdgeConnectStatus>),
    /// The reply to the request for the system information.
    Hostname(Reply<SystemInfo>),
    /// The token's secret.
    Token(Result<String, Failure>),
    /// The reply to the configuration.
    Configured(Reply<()>),
    /// The nanoseconds since the clock was started.
    Elapsed(u128),
    /// The time to sleep is over.
    Slept,
}

/// The registration of one appliance.
#[derive(Debug)]
pub struct Registration {
    pub options: Options,
    pub appliance: ApplianceClient,
    pub stage: Stage,
}

/// The registration of one appliance, over texts.
pub struct RegistrationView {
    pub options: Options,
    pub appliance: ApplianceClientView,
    pub stage: StageView,
}

impl View for Registration {
    type V = RegistrationView;

    open spec fn view(&self) -> RegistrationView {
        RegistrationView {
            options: self.options,
            appliance: self.appliance@,
            stage: self.stage@,
        }
    }
}

impl RegistrationView {
    /// Where a registration starts.
    pub open spec fn start(options: Options) -> RegistrationView {
        RegistrationView {
            options,
            appliance: ApplianceClientView {
                url: normalized_url(options.url@),
                insecure: options.insecure,
            },
            stage: StageView::CreatingClient,
        }
    }

    /// Whether an event is what the registration waits for.
    pub open spec fn awaits(self, event: Event) -> bool {
        match (self.stage, event) {
            (StageView::CreatingClient, Event::ClientCreated(_)) => true,
            (StageView::FetchingVersion, Event::Version(reply)) => reply.well_formed(),
            (StageView::OpeningEdge, Event::EdgeOpened { .. }) => true,
            (StageView::ResolvingGroup { .. }, Event::Group(_)) => true,
            (StageView::FindingRegion { .. }, Event::Regions(_)) => true,
            (StageView::ReadingEnvironment { .. }, Event::Environment { .. }) => true,
            (StageView::Asking { credentials, .. }, Event::Line(_)) => credentials.asks_line(),
            (StageView::Asking { credentials, .. }, Event::Password(_)) =>
                credentials is AskPassword,
            (StageView::LoggingIn { .. }, Event::LoggedIn(reply)) => reply.well_formed(),
            (StageView::FetchingStatus { .. }, Event::Status(reply)) => reply.well_formed(),
            (StageView::FetchingHostname { .. }, Event::Hostname(reply)) => reply.well_formed(),
            (StageView::CreatingToken { .. }, Event::Token(_)) => true,
            (StageView::Configuring { .. }, Event::Configured(reply)) => reply.well_formed(),
            (StageView::ReadingClock { .. }, Event::Elapsed(_)) => true,
            (StageView::Sleeping { .. }, Event::Slept) => true,
            (StageView::Polling { .. }, Event::Status(reply)) => reply.well_formed(),
            _ => false,
        }
    }

    /// The registration goes on.
    pub open spec fn go(self, stage: StageView, action: ActionView) -> (
        RegistrationView,
        ActionView,
    ) {
        (RegistrationView { stage, ..self }, action)
    }

    /// The registration has failed.
    pub open spec fn fail(self, error: RegisterErrorView) -> (RegistrationView, ActionView) {
        self.go(StageView::Finished, ActionView::Finish(Err(error)))
    }

    /// The credentials are complete, and used, or one is asked for.
    pub open spec fn use_credentials(
        self,
        edge_url: Seq<char>,
        group: Seq<char>,
        credentials: CredentialsView,
    ) -> (RegistrationView, ActionView) {
        let asking = StageView::Asking { edge_url, group, credentials };
        match credentials {
            CredentialsView::Complete { username, password } => self.go(
                StageView::LoggingIn { edge_url, group },
                ActionView::Login {
                    url: self.appliance.url + "/api/auth/login"@,
                    username,
                    password,
                },
            ),
            CredentialsView::AskUsername { .. } => self.go(
                asking,
                ActionView::Ask { prompt: "Username [admin]: "@ },
            ),
            CredentialsView::AskPassword { .. } => self.go(
                asking,
                ActionView::AskPassword { prompt: "Password: "@ },
            ),
            CredentialsView::AskPasswordLine { .. } => self.go(
                asking,
                ActionView::Ask { prompt: ""@ },
            ),
        }
    }

    /// The group is known; the region, where one is named, is to be looked up.
    pub open spec fn use_group(self, edge_url: Seq<char>, group: Seq<char>) -> (
        RegistrationView,
        ActionView,
    ) {
        match self.options.region {
            Some(region) => self.go(
                StageView::FindingRegion { edge_url, group, region: region@ },
                ActionView::FindRegion { name: region@ },
            ),
            None => self.go(
                StageView::ReadingEnvironment { edge_url, group },
                ActionView::ReadEnvironment,
            ),
        }
    }

    /// The name is known; a token is to be created.
    pub open spec fn use_name(self, edge_url: Seq<char>, group: Seq<char>, name: Seq<char>) -> (
        RegistrationView,
        ActionView,
    ) {
        self.go(
            StageView::CreatingToken { edge_url, name },
            ActionView::CreateToken { group, role: "edge"@ },
        )
    }

    /// The appliance's registration is known. Unless forced, a registered
    /// appliance is left alone.
    pub open spec fn use_status(
        self,
        edge_url: Seq<char>,
        group: Seq<char>,
        status: EdgeConnectStatusView,
    ) -> (RegistrationView, ActionView) {
        if !(status.status is NotConfigured) && !self.options.force {
            self.fail(RegisterErrorView::AlreadyRegistered { with: status.edge_url })
        } else {
            match self.options.name {
                Some(name) => self.use_name(edge_url, group, name@),
                None => self.go(
                    StageView::FetchingHostname { edge_url, group },
                    ActionView::FetchHostname { url: self.appliance.url + "/api/system-info"@ },
                ),
            }
        }
    }

    /// The clock was read while waiting for the appliance to connect: it is
    /// given more time, or given up with what it last reported.
    pub open spec fn use_clock(
        self,
        edge_url: Seq<char>,
        name: Seq<char>,
        last: Option<EdgeConnectStatusView>,
        elapsed: u128,
    ) -> (RegistrationView, ActionView) {
        if elapsed < CONNECT_TIMEOUT_NANOS {
            self.go(
                StageView::Sleeping { edge_url, name, last },
                ActionView::Sleep { seconds: POLL_INTERVAL_SECS },
            )
        } else {
            self.fail(
                match last {
                    Some(last) => RegisterErrorView::NotConnected {
                        edge_url,
                        status: last.status.text(),
                        error: last.error,
                    },
                    None => RegisterErrorView::NotConnected {
                        edge_url,
                        status: "unknown"@,
                        error: None,
                    },
                },
            )
        }
    }

    /// The appliance was looked at while waiting for it to connect. A request
    /// that fails meanwhile is no reason to stop waiting.
    pub open spec fn use_poll(
        self,
        edge_url: Seq<char>,
        name: Seq<char>,
        last: Option<EdgeConnectStatusView>,
        reply: Reply<EdgeConnectStatus>,
    ) -> (RegistrationView, ActionView) {
        match self.appliance.edge_connect_status(reply) {
            Ok(status) => if status.status is Connected {
                self.go(
                    StageView::Finished,
                    ActionView::Finish(
                        Ok("Registered appliance '"@ + name + "' with "@ + edge_url),
                    ),
                )
            } else {
                self.go(
                    StageView::ReadingClock { edge_url, name, last: Some(status) },
                    ActionView::ReadClock,
                )
            },
            Err(_) => self.go(
                StageView::ReadingClock { edge_url, name, last },
                ActionView::ReadClock,
            ),
        }
    }

    /// Where a registration goes on an event that it waits for, and what it
    /// wants done there.
    pub open spec fn next(self, event: Event) -> (RegistrationView, ActionView) {
        match (self.stage, event) {
            (StageView::CreatingClient, Event::ClientCreated(result)) => match result {
                Ok(_) => self.go(
                    StageView::FetchingVersion,
                    ActionView::FetchVersion { url: self.appliance.url + "/api/version"@ },
                ),
                Err(failure) => self.fail(RegisterErrorView::Client { cause: failure.text() }),
            },
            (StageView::FetchingVersion, Event::Version(reply)) => match self.appliance.version(
                reply,
            ) {
                Ok(version) => self.go(
                    StageView::OpeningEdge,
                    ActionView::OpenEdge {
                        notice: "Found edge-os "@ + version + " at "@ + self.appliance.url,
                    },
                ),
                Err(error) => self.fail(error),
            },
            (StageView::OpeningEdge, Event::EdgeOpened { url }) => self.go(
                StageView::ResolvingGroup { edge_url: without_trailing(url@, '/') },
                ActionView::ResolveGroup { named: optional_text(self.options.group) },
            ),
            (StageView::ResolvingGroup { edge_url }, Event::Group(result)) => match result {
                Ok(group) => self.use_group(edge_url, group@),
                Err(failure) => self.fail(RegisterErrorView::Group { cause: failure.text() }),
            },
            (StageView::FindingRegion { edge_url, group, region }, Event::Regions(found)) => {
                match region_check(found, region) {
                    Ok(_) => self.go(
                        StageView::ReadingEnvironment { edge_url, group },
                        ActionView::ReadEnvironment,
                    ),
                    Err(error) => self.fail(error),
                }
            },
            (
                StageView::ReadingEnvironment { edge_url, group },
                Event::Environment { user, password, interactive },
            ) => match CredentialsView::given(
                optional_text(self.options.username),
                optional_text(user),
                optional_text(password),
                interactive,
            ) {
                Ok(credentials) => self.use_credentials(edge_url, group, credentials),
                Err(error) => self.fail(error),
            },
            (StageView::Asking { edge_url, group, credentials }, Event::Line(line)) => match line {
                Ok(line) => self.use_credentials(edge_url, group, credentials.after_line(line@)),
                Err(failure) => self.fail(RegisterErrorView::Prompt { cause: failure.text() }),
            },
            (StageView::Asking { edge_url, group, credentials }, Event::Password(password)) => {
                match password {
                    Ok(password) => self.use_credentials(
                        edge_url,
                        group,
                        credentials.after_password(optional_text(password)),
                    ),
                    Err(failure) => self.fail(RegisterErrorView::Prompt { cause: failure.text() }),
                }
            },
            (StageView::LoggingIn { edge_url, group }, Event::LoggedIn(reply)) => {
                match self.appliance.login(reply) {
                    Ok(_) => self.go(
                        StageView::FetchingStatus { edge_url, group },
                        ActionView::FetchStatus {
                            url: self.appliance.url + "/api/edge-connect/status"@,
                        },
                    ),
                    Err(error) => self.fail(error),
                }
            },
            (StageView::FetchingStatus { edge_url, group }, Event::Status(reply)) => {
                match self.appliance.edge_connect_status(reply) {
                    Ok(status) => self.use_status(edge_url, group, status),
                    Err(error) => self.fail(error),
                }
            },
            (StageView::FetchingHostname { edge_url, group }, Event::Hostname(reply)) => {
                match self.appliance.hostname(reply) {
                    Ok(name) => self.use_name(edge_url, group, name),
                    Err(error) => self.fail(error),
                }
            },
            (StageView::CreatingToken { edge_url, name }, Event::Token(result)) => match result {
                Ok(secret) => self.go(
                    StageView::Configuring { edge_url, name },
                    ActionView::Configure {
                        url: self.appliance.url + "/api/management"@,
                        config: ManagementConfigView {
                            edge_url,
                            device_name: name,
                            secret: secret@,
                            edge_role: "edge"@,
                            region: optional_text(self.options.region),
                            allow_self_signed_certs: self.options.allow_self_signed,
                        },
                    },
                ),
                Err(failure) => self.fail(RegisterErrorView::Token { cause: failure.text() }),
            },
            (StageView::Configuring { edge_url, name }, Event::Configured(reply)) => {
                match self.appliance.set_management_config(reply) {
                    Ok(_) => self.go(
                        StageView::ReadingClock { edge_url, name, last: None },
                        ActionView::StartClock,
                    ),
                    Err(error) => self.fail(error),
                }
            },
            (StageView::ReadingClock { edge_url, name, last }, Event::Elapsed(elapsed)) =>
                self.use_clock(edge_url, name, last, elapsed),
            (StageView::Sleeping { edge_url, name, last }, Event::Slept) => self.go(
                StageView::Polling { edge_url, name, last },
                ActionView::FetchStatus { url: self.appliance.url + "/api/edge-connect/status"@ },
            ),
            (StageView::Polling { edge_url, name, last }, Event::Status(reply)) => self.use_poll(
                edge_url,
                name,
                last,
                reply,
            ),
            _ => arbitrary(),
        }
    }
}

/// Starts a registration.
pub fn register(options: Options) -> (r: (Registration, Action))
    ensures
        r.0@ == RegistrationView::start(options),
        r.1@ == (ActionView::CreateClient {
            insecure: options.insecure,
            timeout_secs: REQUEST_TIMEOUT_SECS,
        }),
        r.1@ == wanted(options, Seq::empty()),
{
    let url = normalize_url(options.url.as_str());
    let insecure = options.insecure;
    let appliance = ApplianceClient::new(url.as_str(), insecure);
    (
        Registration { options, appliance, stage: Stage::CreatingClient },
        Action::CreateClient { insecure, timeout_secs: REQUEST_TIMEOUT_SECS },
    )
}

/// A copy of an optional string.
fn copied(s: &Option<String>) -> (r: Option<String>)
    ensures
        optional_text(r) == optional_text(*s),
{
    match s {
        Some(s) => Some(s.clone()),
        None => None,
    }
}

impl Registration {
    /// Whether an event is what the registration waits for.
    pub fn is_awaiting(&self, event: &Event) -> (r: bool)
        ensures
            r == self@.awaits(*event),
    {
        match (&self.stage, event) {
            (Stage::CreatingClient, Event::ClientCreated(_)) => true,
            (Stage::FetchingVersion, Event::Version(reply)) => reply.is_well_formed(),
            (Stage::OpeningEdge, Event::EdgeOpened { .. }) => true,
            (Stage::ResolvingGroup { .. }, Event::Group(_)) => true,
            (Stage::FindingRegion { .. }, Event::Regions(_)) => true,
            (Stage::ReadingEnvironment { .. }, Event::Environment { .. }) => true,
            (Stage::Asking { credentials, .. }, Event::Line(_)) => match credentials {
                Credentials::AskUsername { .. } => true,
                Credentials::AskPasswordLine { .. } => true,
                _ => false,
            },
            (Stage::Asking { credentials, .. }, Event::Password(_)) => match credentials {
                Credentials::AskPassword { .. } => true,
                _ => false,
            },
            (Stage::LoggingIn { .. }, Event::LoggedIn(reply)) => reply.is_well_formed(),
            (Stage::FetchingStatus { .. }, Event::Status(reply)) => reply.is_well_formed(),
            (Stage::FetchingHostname { .. }, Event::Hostname(reply)) => reply.is_well_formed(),
            (Stage::CreatingToken { .. }, Event::Token(_)) => true,
            (Stage::Configuring { .. }, Event::Configured(reply)) => reply.is_well_formed(),
            (Stage::ReadingClock { .. }, Event::Elapsed(_)) => true,
            (Stage::Sleeping { .. }, Event::Slept) => true,
            (Stage::Polling { .. }, Event::Status(reply)) => reply.is_well_formed(),
            _ => false,
        }
    }

    fn fail(&mut self, error: RegisterError) -> (action: Action)
        ensures
            (final(self)@, action@) == old(self)@.fail(error@),
    {
        self.stage = Stage::Finished;
        Action::Finish(Err(error))
    }

    fn use_credentials(
        &mut self,
        edge_url: String,
        group: String,
        credentials: Credentials,
    ) -> (action: Action)
        ensures
            (final(self)@, action@) == old(self)@.use_credentials(edge_url@, group@, credentials@),
    {
        let prompt: Action = match credentials {
            Credentials::Complete { username, password } => {
                self.stage = Stage::LoggingIn { edge_url, group };
                let url = self.appliance.endpoint("/api/auth/login");
                return Action::Login { url, username, password };
            },
            Credentials::AskUsername { .. } => Action::Ask {
                prompt: "Username [admin]: ".to_owned(),
            },
            Credentials::AskPassword { .. } => Action::AskPassword {
                prompt: "Password: ".to_owned(),
            },
            Credentials::AskPasswordLine { .. } => Action::Ask { prompt: "".to_owned() },
        };
        self.stage = Stage::Asking { edge_url, group, credentials };
        prompt
    }

    fn use_group(&mut self, edge_url: String, group: String) -> (action: Action)
        ensures
            (final(self)@, action@) == old(self)@.use_group(edge_url@, group@),
    {
        match copied(&self.options.region) {
            Some(region) => {
                self.stage = Stage::FindingRegion { edge_url, group, region: region.clone() };
                Action::FindRegion { name: region }
            },
            None => {
                self.stage = Stage::ReadingEnvironment { edge_url, group };
                Action::ReadEnvironment
            },
        }
    }

    fn use_name(&mut self, edge_url: String, group: String, name: String) -> (action: Action)
        ensures
            (final(self)@, action@) == old(self)@.use_name(edge_url@, group@, name@),
    {
        self.stage = Stage::CreatingToken { edge_url, name };
        Action::CreateToken { group, role: "edge".to_owned() }
    }

    fn use_status(&mut self, edge_url: String, group: String, status: EdgeConnectStatus) -> (action:
        Action)
        ensures
            (final(self)@, action@) == old(self)@.use_status(edge_url@, group@, status@),
    {
        let configured = match status.status {
            ConnectStatus::NotConfigured => false,
            _ => true,
        };
        if configured && !self.options.force {
            return self.fail(RegisterError::AlreadyRegistered { with: status.edge_url });
        }
        match copied(&self.options.name) {
            Some(name) => self.use_name(edge_url, group, name),
            None => {
                self.stage = Stage::FetchingHostname { edge_url, group };
                Action::FetchHostname { url: self.appliance.endpoint("/api/system-info") }
            },
        }
    }

    fn configure(&mut self, edge_url: String, name: String, secret: String) -> (action: Action)
        ensures
            final(self)@ == (RegistrationView {
                stage: StageView::Configuring { edge_url: edge_url@, name: name@ },
                ..old(self)@
            }),
            action@ == (ActionView::Configure {
                url: old(self)@.appliance.url + "/api/management"@,
                config: ManagementConfigView {
                    edge_url: edge_url@,
                    device_name: name@,
                    secret: secret@,
                    edge_role: "edge"@,
                    region: optional_text(old(self)@.options.region),
                    allow_self_signed_certs: old(self)@.options.allow_self_signed,
                },
            }),
    {
        let config = ManagementConfig {
            edge_url: edge_url.clone(),
            device_name: name.clone(),
            secret,
            edge_role: "edge".to_owned(),
            region: copied(&self.options.region),
            allow_self_signed_certs: self.options.allow_self_signed,
        };
        self.stage = Stage::Configuring { edge_url, name };
        Action::Configure { url: self.appliance.endpoint("/api/management"), config }
    }

    fn use_clock(
        &mut self,
        edge_url: String,
        name: String,
        last: Option<EdgeConnectStatus>,
        elapsed: u128,
    ) -> (action: Action)
        ensures
            (final(self)@, action@) == old(self)@.use_clock(
                edge_url@,
                name@,
                optional_status(last),
                elapsed,
            ),
    {
        if elapsed < CONNECT_TIMEOUT_NANOS {
            self.stage = Stage::Sleeping { edge_url, name, last };
            return Action::Sleep { seconds: POLL_INTERVAL_SECS };
        }
        let (status, error) = match last {
            Some(last) => (last.status.to_text(), last.error),
            None => ("unknown".to_owned(), None),
        };
        self.fail(RegisterError::NotConnected { edge_url, status, error })
    }

    fn use_poll(
        &mut self,
        edge_url: String,
        name: String,
        last: Option<EdgeConnectStatus>,
        reply: Reply<EdgeConnectStatus>,
    ) -> (action: Action)
        requires
            reply.well_formed(),
        ensures
            (final(self)@, action@) == old(self)@.use_poll(
                edge_url@,
                name@,
                optional_status(last),
                reply,
            ),
    {
        match self.appliance.edge_connect_status(reply) {
            Ok(status) => {
                let connected = match status.status {
                    ConnectStatus::Connected => true,
                    _ => false,
                };
                if connected {
                    let line = joined("Registered appliance '", name.as_str()).concat(
                        "' with ",
                    ).concat(edge_url.as_str());
                    self.stage = Stage::Finished;
                    return Action::Finish(Ok(line));
                }
                self.stage = Stage::ReadingClock { edge_url, name, last: Some(status) };
            },
            Err(_) => {
                self.stage = Stage::ReadingClock { edge_url, name, last };
            },
        }
        Action::ReadClock
    }

    /// Takes in an event, and says what is to be done next.
    pub fn next(&mut self, event: Event) -> (action: Action)
        requires
            old(self)@.awaits(event),
        ensures
            (final(self)@, action@) == old(self)@.next(event),
    {
        let mut stage = Stage::Finished;
        std::mem::swap(&mut stage, &mut self.stage);
        match (stage, event) {
            (Stage::CreatingClient, Event::ClientCreated(result)) => match result {
                Ok(_) => {
                    self.stage = Stage::FetchingVersion;
                    Action::FetchVersion { url: self.appliance.endpoint("/api/version") }
                },
                Err(failure) => self.fail(RegisterError::Client { cause: error_chain(&failure) }),
            },
            (Stage::FetchingVersion, Event::Version(reply)) => match self.appliance.version(reply) {
                Ok(version) => {
                    self.stage = Stage::OpeningEdge;
                    let notice = joined("Found edge-os ", version.as_str()).concat(" at ").concat(
                        self.appliance.url.as_str(),
                    );
                    Action::OpenEdge { notice }
                },
                Err(error) => self.fail(error),
            },
            (Stage::OpeningEdge, Event::EdgeOpened { url }) => {
                let edge_url = trim_end_matches(url.as_str(), '/');
                self.stage = Stage::ResolvingGroup { edge_url };
                Action::ResolveGroup { named: copied(&self.options.group) }
            },
            (Stage::ResolvingGroup { edge_url }, Event::Group(result)) => match result {
                Ok(group) => self.use_group(edge_url, group),
                Err(failure) => self.fail(RegisterError::Group { cause: error_chain(&failure) }),
            },
            (Stage::FindingRegion { edge_url, group, region }, Event::Regions(found)) => {
                match ensure_region_exists(&found, region.as_str()) {
                    Ok(_) => {
                        self.stage = Stage::ReadingEnvironment { edge_url, group };
                        Action::ReadEnvironment
                    },
                    Err(error) => self.fail(error),
                }
            },
            (
                Stage::ReadingEnvironment { edge_url, group },
                Event::Environment { user, password, interactive },
            ) => match credentials(copied(&self.options.username), user, password, interactive) {
                Ok(credentials) => self.use_credentials(edge_url, group, credentials),
                Err(error) => self.fail(error),
            },
            (Stage::Asking { edge_url, group, credentials }, Event::Line(line)) => match line {
                Ok(line) => self.use_credentials(
                    edge_url,
                    group,
                    credentials.after_line(line.as_str()),
                ),
                Err(failure) => self.fail(RegisterError::Prompt { cause: error_chain(&failure) }),
            },
            (Stage::Asking { edge_url, group, credentials }, Event::Password(password)) => {
                match password {
                    Ok(password) => self.use_credentials(
                        edge_url,
                        group,
                        credentials.after_password(password),
                    ),
                    Err(failure) => self.fail(
                        RegisterError::Prompt { cause: error_chain(&failure) },
                    ),
                }
            },
            (Stage::LoggingIn { edge_url, group }, Event::LoggedIn(reply)) => {
                match self.appliance.login(reply) {
                    Ok(_) => {
                        self.stage = Stage::FetchingStatus { edge_url, group };
                        Action::FetchStatus {
                            url: self.appliance.endpoint("/api/edge-connect/status"),
                        }
                    },
                    Err(error) => self.fail(error),
                }
            },
            (Stage::FetchingStatus { edge_url, group }, Event::Status(reply)) => {
                match self.appliance.edge_connect_status(reply) {
                    Ok(status) => self.use_status(edge_url, group, status),
                    Err(error) => self.fail(error),
                }
            },
            (Stage::FetchingHostname { edge_url, group }, Event::Hostname(reply)) => {
                match self.appliance.hostname(reply) {
                    Ok(name) => self.use_name(edge_url, group, name),
                    Err(error) => self.fail(error),
                }
            },
            (Stage::CreatingToken { edge_url, name }, Event::Token(result)) => match result {
                Ok(secret) => self.configure(edge_url, name, secret),
                Err(failure) => self.fail(RegisterError::Token { cause: error_chain(&failure) }),
            },
            (Stage::Configuring { edge_url, name }, Event::Configured(reply)) => {
                match self.appliance.set_management_config(reply) {
                    Ok(_) => {
                        self.stage = Stage::ReadingClock { edge_url, name, last: None };
                        Action::StartClock
                    },
                    Err(error) => self.fail(error),
                }
            },
            (Stage::ReadingClock { edge_url, name, last }, Event::Elapsed(elapsed)) => {
                self.use_clock(edge_url, name, last, elapsed)
            },
            (Stage::Sleeping { edge_url, name, last }, Event::Slept) => {
                self.stage = Stage::Polling { edge_url, name, last };
                Action::FetchStatus { url: self.appliance.endpoint("/api/edge-connect/status") }
            },
            (Stage::Polling { edge_url, name, last }, Event::Status(reply)) => {
                self.use_poll(edge_url, name, last, reply)
            },
            _ => unreached(),
        }
    }
}

} // verus!
