//! What follows on each event of a registration, in terms of what was asked for
//! and of what has happened.

use vstd::prelude::*;

use crate::appliance::{
    ApplianceVersion, EdgeConnectStatus, ManagementConfigView, Reply, SystemInfo,
};
use crate::credentials::CredentialsView;
use crate::error::RegisterErrorView;
use crate::failure::Failure;
use crate::register::{
    region_check, Action, ActionView, Event, Options, Region, RegistrationView, StageView,
};
use crate::register_laws::{
    after, edge_url_of, kept_report, last_report, lemma_action, lemma_group,
    lemma_hostname, lemma_last_report, lemma_past, lemma_step, name_of, possible, progress,
    reported_hostname, resolved_group, wanted,
};
use crate::text::{optional_text, trimmed, without_trailing};
use crate::url::normalized_url;

verus! {

/// Whether a reply can come over HTTP.
pub open spec fn over_http<T>(reply: Reply<T>) -> bool {
    match reply {
        Reply::Failed(_) => true,
        Reply::Response { status, .. } => 100 <= status <= 999,
    }
}

/// Whether an event is what can come of an action.
pub open spec fn comes_of(action: ActionView, event: Event) -> bool {
    match event {
        Event::ClientCreated(_) => action is CreateClient,
        Event::Version(reply) => action is FetchVersion && over_http(reply),
        Event::EdgeOpened { .. } => action is OpenEdge,
        Event::Group(_) => action is ResolveGroup,
        Event::Regions(_) => action is FindRegion,
        Event::Environment { .. } => action is ReadEnvironment,
        Event::Line(_) => action is Ask,
        Event::Password(_) => action is AskPassword,
        Event::LoggedIn(reply) => action is Login && over_http(reply),
        Event::Status(reply) => action is FetchStatus && over_http(reply),
        Event::Hostname(reply) => action is FetchHostname && over_http(reply),
        Event::Token(_) => action is CreateToken,
        Event::Configured(reply) => action is Configure && over_http(reply),
        Event::Elapsed(_) => action is StartClock || action is ReadClock,
        Event::Slept => action is Sleep,
    }
}

/// The URL at which Nimbra Edge was opened, without slashes at its end.
pub open spec fn opened_url(events: Seq<Event>) -> Option<Seq<char>>
    decreases events.len(),
{
    if events.len() == 0 {
        None
    } else {
        match events.last() {
            Event::EdgeOpened { url } => Some(without_trailing(url@, '/')),
            _ => opened_url(events.drop_last()),
        }
    }
}

/// The name of the device: the one that was asked for, or else the hostname that
/// was reported.
pub open spec fn device(options: Options, events: Seq<Event>) -> Option<Seq<char>> {
    match options.name {
        Some(name) => Some(name@),
        None => reported_hostname(events),
    }
}

/// Whether the appliance has answered a configuration.
pub open spec fn configuration_answered(events: Seq<Event>) -> bool {
    exists|i: int| 0 <= i < events.len() && (#[trigger] events[i]) is Configured
}

/// What the environment holds: a username, a password, and whether there is a
/// terminal.
pub open spec fn environment(events: Seq<Event>) -> Option<
    (Option<Seq<char>>, Option<Seq<char>>, bool),
>
    decreases events.len(),
{
    if events.len() == 0 {
        None
    } else {
        match events.last() {
            Event::Environment { user, password, interactive } => Some(
                (optional_text(user), optional_text(password), interactive),
            ),
            _ => environment(events.drop_last()),
        }
    }
}

/// The lines that were typed.
pub open spec fn typed_lines(events: Seq<Event>) -> Seq<Seq<char>>
    decreases events.len(),
{
    if events.len() == 0 {
        Seq::empty()
    } else {
        match events.last() {
            Event::Line(Ok(line)) => typed_lines(events.drop_last()).push(line@),
            _ => typed_lines(events.drop_last()),
        }
    }
}

/// The password that was typed, none where it could not be read unseen.
pub open spec fn typed_password(events: Seq<Event>) -> Option<Option<Seq<char>>>
    decreases events.len(),
{
    if events.len() == 0 {
        None
    } else {
        match events.last() {
            Event::Password(Ok(password)) => Some(optional_text(password)),
            _ => typed_password(events.drop_last()),
        }
    }
}

/// The username that is given: that of the option, or else that of the
/// environment.
pub open spec fn given_username(options: Options, events: Seq<Event>) -> Option<Seq<char>> {
    match options.username {
        Some(username) => Some(username@),
        None => match environment(events) {
            Some((user, _, _)) => user,
            None => None,
        },
    }
}

proof fn lemma_opened(options: Options, events: Seq<Event>)
    requires
        possible(options, events),
    ensures
        edge_url_of(after(options, events).stage) matches Some(edge_url) ==> opened_url(events)
            == Some(edge_url),
    decreases events.len(),
{
    if events.len() > 0 {
        let before = events.drop_last();
        lemma_opened(options, before);
        lemma_step(after(options, before), events.last());
    }
}

proof fn lemma_named(options: Options, events: Seq<Event>)
    requires
        possible(options, events),
    ensures
        name_of(after(options, events).stage) matches Some(name) ==> device(options, events)
            == Some(name),
{
    lemma_past(options, events);
    if options.name is None {
        lemma_hostname(options, events);
    }
}

proof fn lemma_region_kept(options: Options, events: Seq<Event>)
    requires
        possible(options, events),
    ensures
        after(options, events).options == options,
        after(options, events).stage matches StageView::FindingRegion { region, .. }
            ==> optional_text(options.region) == Some(region),
    decreases events.len(),
{
    if events.len() > 0 {
        let before = events.drop_last();
        lemma_region_kept(options, before);
        lemma_step(after(options, before), events.last());
    }
}

proof fn lemma_configuration_answered(options: Options, events: Seq<Event>)
    requires
        possible(options, events),
    ensures
        configuration_answered(events) ==> progress(after(options, events).stage) >= 12,
        progress(after(options, events).stage) == 12 ==> configuration_answered(events),
    decreases events.len(),
{
    if events.len() > 0 {
        let before = events.drop_last();
        lemma_configuration_answered(options, before);
        lemma_step(after(options, before), events.last());
        if configuration_answered(events) && !configuration_answered(before) {
            let i = choose|i: int| 0 <= i < events.len() && (#[trigger] events[i]) is Configured;
            if i < before.len() {
                assert(before[i] == events[i]);
            }
            assert(events.last() is Configured);
        }
        if progress(after(options, events).stage) == 12 {
            if configuration_answered(before) {
                let i = choose|i: int|
                    0 <= i < before.len() && (#[trigger] before[i]) is Configured;
                assert(events[i] is Configured);
            } else {
                assert(events[events.len() - 1] is Configured);
            }
        }
    }
}

/// The name that a stage has to ask a password for.
spec fn named_so_far(options: Options, events: Seq<Event>) -> Seq<char> {
    match given_username(options, events) {
        Some(username) => username,
        None => trimmed(typed_lines(events)[0]),
    }
}

/// What has been asked for, and answered, where somebody is being asked.
spec fn asked(options: Options, events: Seq<Event>) -> bool {
    let stage = after(options, events).stage;
    let given = given_username(options, events);
    let typed = typed_lines(events);
    &&& progress(stage) <= 5 ==> typed.len() == 0 && typed_password(events) is None
    &&& stage is Asking ==> (environment(events) matches Some((_, known, interactive))
        && interactive && match stage->credentials {
        CredentialsView::Complete { .. } => false,
        CredentialsView::AskUsername { known: kept } => given is None && kept
            == known && typed.len() == 0 && typed_password(events) is None,
        CredentialsView::AskPassword { username } => known is None && username
            == named_so_far(options, events) && typed.len() == (if given is None {
            1int
        } else {
            0int
        }) && typed_password(events) is None,
        CredentialsView::AskPasswordLine { username } => known is None
            && username == named_so_far(options, events) && typed.len() == (if given is None {
            1int
        } else {
            0int
        }) && typed_password(events) == Some(None::<Seq<char>>),
    })
}

proof fn lemma_asked(options: Options, events: Seq<Event>)
    requires
        possible(options, events),
    ensures
        asked(options, events),
    decreases events.len(),
{
    if events.len() > 0 {
        let before = events.drop_last();
        lemma_asked(options, before);
        lemma_region_kept(options, before);
        lemma_step(after(options, before), events.last());
        match events.last() {
            Event::Environment { .. } => {},
            Event::Line(_) => {},
            Event::Password(_) => {},
            _ => {},
        }
    }
}

/// A registration waits for whatever can come of the action that it wants done,
/// and for nothing else.
pub proof fn law_waits_for_what_comes_of_the_action(
    options: Options,
    events: Seq<Event>,
    event: Event,
)
    requires
        possible(options, events),
    ensures
        after(options, events).awaits(event) <==> comes_of(wanted(options, events), event),
{
    lemma_action(options, events);
    lemma_past(options, events);
    if events.len() > 0 {
        lemma_past(options, events.drop_last());
        match events.last() {
            Event::Environment { .. } => {},
            Event::Line(_) => {},
            Event::Password(_) => {},
            _ => {},
        }
    }
}

/// At first a client is made, for thirty seconds a request, which verifies the
/// certificate unless told not to.
pub proof fn law_client_is_made_first(options: Options)
    ensures
        wanted(options, Seq::empty()) == (ActionView::CreateClient {
            insecure: options.insecure,
            timeout_secs: 30,
        }),
{
}

/// A client that was made asks the appliance for its version.
pub proof fn law_client_asks_for_the_version(
    options: Options,
    events: Seq<Event>,
    result: Result<(), Failure>,
)
    requires
        possible(options, events),
        events.len() > 0,
        events.last() == Event::ClientCreated(result),
    ensures
        match result {
            Ok(_) => wanted(options, events) == (ActionView::FetchVersion {
                url: normalized_url(options.url@) + "/api/version"@,
            }),
            Err(failure) => wanted(options, events) == ActionView::Finish(
                Err(RegisterErrorView::Client { cause: failure.text() }),
            ),
        },
{
    lemma_past(options, events.drop_last());
}

/// An appliance whose version can be read is announced, and anything else ends the
/// registration.
pub proof fn law_appliance_is_announced(
    options: Options,
    events: Seq<Event>,
    reply: Reply<ApplianceVersion>,
)
    requires
        possible(options, events),
        events.len() > 0,
        events.last() == Event::Version(reply),
    ensures
        ({
            let url = normalized_url(options.url@);
            let client = RegistrationView::start(options).appliance;
            let read = reply is Response && reply->status / 100 == 2 && reply->body is Ok;
            &&& client.url == url
            &&& client.insecure == options.insecure
            &&& read ==> wanted(options, events) == (ActionView::OpenEdge {
                notice: "Found edge-os "@ + reply->body->Ok_0.os_version@ + " at "@ + url,
            })
            &&& !read ==> client.version(reply) is Err && wanted(options, events)
                == ActionView::Finish(Err(client.version(reply)->Err_0))
        }),
{
    lemma_past(options, events.drop_last());
}

/// Once Nimbra Edge is open, the group that was asked for is resolved.
pub proof fn law_group_is_resolved(options: Options, events: Seq<Event>)
    requires
        possible(options, events),
        events.len() > 0,
        events.last() is EdgeOpened,
    ensures
        options.group matches Some(group) ==> wanted(options, events)
            == (ActionView::ResolveGroup { named: Some(group@) }),
        options.group is None ==> wanted(options, events) == (ActionView::ResolveGroup {
            named: None,
        }),
{
    lemma_past(options, events.drop_last());
}

/// A region that was asked for is looked up by its name once the group is known.
/// Without one, the credentials come next.
pub proof fn law_region_is_looked_up(
    options: Options,
    events: Seq<Event>,
    result: Result<String, Failure>,
)
    requires
        possible(options, events),
        events.len() > 0,
        events.last() == Event::Group(result),
    ensures
        result matches Err(failure) ==> wanted(options, events) == ActionView::Finish(
            Err(RegisterErrorView::Group { cause: failure.text() }),
        ),
        result is Ok && options.region is Some ==> wanted(options, events)
            == (ActionView::FindRegion { name: options.region->0@ }),
        result is Ok && options.region is None ==> wanted(options, events)
            == ActionView::ReadEnvironment,
{
    lemma_past(options, events.drop_last());
}

/// A region exists exactly where one of those found, wherever it stands among
/// them, has the very name.
pub proof fn law_region_exists_where_it_is_found(
    found: Result<Vec<Region>, Failure>,
    name: Seq<char>,
)
    ensures
        found matches Ok(regions) ==> (region_check(found, name) is Ok <==> exists|i: int|
            0 <= i < regions@.len() && (#[trigger] regions@[i]).name@ == name),
        found is Ok && region_check(found, name) is Err ==> region_check(found, name)->Err_0 == (
        RegisterErrorView::RegionNotFound { name }),
        found matches Err(failure) ==> region_check(found, name) == Err::<(), _>(
            RegisterErrorView::RegionLookup { cause: failure.text() },
        ),
{
}

/// A registration goes on exactly where one of the regions found has the very name
/// that was asked for.
pub proof fn law_region_that_is_found_goes_on(
    options: Options,
    events: Seq<Event>,
    found: Result<Vec<Region>, Failure>,
)
    requires
        possible(options, events),
        events.len() > 0,
        events.last() == Event::Regions(found),
    ensures
        options.region matches Some(region) && match found {
            Ok(regions) => {
                let exists_so = exists|i: int|
                    0 <= i < regions@.len() && (#[trigger] regions@[i]).name@ == region@;
                &&& exists_so ==> wanted(options, events) == ActionView::ReadEnvironment
                &&& !exists_so ==> wanted(options, events) == ActionView::Finish(
                    Err(RegisterErrorView::RegionNotFound { name: region@ }),
                )
            },
            Err(failure) => wanted(options, events) == ActionView::Finish(
                Err(RegisterErrorView::RegionLookup { cause: failure.text() }),
            ),
        },
{
    lemma_region_kept(options, events.drop_last());
}

/// Without a terminal, the environment has to hold the password, and then the
/// appliance is logged in to. At a terminal the first credential that is missing
/// is asked for.
pub proof fn law_missing_credentials_are_asked_for(
    options: Options,
    events: Seq<Event>,
    user: Option<String>,
    password: Option<String>,
    interactive: bool,
)
    requires
        possible(options, events),
        events.len() > 0,
        events.last() == (Event::Environment { user, password, interactive }),
    ensures
        ({
            let action = wanted(options, events);
            let named = options.username is Some || user is Some;
            &&& !interactive && password is None ==> action == ActionView::Finish(
                Err(RegisterErrorView::PasswordRequired),
            )
            &&& !interactive && password is Some ==> action is Login
            &&& interactive && !named ==> action == (ActionView::Ask {
                prompt: "Username [admin]: "@,
            })
            &&& interactive && named && password is None ==> action == (ActionView::AskPassword {
                prompt: "Password: "@,
            })
            &&& interactive && named && password is Some ==> action is Login
        }),
{
    lemma_region_kept(options, events.drop_last());
}

/// A line that was typed is the username where that was asked for, and then the
/// password is asked for unless it is known. Otherwise it is the password.
pub proof fn law_typed_line_goes_on(
    options: Options,
    events: Seq<Event>,
    line: Result<String, Failure>,
)
    requires
        possible(options, events),
        events.len() > 0,
        events.last() == Event::Line(line),
    ensures
        line matches Err(failure) ==> wanted(options, events) == ActionView::Finish(
            Err(RegisterErrorView::Prompt { cause: failure.text() }),
        ),
        line is Ok ==> (environment(events) matches Some((_, known, _)) && {
            let username = given_username(options, events) is None && typed_lines(events).len()
                == 1;
            &&& username && known is None ==> wanted(options, events) == (ActionView::AskPassword {
                prompt: "Password: "@,
            })
            &&& !username || known is Some ==> wanted(options, events) is Login
        }),
{
    lemma_asked(options, events.drop_last());
    lemma_region_kept(options, events.drop_last());
}

/// A password that was typed logs in. One that could not be read unseen is asked
/// for as a line.
pub proof fn law_typed_password_goes_on(
    options: Options,
    events: Seq<Event>,
    password: Result<Option<String>, Failure>,
)
    requires
        possible(options, events),
        events.len() > 0,
        events.last() == Event::Password(password),
    ensures
        match password {
            Err(failure) => wanted(options, events) == ActionView::Finish(
                Err(RegisterErrorView::Prompt { cause: failure.text() }),
            ),
            Ok(Some(_)) => wanted(options, events) is Login,
            Ok(None) => wanted(options, events) == (ActionView::Ask { prompt: Seq::empty() }),
        },
{
    lemma_asked(options, events.drop_last());
    lemma_region_kept(options, events.drop_last());
    reveal_strlit("");
    assert(""@ =~= Seq::<char>::empty());
}

/// The user that logs in is the one that is given, by the option or else by the
/// environment, whatever is asked for besides. Where none is given it is the one
/// that was typed at the terminal, and `admin` where there is no terminal; at a
/// terminal `admin` stands for an empty name. The password is that of the
/// environment, or else the one that was typed.
pub proof fn law_login_uses_what_is_given(options: Options, events: Seq<Event>)
    requires
        possible(options, events),
        wanted(options, events) is Login,
    ensures
        environment(events) matches Some((_, known, interactive)) && {
            let given = given_username(options, events);
            let typed = typed_lines(events);
            let username = wanted(options, events)->username;
            let password = wanted(options, events)->password;
            &&& given is Some && given->0.len() > 0 ==> username == given->0
            &&& given is Some && !interactive ==> username == given->0
            &&& given is Some && given->0.len() == 0 && interactive ==> username == "admin"@
            &&& given is None && !interactive ==> username == "admin"@
            &&& given is None && interactive ==> typed.len() > 0
            &&& given is None && interactive && trimmed(typed[0]).len() > 0 ==> username == trimmed(
                typed[0],
            )
            &&& given is None && interactive && trimmed(typed[0]).len() == 0 ==> username
                == "admin"@
            &&& known is Some ==> password == known->0
            &&& known is None ==> interactive && typed_password(events) is Some
            &&& known is None && typed_password(events)->0 is Some ==> password == typed_password(
                events,
            )->0->0
            &&& known is None && typed_password(events)->0 is None ==> typed.len() > 0 && password
                == trimmed(typed.last())
        },
{
    let before = events.drop_last();
    lemma_asked(options, before);
    lemma_region_kept(options, before);
    lemma_action(options, events);
    match events.last() {
        Event::Environment { .. } => {},
        Event::Line(_) => {},
        Event::Password(_) => {},
        _ => {},
    }
}

/// An appliance that accepted the user is asked how it is registered, and any
/// other answer to the login ends the registration.
pub proof fn law_registration_is_asked_for(
    options: Options,
    events: Seq<Event>,
    reply: Reply<()>,
)
    requires
        possible(options, events),
        events.len() > 0,
        events.last() == Event::LoggedIn(reply),
    ensures
        ({
            let client = RegistrationView::start(options).appliance;
            let accepted = reply is Response && reply->status / 100 == 2;
            &&& accepted ==> wanted(options, events) == (ActionView::FetchStatus {
                url: normalized_url(options.url@) + "/api/edge-connect/status"@,
            })
            &&& !accepted ==> client.login(reply) is Err && wanted(options, events)
                == ActionView::Finish(Err(client.login(reply)->Err_0))
        }),
{
    lemma_past(options, events.drop_last());
}

/// An appliance that is not registered goes on to be, and so does a registered one
/// by force: by the name that was asked for, or else by its hostname. A registered
/// one is left alone otherwise, and the user is told where it is registered.
pub proof fn law_unregistered_appliance_goes_on(
    options: Options,
    events: Seq<Event>,
    reply: Reply<EdgeConnectStatus>,
)
    requires
        possible(options, events),
        events.len() > 0,
        events.last() == Event::Status(reply),
        !configuration_answered(events),
    ensures
        ({
            let client = RegistrationView::start(options).appliance;
            let action = wanted(options, events);
            let read = reply is Response && reply->status / 100 == 2 && reply->body is Ok;
            let report = reply->body->Ok_0;
            let free = options.force || report.status is NotConfigured;
            &&& read && free && options.name is Some ==> resolved_group(events) is Some && action
                == (ActionView::CreateToken { group: resolved_group(events)->0, role: "edge"@ })
            &&& read && free && options.name is None ==> action == (ActionView::FetchHostname {
                url: normalized_url(options.url@) + "/api/system-info"@,
            })
            &&& read && !free && report.edge_url is Some ==> action == ActionView::Finish(
                Err(
                    RegisterErrorView::AlreadyRegistered { with: Some(report.edge_url->0@) },
                ),
            )
            &&& read && !free && report.edge_url is None ==> action == ActionView::Finish(
                Err(RegisterErrorView::AlreadyRegistered { with: None }),
            )
            &&& !read ==> client.edge_connect_status(reply) is Err && action == ActionView::Finish(
                Err(client.edge_connect_status(reply)->Err_0),
            )
        }),
{
    let before = events.drop_last();
    lemma_past(options, before);
    lemma_group(options, before);
    lemma_configuration_answered(options, before);
    if configuration_answered(before) {
        let i = choose|i: int| 0 <= i < before.len() && (#[trigger] before[i]) is Configured;
        assert(events[i] is Configured);
    }
}

/// A hostname that can be read is followed by a token for the group, and any other
/// answer ends the registration.
pub proof fn law_hostname_goes_on(
    options: Options,
    events: Seq<Event>,
    reply: Reply<SystemInfo>,
)
    requires
        possible(options, events),
        events.len() > 0,
        events.last() == Event::Hostname(reply),
    ensures
        ({
            let client = RegistrationView::start(options).appliance;
            let read = reply is Response && reply->status / 100 == 2 && reply->body is Ok;
            &&& read ==> resolved_group(events) is Some && wanted(options, events) == (
            ActionView::CreateToken { group: resolved_group(events)->0, role: "edge"@ })
            &&& !read ==> client.hostname(reply) is Err && wanted(options, events)
                == ActionView::Finish(Err(client.hostname(reply)->Err_0))
        }),
{
    lemma_past(options, events.drop_last());
    lemma_group(options, events.drop_last());
}

/// A token that was created is sent to the appliance, with the URL at which Nimbra
/// Edge was opened, the name of the device, and the region and the permission that
/// were asked for.
pub proof fn law_token_is_sent(
    options: Options,
    events: Seq<Event>,
    result: Result<String, Failure>,
)
    requires
        possible(options, events),
        events.len() > 0,
        events.last() == Event::Token(result),
    ensures
        match result {
            Ok(secret) => opened_url(events) is Some && device(options, events) is Some && wanted(
                options,
                events,
            ) == (ActionView::Configure {
                url: normalized_url(options.url@) + "/api/management"@,
                config: ManagementConfigView {
                    edge_url: opened_url(events)->0,
                    device_name: device(options, events)->0,
                    secret: secret@,
                    edge_role: "edge"@,
                    region: match options.region {
                        Some(region) => Some(region@),
                        None => None,
                    },
                    allow_self_signed_certs: options.allow_self_signed,
                },
            }),
            Err(failure) => wanted(options, events) == ActionView::Finish(
                Err(RegisterErrorView::Token { cause: failure.text() }),
            ),
        },
{
    lemma_past(options, events.drop_last());
    lemma_opened(options, events.drop_last());
    lemma_named(options, events.drop_last());
}

/// A configuration that was accepted starts the clock, and any other answer ends
/// the registration.
pub proof fn law_accepted_configuration_starts_the_clock(
    options: Options,
    events: Seq<Event>,
    reply: Reply<()>,
)
    requires
        possible(options, events),
        events.len() > 0,
        events.last() == Event::Configured(reply),
    ensures
        ({
            let client = RegistrationView::start(options).appliance;
            let accepted = reply is Response && reply->status / 100 == 2;
            &&& accepted ==> wanted(options, events) == ActionView::StartClock
            &&& !accepted ==> client.set_management_config(reply) is Err && wanted(options, events)
                == ActionView::Finish(Err(client.set_management_config(reply)->Err_0))
        }),
{
    lemma_past(options, events.drop_last());
}

/// While the two minutes are not over there is a pause of two seconds. Once they
/// are, the user is told the URL at which Nimbra Edge was opened, and what the
/// appliance last reported.
pub proof fn law_clock_decides_the_waiting(options: Options, events: Seq<Event>, elapsed: u128)
    requires
        possible(options, events),
        events.len() > 0,
        events.last() == Event::Elapsed(elapsed),
    ensures
        elapsed < 120_000_000_000 ==> wanted(options, events) == (ActionView::Sleep { seconds: 2 }),
        elapsed >= 120_000_000_000 ==> opened_url(events) is Some && wanted(options, events)
            == ActionView::Finish(
            Err(
                RegisterErrorView::NotConnected {
                    edge_url: opened_url(events)->0,
                    status: match last_report(events) {
                        Some(report) => report.status.text(),
                        None => "unknown"@,
                    },
                    error: match last_report(events) {
                        Some(report) => report.error,
                        None => None,
                    },
                },
            ),
        ),
{
    let before = events.drop_last();
    lemma_opened(options, before);
    lemma_last_report(options, before);
    assert(kept_report(after(options, before).stage) == last_report(before));
}

/// Behind each pause the appliance is asked how it is registered.
pub proof fn law_pause_is_followed_by_a_look(options: Options, events: Seq<Event>)
    requires
        possible(options, events),
        events.len() > 0,
        events.last() is Slept,
    ensures
        wanted(options, events) == (ActionView::FetchStatus {
            url: normalized_url(options.url@) + "/api/edge-connect/status"@,
        }),
{
    lemma_past(options, events.drop_last());
}

/// Once it is configured, an appliance that reports that it is connected is
/// registered, whatever else it reports: the registration ends there, and names
/// the device and the URL that were configured. After any other answer the clock
/// is read.
pub proof fn law_connected_appliance_is_registered(
    options: Options,
    events: Seq<Event>,
    reply: Reply<EdgeConnectStatus>,
)
    requires
        possible(options, events),
        events.len() > 0,
        events.last() == Event::Status(reply),
        configuration_answered(events),
    ensures
        ({
            let connected = reply is Response && reply->status / 100 == 2 && reply->body is Ok
                && reply->body->Ok_0.status is Connected;
            &&& connected ==> device(options, events) is Some && opened_url(events) is Some
                && wanted(options, events) == ActionView::Finish(
                Ok(
                    "Registered appliance '"@ + device(options, events)->0 + "' with "@
                        + opened_url(events)->0,
                ),
            )
            &&& !connected ==> wanted(options, events) == ActionView::ReadClock
        }),
{
    let before = events.drop_last();
    lemma_opened(options, before);
    lemma_named(options, before);
    lemma_configuration_answered(options, before);
    let i = choose|i: int| 0 <= i < events.len() && (#[trigger] events[i]) is Configured;
    assert(before[i] is Configured);
}

/// An action is what is to be done, field by field.
pub proof fn law_action_holds_every_field(action: Action)
    ensures
        match action {
            Action::CreateClient { insecure, timeout_secs } => action@
                == (ActionView::CreateClient { insecure, timeout_secs }),
            Action::FetchVersion { url } => action@ == (ActionView::FetchVersion { url: url@ }),
            Action::OpenEdge { notice } => action@ == (ActionView::OpenEdge { notice: notice@ }),
            Action::ResolveGroup { named } => action@ matches ActionView::ResolveGroup {
                named: text,
            } && (text is Some <==> named is Some) && (named is Some ==> text == Some(named->0@)),
            Action::FindRegion { name } => action@ == (ActionView::FindRegion { name: name@ }),
            Action::ReadEnvironment => action@ == ActionView::ReadEnvironment,
            Action::Ask { prompt } => action@ == (ActionView::Ask { prompt: prompt@ }),
            Action::AskPassword { prompt } => action@ == (ActionView::AskPassword {
                prompt: prompt@,
            }),
            Action::Login { url, username, password } => action@ == (ActionView::Login {
                url: url@,
                username: username@,
                password: password@,
            }),
            Action::FetchStatus { url } => action@ == (ActionView::FetchStatus { url: url@ }),
            Action::FetchHostname { url } => action@ == (ActionView::FetchHostname { url: url@ }),
            Action::CreateToken { group, role } => action@ == (ActionView::CreateToken {
                group: group@,
                role: role@,
            }),
            Action::Configure { url, config } => action@ == (ActionView::Configure {
                url: url@,
                config: config@,
            }),
            Action::StartClock => action@ == ActionView::StartClock,
            Action::ReadClock => action@ == ActionView::ReadClock,
            Action::Sleep { seconds } => action@ == (ActionView::Sleep { seconds }),
            Action::Finish(Ok(line)) => action@ == ActionView::Finish(Ok(line@)),
            Action::Finish(Err(error)) => action@ == ActionView::Finish(Err(error@)),
        },
{
}

} // verus!
