//! What holds of every registration, whatever events it meets.

use vstd::prelude::*;

use crate::appliance::{successful, EdgeConnectStatusView, Reply};
use crate::error::RegisterErrorView;
use crate::failure::Failure;
use crate::register::{
    has_region, ActionView, Event, Options, RegistrationView, StageView, CONNECT_TIMEOUT_NANOS,
    POLL_INTERVAL_SECS, REQUEST_TIMEOUT_SECS,
};
use crate::text::{law_trimmed_off_the_end, optional_text, without_trailing};
use crate::url::normalized_url;

verus! {

/// Where a registration stands after a number of events.
pub open spec fn after(options: Options, events: Seq<Event>) -> RegistrationView
    decreases events.len(),
{
    if events.len() == 0 {
        RegistrationView::start(options)
    } else {
        after(options, events.drop_last()).next(events.last()).0
    }
}

/// What a registration wants done after a number of events.
pub open spec fn wanted(options: Options, events: Seq<Event>) -> ActionView {
    if events.len() == 0 {
        ActionView::CreateClient {
            insecure: options.insecure,
            timeout_secs: REQUEST_TIMEOUT_SECS,
        }
    } else {
        after(options, events.drop_last()).next(events.last()).1
    }
}

/// Whether each event is one that the registration waited for.
pub open spec fn possible(options: Options, events: Seq<Event>) -> bool
    decreases events.len(),
{
    events.len() == 0 || (possible(options, events.drop_last()) && after(
        options,
        events.drop_last(),
    ).awaits(events.last()))
}

/// Whether one of the events is of a kind.
pub open spec fn happened(events: Seq<Event>, kind: spec_fn(Event) -> bool) -> bool {
    exists|i: int| 0 <= i < events.len() && kind(#[trigger] events[i])
}

/// The appliance was found to be one.
pub open spec fn found() -> spec_fn(Event) -> bool {
    |event: Event|
        event matches Event::Version(Reply::Response { status, body, .. }) && successful(status)
            && body is Ok
}

/// The appliance accepted the user.
pub open spec fn logged_in() -> spec_fn(Event) -> bool {
    |event: Event|
        event matches Event::LoggedIn(Reply::Response { status, .. }) && successful(status)
}

/// The appliance reported that it is not registered.
pub open spec fn unregistered() -> spec_fn(Event) -> bool {
    |event: Event|
        event matches Event::Status(Reply::Response { status, body: Ok(report), .. }) && successful(
            status,
        ) && report.status@ is NotConfigured
}

/// The appliance accepted its configuration.
pub open spec fn configured() -> spec_fn(Event) -> bool {
    |event: Event|
        event matches Event::Configured(Reply::Response { status, .. }) && successful(status)
}

/// The appliance reported that it is connected.
pub open spec fn connected() -> spec_fn(Event) -> bool {
    |event: Event|
        event matches Event::Status(Reply::Response { status, body: Ok(report), .. }) && successful(
            status,
        ) && report.status@ is Connected
}

/// There is a terminal.
pub open spec fn at_terminal() -> spec_fn(Event) -> bool {
    |event: Event| event matches Event::Environment { interactive: true, .. }
}

/// How far a stage is from the start.
pub open spec fn progress(stage: StageView) -> int {
    match stage {
        StageView::CreatingClient => 0,
        StageView::FetchingVersion => 1,
        StageView::OpeningEdge => 2,
        StageView::ResolvingGroup { .. } => 3,
        StageView::FindingRegion { .. } => 4,
        StageView::ReadingEnvironment { .. } => 5,
        StageView::Asking { .. } => 6,
        StageView::LoggingIn { .. } => 7,
        StageView::FetchingStatus { .. } => 8,
        StageView::FetchingHostname { .. } => 9,
        StageView::CreatingToken { .. } => 10,
        StageView::Configuring { .. } => 11,
        StageView::ReadingClock { .. } => 12,
        StageView::Sleeping { .. } => 12,
        StageView::Polling { .. } => 12,
        StageView::Finished => 13,
    }
}

/// The URL of Nimbra Edge that a stage knows.
pub open spec fn edge_url_of(stage: StageView) -> Option<Seq<char>> {
    match stage {
        StageView::ResolvingGroup { edge_url } => Some(edge_url),
        StageView::FindingRegion { edge_url, .. } => Some(edge_url),
        StageView::ReadingEnvironment { edge_url, .. } => Some(edge_url),
        StageView::Asking { edge_url, .. } => Some(edge_url),
        StageView::LoggingIn { edge_url, .. } => Some(edge_url),
        StageView::FetchingStatus { edge_url, .. } => Some(edge_url),
        StageView::FetchingHostname { edge_url, .. } => Some(edge_url),
        StageView::CreatingToken { edge_url, .. } => Some(edge_url),
        StageView::Configuring { edge_url, .. } => Some(edge_url),
        StageView::ReadingClock { edge_url, .. } => Some(edge_url),
        StageView::Sleeping { edge_url, .. } => Some(edge_url),
        StageView::Polling { edge_url, .. } => Some(edge_url),
        _ => None,
    }
}

/// The name that a stage knows.
pub open spec fn name_of(stage: StageView) -> Option<Seq<char>> {
    match stage {
        StageView::CreatingToken { name, .. } => Some(name),
        StageView::Configuring { name, .. } => Some(name),
        StageView::ReadingClock { name, .. } => Some(name),
        StageView::Sleeping { name, .. } => Some(name),
        StageView::Polling { name, .. } => Some(name),
        _ => None,
    }
}

/// Nimbra Edge was reached at a URL that is `edge_url` but for slashes at its
/// end.
pub open spec fn opened_at(edge_url: Seq<char>) -> spec_fn(Event) -> bool {
    |event: Event|
        event matches Event::EdgeOpened { url } && without_trailing(url@, '/') == edge_url
}

/// The group that a stage knows.
pub open spec fn group_of(stage: StageView) -> Option<Seq<char>> {
    match stage {
        StageView::FindingRegion { group, .. } => Some(group),
        StageView::ReadingEnvironment { group, .. } => Some(group),
        StageView::Asking { group, .. } => Some(group),
        StageView::LoggingIn { group, .. } => Some(group),
        StageView::FetchingStatus { group, .. } => Some(group),
        StageView::FetchingHostname { group, .. } => Some(group),
        _ => None,
    }
}

/// A region was found that has the very name.
pub open spec fn region_found(name: Seq<char>) -> spec_fn(Event) -> bool {
    |event: Event| event matches Event::Regions(Ok(regions)) && has_region(regions@, name)
}

/// The hostname that the appliance last reported.
pub open spec fn reported_hostname(events: Seq<Event>) -> Option<Seq<char>>
    decreases events.len(),
{
    if events.len() == 0 {
        None
    } else {
        match events.last() {
            Event::Hostname(Reply::Response { status, body: Ok(info), .. }) if successful(
                status,
            ) => Some(info.hostname@),
            _ => reported_hostname(events.drop_last()),
        }
    }
}

/// The group that was last resolved.
pub open spec fn resolved_group(events: Seq<Event>) -> Option<Seq<char>>
    decreases events.len(),
{
    if events.len() == 0 {
        None
    } else {
        match events.last() {
            Event::Group(Ok(group)) => Some(group@),
            _ => resolved_group(events.drop_last()),
        }
    }
}

/// How often a registration has wanted an action of a kind done, from its start
/// up to now.
pub open spec fn times(
    options: Options,
    events: Seq<Event>,
    kind: spec_fn(ActionView) -> bool,
) -> nat
    decreases events.len(),
{
    (if events.len() == 0 {
        0nat
    } else {
        times(options, events.drop_last(), kind)
    }) + (if kind(wanted(options, events)) {
        1nat
    } else {
        0nat
    })
}

/// What is true at each stage of what happened before.
pub open spec fn past(options: Options, events: Seq<Event>) -> bool {
    let now = after(options, events);
    let stage = now.stage;
    &&& now.options == options
    &&& now.appliance == RegistrationView::start(options).appliance
    &&& 2 <= progress(stage) <= 12 ==> happened(events, found())
    &&& edge_url_of(stage) matches Some(edge_url) ==> happened(events, opened_at(edge_url))
    &&& stage matches StageView::Asking { credentials, .. } ==> !(credentials is Complete)
        && happened(events, at_terminal())
    &&& 8 <= progress(stage) <= 12 ==> happened(events, logged_in())
    &&& 9 <= progress(stage) <= 12 ==> options.force || happened(events, unregistered())
    &&& stage is FetchingHostname ==> options.name is None
    &&& name_of(stage) matches Some(name) ==> options.name matches Some(given) ==> name == given@
    &&& progress(stage) == 12 ==> happened(events, configured())
    &&& stage is Sleeping ==> events.len() > 0 && events.last() is Elapsed
        && events.last()->Elapsed_0 < CONNECT_TIMEOUT_NANOS
    &&& stage is Polling ==> events.len() > 0 && events.last() is Slept
}

proof fn lemma_happened_before(events: Seq<Event>, kind: spec_fn(Event) -> bool)
    requires
        events.len() > 0,
        happened(events.drop_last(), kind),
    ensures
        happened(events, kind),
{
    let i = choose|i: int|
        0 <= i < events.drop_last().len() && kind(#[trigger] events.drop_last()[i]);
    assert(events[i] == events.drop_last()[i]);
}

proof fn lemma_happened_now(events: Seq<Event>, kind: spec_fn(Event) -> bool)
    requires
        events.len() > 0,
        kind(events.last()),
    ensures
        happened(events, kind),
{
    assert(kind(events[events.len() - 1]));
}

/// What has happened stays so, and what happens now has happened.
pub proof fn lemma_keeps(events: Seq<Event>, kind: spec_fn(Event) -> bool)
    ensures
        events.len() > 0 && (happened(events.drop_last(), kind) || kind(events.last()))
            ==> happened(events, kind),
{
    if events.len() > 0 {
        if happened(events.drop_last(), kind) {
            lemma_happened_before(events, kind);
        }
        if kind(events.last()) {
            lemma_happened_now(events, kind);
        }
    }
}

/// What a step leaves as it was, and what it takes to come to a stage.
pub proof fn lemma_step(now: RegistrationView, event: Event)
    requires
        now.awaits(event),
    ensures
        ({
            let then = now.next(event).0;
            let far = progress(now.stage);
            &&& then.options == now.options
            &&& then.appliance == now.appliance
            &&& far <= progress(then.stage) <= 13
            &&& 2 <= progress(then.stage) <= 12 ==> far >= 2 || found()(event)
            &&& edge_url_of(then.stage) matches Some(edge_url) ==> edge_url_of(now.stage) == Some(
                edge_url,
            ) || opened_at(edge_url)(event)
            &&& then.stage matches StageView::Asking { credentials, .. } ==> !(
            credentials is Complete) && (now.stage is Asking || at_terminal()(event))
            &&& 8 <= progress(then.stage) <= 12 ==> far >= 8 || logged_in()(event)
            &&& 9 <= progress(then.stage) <= 12 ==> far >= 9 || now.options.force
                || unregistered()(event)
            &&& name_of(then.stage) matches Some(name) ==> name_of(now.stage) == Some(name)
                || now.options.name is None || now.options.name->0@ == name || now.stage
                is FetchingHostname
            &&& then.stage is FetchingHostname ==> now.options.name is None
            &&& progress(then.stage) == 12 ==> far == 12 || configured()(event)
            &&& then.stage is Sleeping ==> event is Elapsed && event->Elapsed_0
                < CONNECT_TIMEOUT_NANOS
            &&& then.stage is Polling ==> event is Slept
        }),
{
    match now.stage {
        StageView::CreatingClient => {},
        StageView::FetchingVersion => {},
        StageView::OpeningEdge => {},
        StageView::ResolvingGroup { .. } => {},
        StageView::FindingRegion { .. } => {},
        StageView::ReadingEnvironment { .. } => {},
        StageView::Asking { .. } => {},
        StageView::LoggingIn { .. } => {},
        StageView::FetchingStatus { .. } => {},
        StageView::FetchingHostname { .. } => {},
        StageView::CreatingToken { .. } => {},
        StageView::Configuring { .. } => {},
        StageView::ReadingClock { .. } => {},
        StageView::Sleeping { .. } => {},
        StageView::Polling { .. } => {},
        StageView::Finished => {},
    }
}

/// What is true at each stage holds after any events.
pub proof fn lemma_past(options: Options, events: Seq<Event>)
    requires
        possible(options, events),
    ensures
        past(options, events),
    decreases events.len(),
{
    if events.len() > 0 {
        let before = events.drop_last();
        lemma_past(options, before);
        lemma_step(after(options, before), events.last());
        lemma_keeps(events, found());
        lemma_keeps(events, logged_in());
        lemma_keeps(events, unregistered());
        lemma_keeps(events, configured());
        lemma_keeps(events, at_terminal());
        match edge_url_of(after(options, events).stage) {
            Some(edge_url) => lemma_keeps(events, opened_at(edge_url)),
            None => {},
        }
    }
}

/// The action that a stage goes with.
pub open spec fn fits(stage: StageView, action: ActionView) -> bool {
    match action {
        ActionView::CreateClient { .. } => stage is CreatingClient,
        ActionView::FetchVersion { .. } => stage is FetchingVersion,
        ActionView::OpenEdge { .. } => stage is OpeningEdge,
        ActionView::ResolveGroup { .. } => stage is ResolvingGroup,
        ActionView::FindRegion { .. } => stage is FindingRegion,
        ActionView::ReadEnvironment => stage is ReadingEnvironment,
        ActionView::Ask { .. } => stage is Asking,
        ActionView::AskPassword { .. } => stage is Asking,
        ActionView::Login { .. } => stage is LoggingIn,
        ActionView::FetchStatus { .. } => stage is FetchingStatus || stage is Polling,
        ActionView::FetchHostname { .. } => stage is FetchingHostname,
        ActionView::CreateToken { .. } => stage is CreatingToken,
        ActionView::Configure { .. } => stage is Configuring,
        ActionView::StartClock => stage is ReadingClock,
        ActionView::ReadClock => stage is ReadingClock,
        ActionView::Sleep { seconds } => stage is Sleeping && seconds == POLL_INTERVAL_SECS,
        ActionView::Finish(_) => stage is Finished,
    }
}

/// What is wanted goes with the stage.
pub proof fn lemma_action(options: Options, events: Seq<Event>)
    requires
        possible(options, events),
    ensures
        fits(after(options, events).stage, wanted(options, events)),
{
}

proof fn lemma_urls(now: RegistrationView, event: Event)
    requires
        now.awaits(event),
    ensures
        now.next(event).1 matches ActionView::Login { url, .. } ==> url == now.appliance.url
            + "/api/auth/login"@,
        now.next(event).1 matches ActionView::Configure { url, config } ==> {
            &&& url == now.appliance.url + "/api/management"@
            &&& edge_url_of(now.stage) == Some(config.edge_url)
            &&& name_of(now.stage) == Some(config.device_name)
            &&& event is Token && event->Token_0 is Ok && config.secret == event->Token_0->Ok_0@
            &&& config.edge_role == "edge"@
            &&& config.region == optional_text(now.options.region)
            &&& config.allow_self_signed_certs == now.options.allow_self_signed
        },
{
}

proof fn lemma_success(now: RegistrationView, event: Event)
    requires
        now.awaits(event),
        now.next(event).1 matches ActionView::Finish(Ok(_)),
    ensures
        now.stage is Polling,
        connected()(event),
{
}

proof fn lemma_configured_is_waiting(options: Options, events: Seq<Event>)
    requires
        possible(options, events),
        happened(events, configured()),
    ensures
        progress(after(options, events).stage) >= 12,
    decreases events.len(),
{
    let before = events.drop_last();
    lemma_step(after(options, before), events.last());
    if happened(before, configured()) {
        lemma_configured_is_waiting(options, before);
    } else {
        let i = choose|i: int| 0 <= i < events.len() && configured()(#[trigger] events[i]);
        if i < before.len() {
            assert(before[i] == events[i]);
        }
        assert(configured()(events.last()));
    }
}

proof fn lemma_pauses(options: Options, events: Seq<Event>)
    requires
        possible(options, events),
        clock_counts_pauses(events),
    ensures
        pauses(events) <= 60,
        progress(after(options, events).stage) < 12 ==> pauses(events) == 0,
        after(options, events).stage is Sleeping ==> pauses(events) < 60,
    decreases events.len(),
{
    if events.len() > 0 {
        let before = events.drop_last();
        lemma_pauses(options, before);
        lemma_step(after(options, before), events.last());
    }
}

proof fn lemma_end_of_waiting(now: RegistrationView, event: Event)
    requires
        now.awaits(event),
        progress(now.stage) == 12 || configured()(event),
        now.next(event).1 is Finish,
    ensures
        match now.next(event).1->Finish_0 {
            Ok(_) => connected()(event),
            Err(error) => error is NotConnected && event is Elapsed && event->Elapsed_0
                >= CONNECT_TIMEOUT_NANOS,
        },
{
}

/// The report that a stage keeps.
pub open spec fn kept_report(stage: StageView) -> Option<EdgeConnectStatusView> {
    match stage {
        StageView::ReadingClock { last, .. } => last,
        StageView::Sleeping { last, .. } => last,
        StageView::Polling { last, .. } => last,
        _ => None,
    }
}

/// The report that a stage keeps is the last one.
pub proof fn lemma_last_report(options: Options, events: Seq<Event>)
    requires
        possible(options, events),
    ensures
        progress(after(options, events).stage) == 12 ==> kept_report(after(options, events).stage)
            == last_report(events),
    decreases events.len(),
{
    if events.len() > 0 {
        lemma_last_report(options, events.drop_last());
    }
}

proof fn lemma_deadline(now: RegistrationView, event: Event)
    requires
        now.awaits(event),
        now.next(event).1 matches ActionView::Finish(Err(RegisterErrorView::NotConnected { .. })),
    ensures
        now.stage is ReadingClock,
        event is Elapsed,
        now.next(event).1->Finish_0->Err_0 matches RegisterErrorView::NotConnected {
            status,
            error,
            ..
        } && match kept_report(now.stage) {
            Some(report) => status == report.status.text() && error == report.error,
            None => status == "unknown"@ && error is None,
        },
{
}

/// Where no name is given, the name that a stage knows is the reported hostname.
pub proof fn lemma_hostname(options: Options, events: Seq<Event>)
    requires
        possible(options, events),
        options.name is None,
    ensures
        name_of(after(options, events).stage) matches Some(name) ==> reported_hostname(events)
            == Some(name),
    decreases events.len(),
{
    if events.len() > 0 {
        let before = events.drop_last();
        lemma_hostname(options, before);
        lemma_past(options, before);
        lemma_step(after(options, before), events.last());
    }
}

/// The group that a stage knows is the one resolved.
pub proof fn lemma_group(options: Options, events: Seq<Event>)
    requires
        possible(options, events),
    ensures
        group_of(after(options, events).stage) matches Some(group) ==> resolved_group(events)
            == Some(group),
    decreases events.len(),
{
    if events.len() > 0 {
        lemma_group(options, events.drop_last());
    }
}

proof fn lemma_token(now: RegistrationView, event: Event)
    requires
        now.awaits(event),
    ensures
        now.next(event).1 matches ActionView::CreateToken { group, role } ==> {
            &&& group_of(now.stage) == Some(group)
            &&& !(event is Group)
            &&& role == "edge"@
            &&& progress(now.stage) < 10
        },
        now.next(event).1 is Configure ==> progress(now.stage) == 10,
        now.next(event).1 matches ActionView::ResolveGroup { named } ==> named == optional_text(
            now.options.group,
        ),
{
}

proof fn lemma_times(options: Options, events: Seq<Event>)
    requires
        possible(options, events),
    ensures
        times(options, events, |action: ActionView| action is CreateToken) <= 1,
        times(options, events, |action: ActionView| action is Configure) <= 1,
        progress(after(options, events).stage) < 10 ==> times(
            options,
            events,
            |action: ActionView| action is CreateToken,
        ) == 0,
        progress(after(options, events).stage) < 11 ==> times(
            options,
            events,
            |action: ActionView| action is Configure,
        ) == 0,
    decreases events.len(),
{
    if events.len() > 0 {
        let before = events.drop_last();
        lemma_times(options, before);
        lemma_step(after(options, before), events.last());
        lemma_token(after(options, before), events.last());
        lemma_action(options, events);
    }
}

proof fn lemma_region_step(now: RegistrationView, event: Event, region: String)
    requires
        now.awaits(event),
        now.options.region == Some(region),
        now.stage matches StageView::FindingRegion { region: known, .. } ==> known == region@,
    ensures
        ({
            let then = now.next(event).0;
            &&& then.stage matches StageView::FindingRegion { region: known, .. } ==> known
                == region@
            &&& 5 <= progress(then.stage) <= 12 ==> progress(now.stage) >= 5 || region_found(
                region@,
            )(event)
        }),
{
}

proof fn lemma_region(options: Options, events: Seq<Event>, region: String)
    requires
        possible(options, events),
        options.region == Some(region),
    ensures
        ({
            let stage = after(options, events).stage;
            &&& stage matches StageView::FindingRegion { region: known, .. } ==> known == region@
            &&& 5 <= progress(stage) <= 12 ==> happened(events, region_found(region@))
        }),
    decreases events.len(),
{
    if events.len() > 0 {
        let before = events.drop_last();
        lemma_region(options, before, region);
        lemma_past(options, before);
        lemma_step(after(options, before), events.last());
        lemma_region_step(after(options, before), events.last(), region);
        lemma_keeps(events, region_found(region@));
    }
}

/// A registered appliance is left alone: unless forced, no token is created for
/// an appliance, and no configuration is sent to it, that has not reported that
/// it is not registered.
pub proof fn law_registered_appliance_is_left_alone(options: Options, events: Seq<Event>)
    requires
        possible(options, events),
        !options.force,
        wanted(options, events) is CreateToken || wanted(options, events) is Configure,
    ensures
        happened(events, unregistered()),
{
    lemma_past(options, events);
    lemma_action(options, events);
}

/// Nothing is created or configured before the appliance was found to be one and
/// has accepted the user.
pub proof fn law_login_comes_first(options: Options, events: Seq<Event>)
    requires
        possible(options, events),
        wanted(options, events) is CreateToken || wanted(options, events) is Configure,
    ensures
        happened(events, found()),
        happened(events, logged_in()),
{
    lemma_past(options, events);
    lemma_action(options, events);
}

/// The user's credentials go to nothing that was not found to be an appliance,
/// and only to the URL that the user gave.
pub proof fn law_credentials_go_to_the_appliance(options: Options, events: Seq<Event>)
    requires
        possible(options, events),
        wanted(options, events) is Login,
    ensures
        happened(events, found()),
        wanted(options, events)->Login_url == normalized_url(options.url@) + "/api/auth/login"@,
{
    lemma_past(options, events);
    lemma_action(options, events);
    lemma_past(options, events.drop_last());
    lemma_urls(after(options, events.drop_last()), events.last());
}

/// Nobody is asked for anything where there is no terminal.
pub proof fn law_asks_only_at_a_terminal(options: Options, events: Seq<Event>)
    requires
        possible(options, events),
        wanted(options, events) is Ask || wanted(options, events) is AskPassword,
    ensures
        happened(events, at_terminal()),
{
    lemma_past(options, events);
    lemma_action(options, events);
}

/// The configuration that is sent is the one that was asked for: the region and
/// the permission are the user's, so is the name where one was given, and where
/// none was it is the hostname that the appliance reported. The secret is that of
/// the token just created, and the URL of Nimbra Edge stands without slashes at
/// its end.
pub proof fn law_configuration_is_as_asked(options: Options, events: Seq<Event>)
    requires
        possible(options, events),
        wanted(options, events) is Configure,
    ensures
        ({
            let config = wanted(options, events)->config;
            &&& wanted(options, events)->Configure_url == normalized_url(options.url@)
                + "/api/management"@
            &&& happened(events, opened_at(config.edge_url))
            &&& config.edge_url.len() > 0 ==> config.edge_url.last() != '/'
            &&& options.name matches Some(name) ==> config.device_name == name@
            &&& options.name is None ==> reported_hostname(events) == Some(config.device_name)
            &&& events.last() is Token && events.last()->Token_0 is Ok && config.secret
                == events.last()->Token_0->Ok_0@
            &&& config.edge_role == "edge"@
            &&& config.region == optional_text(options.region)
            &&& config.allow_self_signed_certs == options.allow_self_signed
        }),
{
    lemma_past(options, events);
    lemma_action(options, events);
    lemma_past(options, events.drop_last());
    lemma_urls(after(options, events.drop_last()), events.last());
    if options.name is None {
        lemma_hostname(options, events.drop_last());
    }
    let edge_url = wanted(options, events)->config.edge_url;
    let i = choose|i: int|
        0 <= i < events.len() && opened_at(edge_url)(#[trigger] events[i]);
    law_trimmed_off_the_end(events[i]->EdgeOpened_url@, '/');
}

/// A token is created for the group that was resolved, and the group to resolve
/// is the one that the user named.
pub proof fn law_token_is_for_the_group(options: Options, events: Seq<Event>)
    requires
        possible(options, events),
    ensures
        wanted(options, events) matches ActionView::CreateToken { group, role } ==> resolved_group(
            events,
        ) == Some(group) && role == "edge"@,
        wanted(options, events) matches ActionView::ResolveGroup { named } ==> named
            == optional_text(options.group),
{
    if events.len() > 0 {
        let before = events.drop_last();
        lemma_group(options, before);
        lemma_past(options, before);
        lemma_token(after(options, before), events.last());
    }
}

/// A registration creates at most one token, and sends at most one configuration.
pub proof fn law_one_token_and_one_configuration(options: Options, events: Seq<Event>)
    requires
        possible(options, events),
    ensures
        times(options, events, |action: ActionView| action is CreateToken) <= 1,
        times(options, events, |action: ActionView| action is Configure) <= 1,
{
    lemma_times(options, events);
}

/// Where the user names a region, it was found before anyone is asked or logged
/// in, and so before anything is created or configured.
pub proof fn law_region_is_found_first(options: Options, events: Seq<Event>)
    requires
        possible(options, events),
        options.region is Some,
        ({
            let action = wanted(options, events);
            ||| action is ReadEnvironment
            ||| action is Ask
            ||| action is AskPassword
            ||| action is Login
            ||| action is CreateToken
            ||| action is Configure
        }),
    ensures
        happened(events, region_found(options.region->0@)),
{
    lemma_region(options, events, options.region->0);
    lemma_action(options, events);
}

/// A registration succeeds only on the appliance's own word: it had accepted its
/// configuration, and when asked after a pause it reported that it is connected.
pub proof fn law_success_means_connected(options: Options, events: Seq<Event>)
    requires
        possible(options, events),
        wanted(options, events) matches ActionView::Finish(Ok(_)),
    ensures
        events.len() >= 2,
        connected()(events.last()),
        events[events.len() - 2] is Slept,
        happened(events.drop_last(), configured()),
{
    let before = events.drop_last();
    lemma_past(options, before);
    lemma_success(after(options, before), events.last());
    assert(before.last() == events[events.len() - 2]);
}

/// An appliance is looked at only after a pause, so that it is not caught with
/// the connection that it had before it was configured.
pub proof fn law_pause_before_each_look(options: Options, events: Seq<Event>)
    requires
        possible(options, events),
        wanted(options, events) is FetchStatus,
        happened(events, configured()),
    ensures
        events.last() is Slept,
{
    lemma_past(options, events);
    lemma_action(options, events);
    lemma_configured_is_waiting(options, events);
}

/// No pause, and so no further look, begins once the time is up.
pub proof fn law_no_pause_after_the_deadline(options: Options, events: Seq<Event>)
    requires
        possible(options, events),
        wanted(options, events) is Sleep,
    ensures
        events.last() matches Event::Elapsed(elapsed) && elapsed < CONNECT_TIMEOUT_NANOS,
        wanted(options, events) == (ActionView::Sleep { seconds: POLL_INTERVAL_SECS }),
{
    lemma_past(options, events);
    lemma_action(options, events);
}

/// Once an appliance has accepted its configuration there are two ways for its
/// registration to end: it reports that it is connected, or the time is up. A
/// request that fails meanwhile is not one of them.
pub proof fn law_waiting_ends_by_connection_or_deadline(options: Options, events: Seq<Event>)
    requires
        possible(options, events),
        happened(events, configured()),
        wanted(options, events) is Finish,
    ensures
        match wanted(options, events)->Finish_0 {
            Ok(_) => connected()(events.last()),
            Err(error) => error is NotConnected && events.last() is Elapsed
                && events.last()->Elapsed_0 >= CONNECT_TIMEOUT_NANOS,
        },
{
    let before = events.drop_last();
    if happened(before, configured()) {
        lemma_configured_is_waiting(options, before);
    } else {
        let i = choose|i: int| 0 <= i < events.len() && configured()(#[trigger] events[i]);
        if i < before.len() {
            assert(before[i] == events[i]);
        }
        assert(configured()(events.last()));
    }
    lemma_end_of_waiting(after(options, before), events.last());
}

/// The latest report that could be read since the appliance was configured.
pub open spec fn last_report(events: Seq<Event>) -> Option<EdgeConnectStatusView>
    decreases events.len(),
{
    if events.len() == 0 {
        None
    } else {
        match events.last() {
            Event::Configured(_) => None,
            Event::Status(Reply::Response { status, body: Ok(report), .. }) if successful(status) =>
                Some(report@),
            _ => last_report(events.drop_last()),
        }
    }
}

/// Where the time is up, the user is told what the appliance last reported.
pub proof fn law_last_report_is_told(options: Options, events: Seq<Event>)
    requires
        possible(options, events),
        wanted(options, events) matches ActionView::Finish(
            Err(RegisterErrorView::NotConnected { .. }),
        ),
    ensures
        wanted(options, events)->Finish_0->Err_0 matches RegisterErrorView::NotConnected {
            status,
            error,
            ..
        } && match last_report(events) {
            Some(report) => status == report.status.text() && error == report.error,
            None => status == "unknown"@ && error is None,
        },
{
    let before = events.drop_last();
    lemma_last_report(options, before);
    lemma_deadline(after(options, before), events.last());
}

/// A registration ends with its last word: it is finished exactly when it says
/// so, and then waits for nothing.
pub proof fn law_finish_is_final(options: Options, events: Seq<Event>)
    requires
        possible(options, events),
    ensures
        wanted(options, events) is Finish <==> after(options, events).stage is Finished,
        after(options, events).stage is Finished ==> forall|event: Event|
            !after(options, events).awaits(event),
{
    lemma_action(options, events);
}

/// A registration that is not finished can always go on: whatever the outside
/// world does, there is an event that it waits for.
pub proof fn law_never_stuck(options: Options, events: Seq<Event>)
    requires
        possible(options, events),
    ensures
        after(options, events).stage is Finished || exists|event: Event|
            after(options, events).awaits(event),
{
    lemma_past(options, events);
    let now = after(options, events);
    let failure = arbitrary::<Failure>();
    match now.stage {
        StageView::CreatingClient => assert(now.awaits(Event::ClientCreated(Ok(())))),
        StageView::FetchingVersion => assert(now.awaits(Event::Version(Reply::Failed(failure)))),
        StageView::OpeningEdge => assert(now.awaits(Event::EdgeOpened { url: arbitrary() })),
        StageView::ResolvingGroup { .. } => assert(now.awaits(Event::Group(Err(failure)))),
        StageView::FindingRegion { .. } => assert(now.awaits(Event::Regions(Err(failure)))),
        StageView::ReadingEnvironment { .. } => assert(now.awaits(
            Event::Environment { user: None, password: None, interactive: false },
        )),
        StageView::Asking { credentials, .. } => {
            assert(credentials is AskPassword ==> now.awaits(Event::Password(Ok(None))));
            assert(credentials.asks_line() ==> now.awaits(Event::Line(Err(failure))));
        },
        StageView::LoggingIn { .. } => assert(now.awaits(Event::LoggedIn(Reply::Failed(failure)))),
        StageView::FetchingStatus { .. } => assert(now.awaits(
            Event::Status(Reply::Failed(failure)),
        )),
        StageView::FetchingHostname { .. } => assert(now.awaits(
            Event::Hostname(Reply::Failed(failure)),
        )),
        StageView::CreatingToken { .. } => assert(now.awaits(Event::Token(Err(failure)))),
        StageView::Configuring { .. } => assert(now.awaits(
            Event::Configured(Reply::Failed(failure)),
        )),
        StageView::ReadingClock { .. } => assert(now.awaits(Event::Elapsed(0))),
        StageView::Sleeping { .. } => assert(now.awaits(Event::Slept)),
        StageView::Polling { .. } => assert(now.awaits(Event::Status(Reply::Failed(failure)))),
        StageView::Finished => {},
    }
}

/// The number of pauses among the events.
pub open spec fn pauses(events: Seq<Event>) -> nat
    decreases events.len(),
{
    if events.len() == 0 {
        0
    } else {
        pauses(events.drop_last()) + if events.last() is Slept {
            1nat
        } else {
            0nat
        }
    }
}

/// Whether the clock shows at least the time that was spent in pauses.
pub open spec fn clock_counts_pauses(events: Seq<Event>) -> bool
    decreases events.len(),
{
    events.len() == 0 || (clock_counts_pauses(events.drop_last()) && (
    events.last() matches Event::Elapsed(elapsed) ==> elapsed >= pauses(events.drop_last())
        * POLL_INTERVAL_SECS * 1_000_000_000))
}

/// Waiting ends: where the clock counts the pauses, an appliance is looked at no
/// more than sixty times.
pub proof fn law_waiting_ends(options: Options, events: Seq<Event>)
    requires
        possible(options, events),
        clock_counts_pauses(events),
    ensures
        pauses(events) <= 60,
{
    lemma_pauses(options, events);
}

} // verus!
