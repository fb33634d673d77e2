//! What the flags of a registration change, and that they change nothing else.

use vstd::prelude::*;

use crate::appliance::{ApplianceClientView, ManagementConfigView};
use crate::error::RegisterErrorView;
use crate::register::{ActionView, Event, Options, RegistrationView, StageView};
use crate::register_laws::{after, law_finish_is_final, possible, wanted};
use crate::text::occurs;

verus! {

/// The action as it is where the certificate of the appliance goes unverified, or
/// does not: the client is told, and an appliance that cannot be reached for its
/// certificate brings up the flag only where it was not given.
pub open spec fn action_with_insecure(action: ActionView, insecure: bool) -> ActionView {
    match action {
        ActionView::CreateClient { timeout_secs, .. } => ActionView::CreateClient {
            insecure,
            timeout_secs,
        },
        ActionView::Finish(Err(RegisterErrorView::Connect { url, cause, .. })) =>
            ActionView::Finish(
            Err(
                RegisterErrorView::Connect {
                    url,
                    cause,
                    hint: !insecure && occurs(cause, "certificate"@),
                },
            ),
        ),
        _ => action,
    }
}

/// The action as it is where the appliance may accept a self-signed certificate,
/// or may not: one field of its configuration says so.
pub open spec fn action_with_self_signed(action: ActionView, allow_self_signed: bool) -> ActionView {
    match action {
        ActionView::Configure { url, config } => ActionView::Configure {
            url,
            config: ManagementConfigView { allow_self_signed_certs: allow_self_signed, ..config },
        },
        _ => action,
    }
}

/// Whether a registration ends because the appliance is registered already.
pub open spec fn left_alone(action: ActionView) -> bool {
    action matches ActionView::Finish(Err(RegisterErrorView::AlreadyRegistered { .. }))
}

spec fn with_insecure(now: RegistrationView, insecure: bool) -> RegistrationView {
    RegistrationView {
        options: Options { insecure, ..now.options },
        appliance: ApplianceClientView { insecure, ..now.appliance },
        stage: now.stage,
    }
}

spec fn with_self_signed(now: RegistrationView, allow_self_signed: bool) -> RegistrationView {
    RegistrationView { options: Options { allow_self_signed, ..now.options }, ..now }
}

spec fn with_force(now: RegistrationView) -> RegistrationView {
    RegistrationView { options: Options { force: true, ..now.options }, ..now }
}

proof fn lemma_insecure_step(now: RegistrationView, event: Event, insecure: bool)
    requires
        now.awaits(event),
    ensures
        with_insecure(now, insecure).awaits(event),
        with_insecure(now, insecure).next(event) == (
            with_insecure(now.next(event).0, insecure),
            action_with_insecure(now.next(event).1, insecure),
        ),
{
    match now.stage {
        StageView::CreatingClient => {},
        StageView::FetchingVersion => {},
        StageView::OpeningEdge => {},
        StageView::ResolvingGroup { .. } => {},
        StageView::FindingRegion { .. } => {},
        StageView::ReadingEnvironment { .. } => {},
        StageView::Asking { .. } => {},
        StageView::LoggingIn { .. } => {},
        StageView::FetchingStatus { .. } => {},
        StageView::FetchingHostname { .. } => {},
        StageView::CreatingToken { .. } => {},
        StageView::Configuring { .. } => {},
        StageView::ReadingClock { .. } => {},
        StageView::Sleeping { .. } => {},
        StageView::Polling { .. } => {},
        StageView::Finished => {},
    }
}

proof fn lemma_insecure(options: Options, events: Seq<Event>, insecure: bool)
    requires
        possible(options, events),
    ensures
        possible(Options { insecure, ..options }, events),
        after(Options { insecure, ..options }, events) == with_insecure(
            after(options, events),
            insecure,
        ),
    decreases events.len(),
{
    if events.len() > 0 {
        lemma_insecure(options, events.drop_last(), insecure);
        lemma_insecure_step(after(options, events.drop_last()), events.last(), insecure);
    }
}

/// `--insecure` changes whether the client verifies the appliance's certificate,
/// and whether an error suggests `--insecure`. Nothing else depends on it.
pub proof fn law_insecure_changes_only_the_client(
    options: Options,
    events: Seq<Event>,
    insecure: bool,
)
    requires
        possible(options, events),
    ensures
        ({
            let other = Options { insecure, ..options };
            &&& possible(other, events)
            &&& after(other, events).stage == after(options, events).stage
            &&& wanted(other, events) == action_with_insecure(wanted(options, events), insecure)
        }),
{
    lemma_insecure(options, events, insecure);
    if events.len() > 0 {
        lemma_insecure(options, events.drop_last(), insecure);
        lemma_insecure_step(after(options, events.drop_last()), events.last(), insecure);
    }
}

proof fn lemma_self_signed_step(now: RegistrationView, event: Event, allow_self_signed: bool)
    requires
        now.awaits(event),
    ensures
        with_self_signed(now, allow_self_signed).awaits(event),
        with_self_signed(now, allow_self_signed).next(event) == (
            with_self_signed(now.next(event).0, allow_self_signed),
            action_with_self_signed(now.next(event).1, allow_self_signed),
        ),
{
    match now.stage {
        StageView::CreatingClient => {},
        StageView::FetchingVersion => {},
        StageView::OpeningEdge => {},
        StageView::ResolvingGroup { .. } => {},
        StageView::FindingRegion { .. } => {},
        StageView::ReadingEnvironment { .. } => {},
        StageView::Asking { .. } => {},
        StageView::LoggingIn { .. } => {},
        StageView::FetchingStatus { .. } => {},
        StageView::FetchingHostname { .. } => {},
        StageView::CreatingToken { .. } => {},
        StageView::Configuring { .. } => {},
        StageView::ReadingClock { .. } => {},
        StageView::Sleeping { .. } => {},
        StageView::Polling { .. } => {},
        StageView::Finished => {},
    }
}

proof fn lemma_self_signed(options: Options, events: Seq<Event>, allow_self_signed: bool)
    requires
        possible(options, events),
    ensures
        possible(Options { allow_self_signed, ..options }, events),
        after(Options { allow_self_signed, ..options }, events) == with_self_signed(
            after(options, events),
            allow_self_signed,
        ),
    decreases events.len(),
{
    if events.len() > 0 {
        let before = events.drop_last();
        lemma_self_signed(options, before, allow_self_signed);
        lemma_self_signed_step(after(options, before), events.last(), allow_self_signed);
    }
}

/// `--allow-self-signed` changes one field of the configuration that the appliance
/// is sent. Nothing else depends on it.
pub proof fn law_self_signed_changes_only_the_configuration(
    options: Options,
    events: Seq<Event>,
    allow_self_signed: bool,
)
    requires
        possible(options, events),
    ensures
        ({
            let other = Options { allow_self_signed, ..options };
            &&& possible(other, events)
            &&& after(other, events).stage == after(options, events).stage
            &&& wanted(other, events) == action_with_self_signed(
                wanted(options, events),
                allow_self_signed,
            )
        }),
{
    lemma_self_signed(options, events, allow_self_signed);
    if events.len() > 0 {
        let before = events.drop_last();
        lemma_self_signed(options, before, allow_self_signed);
        lemma_self_signed_step(after(options, before), events.last(), allow_self_signed);
    }
}

proof fn lemma_force_step(now: RegistrationView, event: Event)
    requires
        now.awaits(event),
    ensures
        with_force(now).awaits(event),
        !left_alone(now.next(event).1) ==> with_force(now).next(event) == (
            with_force(now.next(event).0),
            now.next(event).1,
        ),
        left_alone(now.next(event).1) ==> match now.options.name {
            Some(_) => with_force(now).next(event).1 is CreateToken,
            None => with_force(now).next(event).1 is FetchHostname,
        },
{
    match now.stage {
        StageView::CreatingClient => {},
        StageView::FetchingVersion => {},
        StageView::OpeningEdge => {},
        StageView::ResolvingGroup { .. } => {},
        StageView::FindingRegion { .. } => {},
        StageView::ReadingEnvironment { .. } => {},
        StageView::Asking { .. } => {},
        StageView::LoggingIn { .. } => {},
        StageView::FetchingStatus { .. } => {},
        StageView::FetchingHostname { .. } => {},
        StageView::CreatingToken { .. } => {},
        StageView::Configuring { .. } => {},
        StageView::ReadingClock { .. } => {},
        StageView::Sleeping { .. } => {},
        StageView::Polling { .. } => {},
        StageView::Finished => {},
    }
}

proof fn lemma_force(options: Options, events: Seq<Event>)
    requires
        possible(options, events),
    ensures
        possible(Options { force: true, ..options }, events),
        after(options, events).options == options,
        !left_alone(wanted(options, events)) ==> after(Options { force: true, ..options }, events)
            == with_force(after(options, events)),
    decreases events.len(),
{
    if events.len() > 0 {
        let before = events.drop_last();
        lemma_force(options, before);
        law_finish_is_final(options, before);
        assert(!left_alone(wanted(options, before)));
        lemma_force_step(after(options, before), events.last());
        lemma_keeps_options(after(options, before), events.last());
    }
}

proof fn lemma_keeps_options(now: RegistrationView, event: Event)
    requires
        now.awaits(event),
    ensures
        now.next(event).0.options == now.options,
{
}

/// `--force` changes what is done with an appliance that is registered already:
/// it is registered again, in place of being left alone. Nothing else depends on
/// it.
pub proof fn law_force_changes_only_the_refusal(options: Options, events: Seq<Event>)
    requires
        possible(options, events),
    ensures
        ({
            let forced = Options { force: true, ..options };
            &&& possible(forced, events)
            &&& !left_alone(wanted(options, events)) ==> after(forced, events).stage == after(
                options,
                events,
            ).stage && wanted(forced, events) == wanted(options, events)
            &&& left_alone(wanted(options, events)) ==> match options.name {
                Some(_) => wanted(forced, events) is CreateToken,
                None => wanted(forced, events) is FetchHostname,
            }
        }),
{
    lemma_force(options, events);
    if events.len() > 0 {
        let before = events.drop_last();
        lemma_force(options, before);
        law_finish_is_final(options, before);
        lemma_force_step(after(options, before), events.last());
    }
}

} // verus!
