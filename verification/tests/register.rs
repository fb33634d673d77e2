use nimbra_edge::appliance::{
    ApplianceVersion, ConnectStatus, EdgeConnectStatus, ManagementConfig, Reply, SystemInfo,
};
use nimbra_edge::error::RegisterError;
use nimbra_edge::failure::Failure;
use nimbra_edge::register::{
    ensure_region_exists, register, Action, Event, Options, Region, Registration, Stage,
    CONNECT_TIMEOUT_NANOS,
};

fn text(s: &str) -> Option<String> {
    Some(s.to_string())
}

fn failure() -> Failure {
    Failure { message: "failed".to_string(), causes: vec!["because".to_string()] }
}

fn options() -> Options {
    Options {
        url: "host/".to_string(),
        name: None,
        region: None,
        group: None,
        username: None,
        insecure: false,
        allow_self_signed: false,
        force: false,
    }
}

fn ok<T>(body: T) -> Reply<T> {
    Reply::Response { status: 200, body: Ok(body), message: None }
}

fn refused<T>(status: u16) -> Reply<T> {
    Reply::Response { status, body: Err(failure()), message: text("refused") }
}

fn report(status: ConnectStatus) -> EdgeConnectStatus {
    EdgeConnectStatus { status, edge_url: None, error: None }
}

/// Hands over an event that is awaited.
fn give(registration: &mut Registration, event: Event) -> Action {
    assert!(registration.is_awaiting(&event));
    registration.next(event)
}

fn environment(interactive: bool) -> Event {
    Event::Environment { user: None, password: text("pw"), interactive }
}

fn version() -> Event {
    Event::Version(ok(ApplianceVersion { os_version: "1.2".to_string() }))
}

fn to_group(options: Options) -> (Registration, Action) {
    let (mut r, _) = register(options);
    give(&mut r, Event::ClientCreated(Ok(())));
    give(&mut r, version());
    let action = give(&mut r, Event::EdgeOpened { url: "https://edge//".to_string() });
    (r, action)
}

fn to_status(options: Options) -> (Registration, Action) {
    let (mut r, _) = to_group(options);
    give(&mut r, Event::Group(Ok("main".to_string())));
    give(&mut r, environment(false));
    let action = give(&mut r, Event::LoggedIn(ok(())));
    (r, action)
}

fn to_token(options: Options) -> Registration {
    let (mut r, _) = to_status(options);
    give(&mut r, Event::Status(ok(report(ConnectStatus::NotConfigured))));
    give(&mut r, Event::Hostname(ok(SystemInfo { hostname: "box".to_string() })));
    r
}

fn to_clock(options: Options) -> (Registration, Action) {
    let mut r = to_token(options);
    give(&mut r, Event::Token(Ok("secret".to_string())));
    let action = give(&mut r, Event::Configured(ok(())));
    (r, action)
}

fn message(action: Action) -> String {
    match action {
        Action::Finish(Err(error)) => error.message(),
        other => panic!("not an error: {:?}", other),
    }
}

#[test]
fn a_registration_from_start_to_end() {
    let (mut r, action) = register(options());
    assert_eq!(action, Action::CreateClient { insecure: false, timeout_secs: 30 });
    assert_eq!(
        give(&mut r, Event::ClientCreated(Ok(()))),
        Action::FetchVersion { url: "https://host/api/version".to_string() }
    );
    assert_eq!(
        give(&mut r, version()),
        Action::OpenEdge { notice: "Found edge-os 1.2 at https://host".to_string() }
    );
    assert_eq!(
        give(&mut r, Event::EdgeOpened { url: "https://edge//".to_string() }),
        Action::ResolveGroup { named: None }
    );
    assert_eq!(give(&mut r, Event::Group(Ok("main".to_string()))), Action::ReadEnvironment);
    assert_eq!(
        give(&mut r, environment(false)),
        Action::Login {
            url: "https://host/api/auth/login".to_string(),
            username: "admin".to_string(),
            password: "pw".to_string(),
        }
    );
    let status_url = "https://host/api/edge-connect/status".to_string();
    assert_eq!(
        give(&mut r, Event::LoggedIn(ok(()))),
        Action::FetchStatus { url: status_url.clone() }
    );
    assert_eq!(
        give(&mut r, Event::Status(ok(report(ConnectStatus::NotConfigured)))),
        Action::FetchHostname { url: "https://host/api/system-info".to_string() }
    );
    assert_eq!(
        give(&mut r, Event::Hostname(ok(SystemInfo { hostname: "box".to_string() }))),
        Action::CreateToken { group: "main".to_string(), role: "edge".to_string() }
    );
    assert_eq!(
        give(&mut r, Event::Token(Ok("secret".to_string()))),
        Action::Configure {
            url: "https://host/api/management".to_string(),
            config: ManagementConfig {
                edge_url: "https://edge".to_string(),
                device_name: "box".to_string(),
                secret: "secret".to_string(),
                edge_role: "edge".to_string(),
                region: None,
                allow_self_signed_certs: false,
            },
        }
    );
    assert_eq!(give(&mut r, Event::Configured(ok(()))), Action::StartClock);
    assert_eq!(give(&mut r, Event::Elapsed(0)), Action::Sleep { seconds: 2 });
    assert_eq!(give(&mut r, Event::Slept), Action::FetchStatus { url: status_url });
    assert_eq!(
        give(&mut r, Event::Status(ok(report(ConnectStatus::Connected)))),
        Action::Finish(Ok("Registered appliance 'box' with https://edge".to_string()))
    );
    assert_eq!(r.stage, Stage::Finished);
    assert!(!r.is_awaiting(&Event::Slept));
    assert!(!r.is_awaiting(&Event::Status(ok(report(ConnectStatus::Connected)))));
}

#[test]
fn options_are_passed_on() {
    let (mut r, action) = to_group(Options {
        url: "http://host".to_string(),
        name: text("given"),
        region: text("north"),
        group: text("team"),
        username: text("root"),
        insecure: true,
        allow_self_signed: true,
        force: false,
    });
    assert_eq!(action, Action::ResolveGroup { named: text("team") });
    assert_eq!(
        give(&mut r, Event::Group(Ok("team-id".to_string()))),
        Action::FindRegion { name: "north".to_string() }
    );
    assert_eq!(
        give(&mut r, Event::Regions(Ok(vec![Region { name: "north".to_string() }]))),
        Action::ReadEnvironment
    );
    assert_eq!(
        give(&mut r, environment(true)),
        Action::Login {
            url: "http://host/api/auth/login".to_string(),
            username: "root".to_string(),
            password: "pw".to_string(),
        }
    );
    give(&mut r, Event::LoggedIn(ok(())));
    assert_eq!(
        give(&mut r, Event::Status(ok(report(ConnectStatus::NotConfigured)))),
        Action::CreateToken { group: "team-id".to_string(), role: "edge".to_string() }
    );
    match give(&mut r, Event::Token(Ok("secret".to_string()))) {
        Action::Configure { config, .. } => {
            assert_eq!(config.device_name, "given");
            assert_eq!(config.region, text("north"));
            assert!(config.allow_self_signed_certs);
        }
        other => panic!("{:?}", other),
    }
}

#[test]
fn insecure_goes_to_the_client() {
    let (_, action) = register(Options { insecure: true, ..options() });
    assert_eq!(action, Action::CreateClient { insecure: true, timeout_secs: 30 });
}

#[test]
fn client_that_cannot_be_made() {
    let (mut r, _) = register(options());
    assert_eq!(
        message(give(&mut r, Event::ClientCreated(Err(failure())))),
        "Failed to create HTTP client: failed: because"
    );
}

#[test]
fn appliance_that_cannot_be_reached() {
    let (mut r, _) = register(options());
    give(&mut r, Event::ClientCreated(Ok(())));
    assert_eq!(
        message(give(&mut r, Event::Version(Reply::Failed(failure())))),
        "Failed to connect to https://host: failed: because"
    );
    assert_eq!(r.stage, Stage::Finished);
}

#[test]
fn group_that_cannot_be_resolved() {
    let (mut r, _) = to_group(options());
    assert_eq!(message(give(&mut r, Event::Group(Err(failure())))), "failed: because");
}

#[test]
fn region_must_exist_by_its_very_name() {
    let regions = |names: &[&str]| -> Result<Vec<Region>, Failure> {
        Ok(names.iter().map(|n| Region { name: n.to_string() }).collect())
    };
    assert_eq!(ensure_region_exists(&regions(&["south", "north"]), "north"), Ok(()));
    assert_eq!(
        ensure_region_exists(&regions(&["north-2", "North"]), "north").unwrap_err().message(),
        "Region 'north' not found"
    );
    assert_eq!(
        ensure_region_exists(&regions(&[]), ""),
        Err(RegisterError::RegionNotFound { name: "".to_string() })
    );
    assert_eq!(
        ensure_region_exists(&Err(failure()), "north").unwrap_err().message(),
        "Failed to look up region: failed: because"
    );
}

#[test]
fn region_that_is_missing_ends_the_registration() {
    let (mut r, _) = to_group(Options { region: text("north"), ..options() });
    give(&mut r, Event::Group(Ok("main".to_string())));
    assert_eq!(
        message(give(&mut r, Event::Regions(Ok(vec![])))),
        "Region 'north' not found"
    );
}

#[test]
fn prompts_at_a_terminal() {
    let (mut r, _) = to_group(options());
    give(&mut r, Event::Group(Ok("main".to_string())));
    assert_eq!(
        give(&mut r, Event::Environment { user: None, password: None, interactive: true }),
        Action::Ask { prompt: "Username [admin]: ".to_string() }
    );
    assert!(!r.is_awaiting(&Event::Password(Ok(None))));
    assert_eq!(
        give(&mut r, Event::Line(Ok("root\n".to_string()))),
        Action::AskPassword { prompt: "Password: ".to_string() }
    );
    assert!(!r.is_awaiting(&Event::Line(Ok("".to_string()))));
    assert_eq!(give(&mut r, Event::Password(Ok(None))), Action::Ask { prompt: "".to_string() });
    assert_eq!(
        give(&mut r, Event::Line(Ok(" secret\n".to_string()))),
        Action::Login {
            url: "https://host/api/auth/login".to_string(),
            username: "root".to_string(),
            password: "secret".to_string(),
        }
    );
}

#[test]
fn terminal_that_cannot_be_read() {
    let (mut r, _) = to_group(options());
    give(&mut r, Event::Group(Ok("main".to_string())));
    give(&mut r, Event::Environment { user: text("u"), password: None, interactive: true });
    assert_eq!(message(give(&mut r, Event::Password(Err(failure())))), "failed: because");
    let (mut r, _) = to_group(options());
    give(&mut r, Event::Group(Ok("main".to_string())));
    give(&mut r, Event::Environment { user: None, password: None, interactive: true });
    assert_eq!(message(give(&mut r, Event::Line(Err(failure())))), "failed: because");
}

#[test]
fn password_that_is_missing_ends_the_registration() {
    let (mut r, _) = to_group(options());
    give(&mut r, Event::Group(Ok("main".to_string())));
    assert_eq!(
        message(give(
            &mut r,
            Event::Environment { user: None, password: None, interactive: false }
        )),
        "EDGE_APPLIANCE_PASSWORD is required when not running interactively"
    );
}

#[test]
fn login_that_is_refused() {
    let (mut r, _) = to_group(options());
    give(&mut r, Event::Group(Ok("main".to_string())));
    give(&mut r, environment(false));
    assert_eq!(
        message(give(&mut r, Event::LoggedIn(refused(401)))),
        "Invalid username or password for https://host"
    );
}

#[test]
fn registered_appliance_is_left_alone() {
    for status in [
        ConnectStatus::Connected,
        ConnectStatus::Connecting,
        ConnectStatus::Disconnected,
        ConnectStatus::Error,
        ConnectStatus::Unknown("odd".to_string()),
    ] {
        let (mut r, _) = to_status(options());
        assert_eq!(
            message(give(&mut r, Event::Status(ok(report(status))))),
            "Appliance is already registered, pass --force to register it anyway"
        );
    }
    let (mut r, _) = to_status(options());
    let elsewhere = EdgeConnectStatus {
        status: ConnectStatus::Connected,
        edge_url: text("https://other"),
        error: None,
    };
    assert_eq!(
        message(give(&mut r, Event::Status(ok(elsewhere)))),
        "Appliance is already registered with https://other, pass --force to register it anyway"
    );
}

#[test]
fn registered_appliance_is_registered_again_by_force() {
    let (mut r, _) = to_status(Options { force: true, name: text("n"), ..options() });
    assert_eq!(
        give(&mut r, Event::Status(ok(report(ConnectStatus::Connected)))),
        Action::CreateToken { group: "main".to_string(), role: "edge".to_string() }
    );
}

#[test]
fn status_that_cannot_be_had() {
    let (mut r, _) = to_status(options());
    assert_eq!(
        message(give(&mut r, Event::Status(refused(500)))),
        "Failed to fetch appliance registration status: refused"
    );
}

#[test]
fn hostname_that_cannot_be_had() {
    let (mut r, _) = to_status(options());
    give(&mut r, Event::Status(ok(report(ConnectStatus::NotConfigured))));
    assert_eq!(
        message(give(&mut r, Event::Hostname(refused(500)))),
        "Failed to fetch appliance system info: refused"
    );
}

#[test]
fn token_that_is_not_created() {
    let mut r = to_token(options());
    assert_eq!(
        message(give(&mut r, Event::Token(Err(failure())))),
        "Failed to create an appliance token: failed: because"
    );
}

#[test]
fn configuration_that_is_refused() {
    let mut r = to_token(options());
    give(&mut r, Event::Token(Ok("secret".to_string())));
    assert_eq!(
        message(give(&mut r, Event::Configured(refused(400)))),
        "Failed to configure the appliance: refused"
    );
}

#[test]
fn waiting_goes_on_while_requests_fail() {
    let (mut r, _) = to_clock(options());
    assert_eq!(give(&mut r, Event::Elapsed(1)), Action::Sleep { seconds: 2 });
    give(&mut r, Event::Slept);
    assert_eq!(give(&mut r, Event::Status(Reply::Failed(failure()))), Action::ReadClock);
    give(&mut r, Event::Elapsed(2_000_000_001));
    give(&mut r, Event::Slept);
    assert_eq!(give(&mut r, Event::Status(refused(401))), Action::ReadClock);
    assert_eq!(
        give(&mut r, Event::Elapsed(CONNECT_TIMEOUT_NANOS - 1)),
        Action::Sleep { seconds: 2 }
    );
    give(&mut r, Event::Slept);
    assert_eq!(
        give(&mut r, Event::Status(ok(report(ConnectStatus::Connected)))),
        Action::Finish(Ok("Registered appliance 'box' with https://edge".to_string()))
    );
}

#[test]
fn waiting_ends_at_the_deadline_without_a_report() {
    let (mut r, _) = to_clock(options());
    assert_eq!(
        message(give(&mut r, Event::Elapsed(CONNECT_TIMEOUT_NANOS))),
        "The appliance did not connect to https://edge within 120s (status: unknown)"
    );
}

#[test]
fn waiting_ends_at_the_deadline_with_the_last_report() {
    let (mut r, _) = to_clock(options());
    give(&mut r, Event::Elapsed(0));
    give(&mut r, Event::Slept);
    let last = EdgeConnectStatus {
        status: ConnectStatus::NotConfigured,
        edge_url: None,
        error: text("bad secret"),
    };
    assert_eq!(give(&mut r, Event::Status(ok(last))), Action::ReadClock);
    give(&mut r, Event::Elapsed(5));
    give(&mut r, Event::Slept);
    give(&mut r, Event::Status(Reply::Failed(failure())));
    assert_eq!(
        message(give(&mut r, Event::Elapsed(CONNECT_TIMEOUT_NANOS + 1))),
        "The appliance did not connect to https://edge within 120s \
         (status: not configured, bad secret)"
    );
}

#[test]
fn waiting_looks_at_most_sixty_times() {
    let (mut r, _) = to_clock(options());
    let mut slept: u128 = 0;
    let mut looks = 0;
    loop {
        match give(&mut r, Event::Elapsed(slept * 1_000_000_000)) {
            Action::Sleep { seconds } => slept += seconds as u128,
            Action::Finish(result) => {
                assert!(result.is_err());
                break;
            }
            other => panic!("{:?}", other),
        }
        give(&mut r, Event::Slept);
        looks += 1;
        give(&mut r, Event::Status(ok(report(ConnectStatus::Connecting))));
    }
    assert_eq!(looks, 60);
}

#[test]
fn status_codes_outside_http_are_not_awaited() {
    let (mut r, _) = register(options());
    give(&mut r, Event::ClientCreated(Ok(())));
    assert!(!r.is_awaiting(&Event::Version(refused(99))));
    assert!(!r.is_awaiting(&Event::Version(refused(1000))));
    assert!(r.is_awaiting(&Event::Version(refused(100))));
    assert!(!r.is_awaiting(&Event::Slept));
}

#[test]
fn device_is_named_after_the_host_unless_named() {
    let device = |action: Action| match action {
        Action::Configure { config, .. } => config.device_name,
        other => panic!("{:?}", other),
    };
    let mut r = to_token(options());
    assert_eq!(device(give(&mut r, Event::Token(Ok("secret".to_string())))), "box");
    let (mut r, _) = to_status(Options { name: text("mine"), ..options() });
    give(&mut r, Event::Status(ok(report(ConnectStatus::NotConfigured))));
    assert_eq!(device(give(&mut r, Event::Token(Ok("secret".to_string())))), "mine");
}

#[test]
fn token_is_for_the_group_that_was_resolved() {
    let (mut r, action) = to_group(Options { group: text("named"), name: text("n"), ..options() });
    assert_eq!(action, Action::ResolveGroup { named: text("named") });
    give(&mut r, Event::Group(Ok("resolved".to_string())));
    give(&mut r, environment(false));
    give(&mut r, Event::LoggedIn(ok(())));
    assert_eq!(
        give(&mut r, Event::Status(ok(report(ConnectStatus::NotConfigured)))),
        Action::CreateToken { group: "resolved".to_string(), role: "edge".to_string() }
    );
}

#[test]
fn one_token_and_one_configuration() {
    let (mut r, first) = register(options());
    let mut actions = vec![first];
    let mut events = vec![
        Event::ClientCreated(Ok(())),
        version(),
        Event::EdgeOpened { url: "https://edge".to_string() },
        Event::Group(Ok("main".to_string())),
        environment(false),
        Event::LoggedIn(ok(())),
        Event::Status(ok(report(ConnectStatus::NotConfigured))),
        Event::Hostname(ok(SystemInfo { hostname: "box".to_string() })),
        Event::Token(Ok("secret".to_string())),
        Event::Configured(ok(())),
    ];
    for _ in 0..3 {
        events.push(Event::Elapsed(0));
        events.push(Event::Slept);
        events.push(Event::Status(ok(report(ConnectStatus::NotConfigured))));
    }
    events.push(Event::Elapsed(CONNECT_TIMEOUT_NANOS));
    for event in events {
        actions.push(give(&mut r, event));
    }
    assert_eq!(r.stage, Stage::Finished);
    let tokens = actions.iter().filter(|a| matches!(a, Action::CreateToken { .. })).count();
    let configurations = actions.iter().filter(|a| matches!(a, Action::Configure { .. })).count();
    assert_eq!((tokens, configurations), (1, 1));
}

#[test]
fn region_is_found_before_anyone_is_asked() {
    let (mut r, _) = to_group(Options { region: text("north"), ..options() });
    assert_eq!(
        give(&mut r, Event::Group(Ok("main".to_string()))),
        Action::FindRegion { name: "north".to_string() }
    );
    assert!(!r.is_awaiting(&environment(true)));
    assert_eq!(
        give(&mut r, Event::Regions(Ok(vec![Region { name: "north".to_string() }]))),
        Action::ReadEnvironment
    );
}

#[test]
fn deadline_is_two_minutes() {
    assert_eq!(CONNECT_TIMEOUT_NANOS, std::time::Duration::from_secs(120).as_nanos());
    let (mut r, _) = to_clock(options());
    assert_eq!(
        give(&mut r, Event::Elapsed(119_999_999_999)),
        Action::Sleep { seconds: 2 }
    );
}

/// The actions of a registration on the events, from its start.
fn actions_of(options: Options, events: Vec<Event>) -> Vec<Action> {
    let (mut r, first) = register(options);
    let mut actions = vec![first];
    for event in events {
        actions.push(give(&mut r, event));
    }
    actions
}

fn events_to_the_end(registered: ConnectStatus) -> Vec<Event> {
    vec![
        Event::ClientCreated(Ok(())),
        version(),
        Event::EdgeOpened { url: "https://edge".to_string() },
        Event::Group(Ok("main".to_string())),
        environment(false),
        Event::LoggedIn(ok(())),
        Event::Status(ok(report(registered))),
        Event::Hostname(ok(SystemInfo { hostname: "box".to_string() })),
        Event::Token(Ok("secret".to_string())),
        Event::Configured(ok(())),
        Event::Elapsed(0),
        Event::Slept,
        Event::Status(ok(report(ConnectStatus::Connected))),
    ]
}

#[test]
fn insecure_changes_only_the_client() {
    let events = || events_to_the_end(ConnectStatus::NotConfigured);
    let plain = actions_of(options(), events());
    let insecure = actions_of(Options { insecure: true, ..options() }, events());
    assert_eq!(plain[0], Action::CreateClient { insecure: false, timeout_secs: 30 });
    assert_eq!(insecure[0], Action::CreateClient { insecure: true, timeout_secs: 30 });
    assert_eq!(plain[1..], insecure[1..]);
}

#[test]
fn insecure_is_suggested_only_where_it_was_not_given() {
    let events = || {
        let failure = Failure { message: "bad certificate".to_string(), causes: vec![] };
        vec![Event::ClientCreated(Ok(())), Event::Version(Reply::Failed(failure))]
    };
    let last = |insecure| {
        message(actions_of(Options { insecure, ..options() }, events()).pop().unwrap())
    };
    assert_eq!(last(true), "Failed to connect to https://host: bad certificate");
    assert_eq!(
        last(false),
        "Failed to connect to https://host: bad certificate\n\
         Pass --insecure if the appliance uses a self-signed certificate"
    );
}

#[test]
fn self_signed_changes_only_the_configuration() {
    let events = || events_to_the_end(ConnectStatus::NotConfigured);
    let plain = actions_of(options(), events());
    let allowed = actions_of(Options { allow_self_signed: true, ..options() }, events());
    assert_eq!(plain.len(), allowed.len());
    let mut configurations = 0;
    for (a, b) in plain.into_iter().zip(allowed) {
        match (a, b) {
            (Action::Configure { url, config }, Action::Configure { url: other, config: changed }) => {
                assert_eq!(url, other);
                assert!(!config.allow_self_signed_certs);
                assert_eq!(ManagementConfig { allow_self_signed_certs: true, ..config }, changed);
                configurations += 1;
            }
            (a, b) => assert_eq!(a, b),
        }
    }
    assert_eq!(configurations, 1);
}

#[test]
fn force_changes_only_the_refusal() {
    let forced = || Options { force: true, ..options() };
    let events = || events_to_the_end(ConnectStatus::NotConfigured);
    assert_eq!(actions_of(options(), events()), actions_of(forced(), events()));
    let registered = || -> Vec<Event> {
        events_to_the_end(ConnectStatus::Connected).into_iter().take(7).collect()
    };
    let plain = actions_of(options(), registered());
    let again = actions_of(forced(), registered());
    assert_eq!(plain[..7], again[..7]);
    assert_eq!(
        plain[7],
        Action::Finish(Err(RegisterError::AlreadyRegistered { with: None }))
    );
    assert_eq!(
        again[7],
        Action::FetchHostname { url: "https://host/api/system-info".to_string() }
    );
}
