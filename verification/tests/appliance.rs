use nimbra_edge::appliance::{
    is_explained, is_success, ApplianceClient, ApplianceVersion, ConnectStatus, EdgeConnectStatus,
    Reply, SystemInfo,
};
use nimbra_edge::error::{ApplianceRequest, RegisterError};
use nimbra_edge::failure::Failure;

fn failure(message: &str, causes: &[&str]) -> Failure {
    Failure {
        message: message.to_string(),
        causes: causes.iter().map(|c| c.to_string()).collect(),
    }
}

fn client(insecure: bool) -> ApplianceClient {
    ApplianceClient::new("https://host", insecure)
}

fn response<T>(status: u16, body: Result<T, Failure>, message: Option<&str>) -> Reply<T> {
    Reply::Response { status, body, message: message.map(|m| m.to_string()) }
}

#[test]
fn names_of_statuses() {
    let named = |name: &str| ConnectStatus::from_name(name.to_string());
    assert_eq!(named("notConfigured"), ConnectStatus::NotConfigured);
    assert_eq!(named("connected"), ConnectStatus::Connected);
    assert_eq!(named("connecting"), ConnectStatus::Connecting);
    assert_eq!(named("disconnected"), ConnectStatus::Disconnected);
    assert_eq!(named("error"), ConnectStatus::Error);
    assert_eq!(named("Connected"), ConnectStatus::Unknown("Connected".to_string()));
    assert_eq!(named(""), ConnectStatus::Unknown("".to_string()));
    assert_eq!(named("not configured"), ConnectStatus::Unknown("not configured".to_string()));
}

#[test]
fn texts_of_statuses() {
    let shown = |name: &str| ConnectStatus::from_name(name.to_string()).to_text();
    assert_eq!(shown("notConfigured"), "not configured");
    for name in ["connected", "connecting", "disconnected", "error", "resting"] {
        assert_eq!(shown(name), name);
    }
}

#[test]
fn success_is_two_hundred_and_something() {
    assert!(is_success(200));
    assert!(is_success(299));
    assert!(!is_success(199));
    assert!(!is_success(300));
}

#[test]
fn endpoints_are_below_the_url() {
    assert_eq!(client(false).endpoint("/api/version"), "https://host/api/version");
}

#[test]
fn version_that_was_found() {
    let reply = response(200, Ok(ApplianceVersion { os_version: "1.2".to_string() }), None);
    assert_eq!(client(false).version(reply), Ok("1.2".to_string()));
}

#[test]
fn version_of_an_unreachable_appliance() {
    let reply = Reply::Failed(failure("error sending request", &["refused"]));
    let error = client(false).version(reply).unwrap_err();
    assert_eq!(
        error.message(),
        "Failed to connect to https://host: error sending request: refused"
    );
}

#[test]
fn version_hints_at_insecure_for_a_certificate() {
    let reply = || Reply::Failed(failure("error", &["invalid peer certificate"]));
    assert_eq!(
        client(false).version(reply()).unwrap_err().message(),
        "Failed to connect to https://host: error: invalid peer certificate\n\
         Pass --insecure if the appliance uses a self-signed certificate"
    );
    assert_eq!(
        client(true).version(reply()).unwrap_err().message(),
        "Failed to connect to https://host: error: invalid peer certificate"
    );
}

#[test]
fn version_of_something_else() {
    let refused = response::<ApplianceVersion>(404, Err(failure("x", &[])), Some("no"));
    assert_eq!(
        client(false).version(refused).unwrap_err().message(),
        "https://host does not look like an edge-os appliance"
    );
    let unread = response::<ApplianceVersion>(
        200,
        Err(failure("error decoding response body", &["expected value"])),
        None,
    );
    assert_eq!(
        client(false).version(unread).unwrap_err().message(),
        "https://host does not look like an edge-os appliance: error decoding response body: \
         expected value"
    );
}

#[test]
fn refusal_says_what_the_appliance_said() {
    let r = client(false).error_if_not_success(
        500,
        Some("broken".to_string()),
        ApplianceRequest::Configure,
    );
    assert_eq!(r.unwrap_err().message(), "Failed to configure the appliance: broken");
}

#[test]
fn refusal_without_words_says_its_status() {
    let message = |status: u16| {
        client(false)
            .error_if_not_success(status, None, ApplianceRequest::Status)
            .unwrap_err()
            .message()
    };
    assert_eq!(message(404), "Failed to fetch appliance registration status: 404 Not Found");
    assert_eq!(
        message(599),
        "Failed to fetch appliance registration status: 599 <unknown status code>"
    );
    assert_eq!(message(100), "Failed to fetch appliance registration status: 100 Continue");
    assert_eq!(
        message(999),
        "Failed to fetch appliance registration status: 999 <unknown status code>"
    );
}

#[test]
fn no_error_on_success() {
    for status in [200, 204, 299] {
        let r = client(false).error_if_not_success(
            status,
            Some("ignored".to_string()),
            ApplianceRequest::Login,
        );
        assert_eq!(r, Ok(()));
    }
}

#[test]
fn login_replies() {
    assert_eq!(client(false).login(response(200, Ok(()), None)), Ok(()));
    assert_eq!(client(false).login(response(204, Err(failure("empty", &[])), None)), Ok(()));
    assert_eq!(
        client(false).login(response(401, Ok(()), Some("nope"))).unwrap_err().message(),
        "Invalid username or password for https://host"
    );
    assert_eq!(
        client(false).login(response(403, Ok(()), Some("locked"))).unwrap_err().message(),
        "Failed to log in to the appliance: locked"
    );
    assert_eq!(
        client(false).login(Reply::Failed(failure("a", &["b"]))).unwrap_err().message(),
        "Failed to log in to the appliance: a: b"
    );
}

#[test]
fn hostname_replies() {
    let info = || SystemInfo { hostname: "box".to_string() };
    assert_eq!(client(false).hostname(response(200, Ok(info()), None)), Ok("box".to_string()));
    assert_eq!(
        client(false).hostname(response(503, Ok(info()), None)).unwrap_err().message(),
        "Failed to fetch appliance system info: 503 Service Unavailable"
    );
    assert_eq!(
        client(false).hostname(response(200, Err(failure("x", &["y"])), None)),
        Err(RegisterError::UnreadableSystemInfo { cause: "x: y".to_string() })
    );
    assert_eq!(
        client(false)
            .hostname(response(200, Err(failure("x", &["y"])), None))
            .unwrap_err()
            .message(),
        "Failed to parse appliance system info: x: y"
    );
    assert_eq!(
        client(false).hostname(Reply::Failed(failure("x", &[]))).unwrap_err().message(),
        "Failed to fetch appliance system info: x"
    );
}

#[test]
fn status_replies() {
    let report = || EdgeConnectStatus {
        status: ConnectStatus::Connecting,
        edge_url: Some("https://edge".to_string()),
        error: None,
    };
    assert_eq!(
        client(false).edge_connect_status(response(200, Ok(report()), None)),
        Ok(report())
    );
    assert_eq!(
        client(false)
            .edge_connect_status(response(200, Err(failure("x", &[])), None))
            .unwrap_err()
            .message(),
        "Failed to parse appliance registration status: x"
    );
    assert_eq!(
        client(false)
            .edge_connect_status(response(401, Ok(report()), None))
            .unwrap_err()
            .message(),
        "Failed to fetch appliance registration status: 401 Unauthorized"
    );
}

#[test]
fn configuration_replies() {
    assert_eq!(client(false).set_management_config(response(200, Ok(()), None)), Ok(()));
    assert_eq!(
        client(false)
            .set_management_config(response(422, Ok(()), Some("bad region")))
            .unwrap_err()
            .message(),
        "Failed to configure the appliance: bad region"
    );
    assert_eq!(
        client(false).set_management_config(Reply::Failed(failure("x", &[]))).unwrap_err().message(),
        "Failed to configure the appliance: x"
    );
}

#[test]
fn refusals_whose_message_is_read() {
    assert!(!is_explained(ApplianceRequest::Login, 200));
    assert!(!is_explained(ApplianceRequest::Login, 401));
    assert!(is_explained(ApplianceRequest::Login, 403));
    assert!(is_explained(ApplianceRequest::Status, 401));
    assert!(is_explained(ApplianceRequest::Configure, 500));
    assert!(!is_explained(ApplianceRequest::SystemInfo, 299));
}

#[test]
fn message_that_is_not_read_changes_nothing() {
    let unread = || Err(failure("x", &[]));
    assert_eq!(
        client(false).login(response(401, Err(failure("x", &[])), Some("no"))),
        client(false).login(response(401, Err(failure("x", &[])), None))
    );
    let version = |message| client(false).version(response(503, unread(), message)).unwrap_err();
    assert_eq!(version(Some("no")), version(None));
}
