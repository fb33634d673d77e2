//! What each answer of an appliance comes to.

use vstd::prelude::*;

use crate::appliance::{
    explained, reason_phrase, successful, ApplianceClient, ApplianceVersion, ConnectStatus,
    ConnectStatusView, EdgeConnectStatus, ManagementConfig, Reply, SystemInfo,
};
use crate::error::{outcome, ApplianceRequest, RegisterError, RegisterErrorView};
use crate::text::{law_occurs_between, three_digits};

verus! {

/// The codes of success are those that start with a two.
pub proof fn law_success_starts_with_two(status: u16)
    ensures
        successful(status) <==> status / 100 == 2,
{
}

/// The message of a refusal matters unless the refusal is that of the user.
pub proof fn law_every_other_refusal_is_explained(request: ApplianceRequest, status: u16)
    ensures
        explained(request, status) <==> status / 100 != 2 && (status == 401 ==> !(request is Login)),
{
}

/// Whether an error tells of a refused request, by the message of the refusal
/// where there is one and by its code and phrase where there is none.
pub open spec fn tells_refusal(
    error: RegisterErrorView,
    request: ApplianceRequest,
    status: u16,
    message: Option<String>,
) -> bool {
    error == (RegisterErrorView::Appliance {
        request,
        cause: match message {
            Some(message) => message@,
            None => three_digits(status as int) + " "@ + reason_phrase(status),
        },
    })
}

/// The version is the one that was reported, and is known exactly where it could
/// be read from a successful answer. Anything else that answers is no appliance.
/// Where nothing answers, `--insecure` comes up exactly where it was not given and
/// the failure is about a certificate.
pub proof fn law_version_is_the_one_reported(
    client: ApplianceClient,
    reply: Reply<ApplianceVersion>,
)
    ensures
        match reply {
            Reply::Failed(failure) => client@.version(reply) matches Err(
                RegisterErrorView::Connect { url, cause, hint },
            ) && url == client.url@ && cause == failure.text() && (hint <==> !client.insecure
                && exists|before: Seq<char>, after: Seq<char>|
                failure.text() == #[trigger] (before + "certificate"@ + after)),
            Reply::Response { status, body, .. } => {
                let result = client@.version(reply);
                &&& result is Ok <==> status / 100 == 2 && body is Ok
                &&& result matches Ok(version) ==> version == body->Ok_0.os_version@
                &&& status / 100 != 2 ==> result == Err::<Seq<char>, _>(
                    RegisterErrorView::NotAppliance { url: client.url@, unread: None },
                )
                &&& status / 100 == 2 && body is Err ==> result == Err::<Seq<char>, _>(
                    RegisterErrorView::NotAppliance {
                        url: client.url@,
                        unread: Some(body->Err_0.text()),
                    },
                )
            },
        },
{
    if let Reply::Failed(failure) = reply {
        law_occurs_between(failure.text(), "certificate"@);
    }
}

/// A login succeeds exactly on a successful answer. A 401 means that the user was
/// refused; every other refusal is told.
pub proof fn law_login_succeeds_on_success(client: ApplianceClient, reply: Reply<()>)
    ensures
        match reply {
            Reply::Failed(failure) => client@.login(reply) == Err::<(), _>(
                RegisterErrorView::Appliance {
                    request: ApplianceRequest::Login,
                    cause: failure.text(),
                },
            ),
            Reply::Response { status, message, .. } => {
                let result = client@.login(reply);
                &&& result is Ok <==> status / 100 == 2
                &&& status == 401 ==> result == Err::<(), _>(
                    RegisterErrorView::InvalidCredentials { url: client.url@ },
                )
                &&& status / 100 != 2 && status != 401 ==> tells_refusal(
                    result->Err_0,
                    ApplianceRequest::Login,
                    status,
                    message,
                )
            },
        },
{
}

/// The hostname is the one that was reported, and is known exactly where it could
/// be read from a successful answer.
pub proof fn law_hostname_is_the_one_reported(client: ApplianceClient, reply: Reply<SystemInfo>)
    ensures
        match reply {
            Reply::Failed(failure) => client@.hostname(reply) == Err::<Seq<char>, _>(
                RegisterErrorView::Appliance {
                    request: ApplianceRequest::SystemInfo,
                    cause: failure.text(),
                },
            ),
            Reply::Response { status, body, message } => {
                let result = client@.hostname(reply);
                &&& result is Ok <==> status / 100 == 2 && body is Ok
                &&& result matches Ok(hostname) ==> hostname == body->Ok_0.hostname@
                &&& status / 100 != 2 ==> tells_refusal(
                    result->Err_0,
                    ApplianceRequest::SystemInfo,
                    status,
                    message,
                )
                &&& status / 100 == 2 && body is Err ==> result == Err::<Seq<char>, _>(
                    RegisterErrorView::UnreadableSystemInfo { cause: body->Err_0.text() },
                )
            },
        },
{
}

/// The registration is the one that was reported, with all its fields, and is
/// known exactly where it could be read from a successful answer.
pub proof fn law_registration_is_the_one_reported(
    client: ApplianceClient,
    reply: Reply<EdgeConnectStatus>,
)
    ensures
        match reply {
            Reply::Failed(failure) => client@.edge_connect_status(reply) matches Err(error)
                && error == (RegisterErrorView::Appliance {
                request: ApplianceRequest::Status,
                cause: failure.text(),
            }),
            Reply::Response { status, body, message } => {
                let result = client@.edge_connect_status(reply);
                &&& result is Ok <==> status / 100 == 2 && body is Ok
                &&& result matches Ok(report) ==> report == body->Ok_0@
                &&& status / 100 != 2 ==> tells_refusal(
                    result->Err_0,
                    ApplianceRequest::Status,
                    status,
                    message,
                )
                &&& status / 100 == 2 && body is Err ==> result->Err_0 == (
                RegisterErrorView::UnreadableStatus { cause: body->Err_0.text() })
            },
        },
{
}

/// A configuration is accepted exactly where it is answered with success.
pub proof fn law_configuration_succeeds_on_success(client: ApplianceClient, reply: Reply<()>)
    ensures
        match reply {
            Reply::Failed(failure) => client@.set_management_config(reply) == Err::<(), _>(
                RegisterErrorView::Appliance {
                    request: ApplianceRequest::Configure,
                    cause: failure.text(),
                },
            ),
            Reply::Response { status, message, .. } => {
                let result = client@.set_management_config(reply);
                &&& result is Ok <==> status / 100 == 2
                &&& status / 100 != 2 ==> tells_refusal(
                    result->Err_0,
                    ApplianceRequest::Configure,
                    status,
                    message,
                )
            },
        },
{
}

/// Each status has one name, and no other name stands for it.
pub proof fn law_status_has_one_name(name: Seq<char>)
    ensures
        ConnectStatusView::named(name) is NotConfigured <==> name == "notConfigured"@,
        ConnectStatusView::named(name) is Connected <==> name == "connected"@,
        ConnectStatusView::named(name) is Connecting <==> name == "connecting"@,
        ConnectStatusView::named(name) is Disconnected <==> name == "disconnected"@,
        ConnectStatusView::named(name) is Error <==> name == "error"@,
{
    reveal_strlit("notConfigured");
    reveal_strlit("connected");
    reveal_strlit("connecting");
    reveal_strlit("disconnected");
    reveal_strlit("error");
    assert("notConfigured"@.len() == 13);
    assert("connected"@.len() == 9);
    assert("connecting"@.len() == 10);
    assert("disconnected"@.len() == 12);
    assert("error"@.len() == 5);
}

/// What is told of a status: an unknown one is told as it is.
pub proof fn law_status_is_told(status: ConnectStatus)
    ensures
        match status {
            ConnectStatus::NotConfigured => status@.text() == "not configured"@,
            ConnectStatus::Connected => status@.text() == "connected"@,
            ConnectStatus::Connecting => status@.text() == "connecting"@,
            ConnectStatus::Disconnected => status@.text() == "disconnected"@,
            ConnectStatus::Error => status@.text() == "error"@,
            ConnectStatus::Unknown(name) => status@.text() == name@,
        },
{
}

/// A report is what the appliance said, field by field.
pub proof fn law_report_holds_every_field(report: EdgeConnectStatus)
    ensures
        report@.status is NotConfigured <==> report.status is NotConfigured,
        report@.status is Connected <==> report.status is Connected,
        report@.edge_url is Some <==> report.edge_url is Some,
        report.edge_url matches Some(url) ==> report@.edge_url == Some(url@),
        report@.error is Some <==> report.error is Some,
        report.error matches Some(error) ==> report@.error == Some(error@),
{
}

/// A configuration is what is sent, field by field.
pub proof fn law_configuration_holds_every_field(config: ManagementConfig)
    ensures
        config@.edge_url == config.edge_url@,
        config@.device_name == config.device_name@,
        config@.secret == config.secret@,
        config@.edge_role == config.edge_role@,
        config@.region is Some <==> config.region is Some,
        config.region matches Some(region) ==> config@.region == Some(region@),
        config@.allow_self_signed_certs == config.allow_self_signed_certs,
{
}

/// An outcome is a success or an error as it stands.
pub proof fn law_outcome_is_kept(r: Result<String, RegisterError>)
    ensures
        outcome(r) is Ok <==> r is Ok,
        r matches Ok(value) ==> outcome(r) == Ok::<_, RegisterErrorView>(value@),
        r matches Err(error) ==> outcome(r) == Err::<Seq<char>, _>(error@),
{
}

} // verus!
