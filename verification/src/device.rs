//! Client registration and device authorization: what is asked of the
//! identity provider, and what its answers must hold.

use vstd::prelude::*;
use vstd::string::*;
use crate::errors::{Field, FlowError, FlowErrorView};

verus! {

/// The client credentials that the provider issued for this run.
#[derive(Clone, Debug)]
pub struct ClientRegistration {
    pub client_id: String,
    pub client_secret: String,
}

/// The provider's answer to a device-authorization request.
#[derive(Clone, Debug)]
pub struct DeviceAuthorization {
    pub device_code: String,
    pub user_code: String,
    pub verification_uri: String,
    pub verification_uri_complete: String,
    pub poll_interval_seconds: u64,
}

/// What the registration call sends.
#[derive(Clone, Debug)]
pub struct RegistrationRequest {
    pub client_name: String,
    pub client_type: String,
    pub scope: String,
}

/// What the device-authorization call sends.
#[derive(Clone, Debug)]
pub struct DeviceAuthorizationRequest {
    pub client_id: String,
    pub client_secret: String,
    pub start_url: String,
}

/// The registration request of this tool: its name, type and scope are fixed.
pub fn registration_request() -> (req: RegistrationRequest)
    ensures
        req.client_name@ == "my-rust-sso-client"@,
        req.client_type@ == "public"@,
        req.scope@ == "sso"@,
{
    RegistrationRequest {
        client_name: String::from_str("my-rust-sso-client"),
        client_type: String::from_str("public"),
        scope: String::from_str("sso"),
    }
}

/// The device-authorization request for a tenant's portal, made with the
/// credentials that registration returned.
pub fn device_authorization_request(registration: &ClientRegistration, start_url: &str) -> (req:
    DeviceAuthorizationRequest)
    ensures
        req.client_id@ == registration.client_id@,
        req.client_secret@ == registration.client_secret@,
        req.start_url@ == start_url@,
{
    DeviceAuthorizationRequest {
        client_id: registration.client_id.clone(),
        client_secret: registration.client_secret.clone(),
        start_url: String::from_str(start_url),
    }
}

/// The first field of a registration response that is absent, if any.
pub open spec fn registration_gap(
    client_id: Option<Seq<char>>,
    client_secret: Option<Seq<char>>,
) -> Option<Field> {
    if client_id is None {
        Some(Field::ClientId)
    } else if client_secret is None {
        Some(Field::ClientSecret)
    } else {
        None
    }
}

/// The first field of a device-authorization response that is absent, if any.
pub open spec fn authorization_gap(
    device_code: Option<Seq<char>>,
    user_code: Option<Seq<char>>,
    verification_uri: Option<Seq<char>>,
    verification_uri_complete: Option<Seq<char>>,
) -> Option<Field> {
    if device_code is None {
        Some(Field::DeviceCode)
    } else if user_code is None {
        Some(Field::UserCode)
    } else if verification_uri is None {
        Some(Field::VerificationUri)
    } else if verification_uri_complete is None {
        Some(Field::VerificationUriComplete)
    } else {
        None
    }
}

/// The view of an optional string.
pub open spec fn opt_view(s: Option<String>) -> Option<Seq<char>> {
    match s {
        Some(t) => Some(t@),
        None => None,
    }
}

/// The polling interval in seconds that a provider's signed number stands
/// for: the number itself, and for a negative one the number that the
/// machine's conversion to an unsigned one gives.
pub open spec fn interval_seconds_spec(raw: i32) -> u64 {
    raw as u64
}

pub fn interval_seconds(raw: i32) -> (out: u64)
    ensures
        out == interval_seconds_spec(raw),
{
    raw as u64
}

/// Reads a registration response: both fields must be there.
pub fn client_registration(client_id: Option<String>, client_secret: Option<String>) -> (out:
    Result<ClientRegistration, FlowError>)
    ensures
        match registration_gap(opt_view(client_id), opt_view(client_secret)) {
            Some(f) => out is Err && out->Err_0@ == FlowErrorView::MissingField(f),
            None => out is Ok && out->Ok_0.client_id@ == client_id->0@
                && out->Ok_0.client_secret@ == client_secret->0@,
        },
{
    match client_id {
        None => Err(FlowError::MissingField(Field::ClientId)),
        Some(id) => match client_secret {
            None => Err(FlowError::MissingField(Field::ClientSecret)),
            Some(secret) => Ok(ClientRegistration { client_id: id, client_secret: secret }),
        },
    }
}

/// Reads a device-authorization response: the four texts must be there; the
/// interval is taken as it comes.
pub fn device_authorization(
    device_code: Option<String>,
    user_code: Option<String>,
    verification_uri: Option<String>,
    verification_uri_complete: Option<String>,
    interval: i32,
) -> (out: Result<DeviceAuthorization, FlowError>)
    ensures
        match authorization_gap(
            opt_view(device_code),
            opt_view(user_code),
            opt_view(verification_uri),
            opt_view(verification_uri_complete),
        ) {
            Some(f) => out is Err && out->Err_0@ == FlowErrorView::MissingField(f),
            None => out is Ok && out->Ok_0.device_code@ == device_code->0@
                && out->Ok_0.user_code@ == user_code->0@ && out->Ok_0.verification_uri@
                == verification_uri->0@ && out->Ok_0.verification_uri_complete@
                == verification_uri_complete->0@ && out->Ok_0.poll_interval_seconds
                == interval_seconds_spec(interval),
        },
{
    let device_code = match device_code {
        Some(v) => v,
        None => { return Err(FlowError::MissingField(Field::DeviceCode)); },
    };
    let user_code = match user_code {
        Some(v) => v,
        None => { return Err(FlowError::MissingField(Field::UserCode)); },
    };
    let verification_uri = match verification_uri {
        Some(v) => v,
        None => { return Err(FlowError::MissingField(Field::VerificationUri)); },
    };
    let verification_uri_complete = match verification_uri_complete {
        Some(v) => v,
        None => { return Err(FlowError::MissingField(Field::VerificationUriComplete)); },
    };
    Ok(
        DeviceAuthorization {
            device_code,
            user_code,
            verification_uri,
            verification_uri_complete,
            poll_interval_seconds: interval_seconds(interval),
        },
    )
}

} // verus!
