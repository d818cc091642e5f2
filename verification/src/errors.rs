//! The ways in which the sign-in flow can fail.

use vstd::prelude::*;
use vstd::string::*;

verus! {

/// A field that the identity provider must send back.
#[derive(Clone, Copy, Debug, PartialEq, Eq, Structural)]
pub enum Field {
    ClientId,
    ClientSecret,
    DeviceCode,
    UserCode,
    VerificationUri,
    VerificationUriComplete,
}

impl Field {
    /// The field's name as the provider spells it.
    pub open spec fn name_spec(self) -> Seq<char> {
        match self {
            Field::ClientId => "client_id"@,
            Field::ClientSecret => "client_secret"@,
            Field::DeviceCode => "device_code"@,
            Field::UserCode => "user_code"@,
            Field::VerificationUri => "verification_uri"@,
            Field::VerificationUriComplete => "verification_uri_complete"@,
        }
    }

    pub fn name(self) -> (out: &'static str)
        ensures
            out@ == self.name_spec(),
    {
        match self {
            Field::ClientId => "client_id",
            Field::ClientSecret => "client_secret",
            Field::DeviceCode => "device_code",
            Field::UserCode => "user_code",
            Field::VerificationUri => "verification_uri",
            Field::VerificationUriComplete => "verification_uri_complete",
        }
    }
}

/// What went wrong, with the text that the user is shown where there is any.
#[derive(Clone, Debug)]
pub enum FlowError {
    /// The provider's response lacks a field.
    MissingField(Field),
    /// The user has not finished signing in yet: poll again.
    AuthPending,
    /// The provider asks for slower polling: poll again, later.
    RateLimited,
    /// The provider refused the token exchange; holds its raw error text.
    TokenExchangeFailed(String),
    /// The token response carries no access token.
    MissingAccessToken,
    /// The user's home directory is unknown.
    HomeDirUnresolved,
    /// The file system refused an operation; holds its error text.
    IoError(String),
    /// A selected line is not `account_id - account_name - role_name`; holds the line.
    MalformedSelection(String),
    /// A call to the provider failed; holds its error text.
    ProviderCallFailed(String),
    /// The user left the selection without choosing.
    SelectionCancelled,
}

/// `FlowError` over character sequences.
pub enum FlowErrorView {
    MissingField(Field),
    AuthPending,
    RateLimited,
    TokenExchangeFailed(Seq<char>),
    MissingAccessToken,
    HomeDirUnresolved,
    IoError(Seq<char>),
    MalformedSelection(Seq<char>),
    ProviderCallFailed(Seq<char>),
    SelectionCancelled,
}

impl View for FlowError {
    type V = FlowErrorView;

    open spec fn view(&self) -> FlowErrorView {
        match self {
            FlowError::MissingField(f) => FlowErrorView::MissingField(*f),
            FlowError::AuthPending => FlowErrorView::AuthPending,
            FlowError::RateLimited => FlowErrorView::RateLimited,
            FlowError::TokenExchangeFailed(m) => FlowErrorView::TokenExchangeFailed(m@),
            FlowError::MissingAccessToken => FlowErrorView::MissingAccessToken,
            FlowError::HomeDirUnresolved => FlowErrorView::HomeDirUnresolved,
            FlowError::IoError(m) => FlowErrorView::IoError(m@),
            FlowError::MalformedSelection(m) => FlowErrorView::MalformedSelection(m@),
            FlowError::ProviderCallFailed(m) => FlowErrorView::ProviderCallFailed(m@),
            FlowError::SelectionCancelled => FlowErrorView::SelectionCancelled,
        }
    }
}

impl FlowErrorView {
    /// The error only asks for another poll.
    pub open spec fn drives_retry(self) -> bool {
        self is AuthPending || self is RateLimited
    }

    /// The text shown to the user.
    pub open spec fn message(self) -> Seq<char> {
        match self {
            FlowErrorView::MissingField(f) => "Missing "@ + f.name_spec(),
            FlowErrorView::AuthPending => "authorization_pending"@,
            FlowErrorView::RateLimited => "slow_down"@,
            FlowErrorView::TokenExchangeFailed(m) => "CreateToken failed: "@ + m,
            FlowErrorView::MissingAccessToken => "Missing access_token"@,
            FlowErrorView::HomeDirUnresolved => "Could not locate home directory"@,
            FlowErrorView::IoError(m) => m,
            FlowErrorView::MalformedSelection(m) => "Invalid selection format: "@ + m,
            FlowErrorView::ProviderCallFailed(m) => m,
            FlowErrorView::SelectionCancelled => "No selection made."@,
        }
    }
}

impl FlowError {
    /// A copy of the error.
    pub fn duplicate(&self) -> (out: FlowError)
        ensures
            out@ == self@,
    {
        match self {
            FlowError::MissingField(f) => FlowError::MissingField(*f),
            FlowError::AuthPending => FlowError::AuthPending,
            FlowError::RateLimited => FlowError::RateLimited,
            FlowError::TokenExchangeFailed(m) => FlowError::TokenExchangeFailed(m.clone()),
            FlowError::MissingAccessToken => FlowError::MissingAccessToken,
            FlowError::HomeDirUnresolved => FlowError::HomeDirUnresolved,
            FlowError::IoError(m) => FlowError::IoError(m.clone()),
            FlowError::MalformedSelection(m) => FlowError::MalformedSelection(m.clone()),
            FlowError::ProviderCallFailed(m) => FlowError::ProviderCallFailed(m.clone()),
            FlowError::SelectionCancelled => FlowError::SelectionCancelled,
        }
    }

    /// Tells whether the error only asks for another poll.
    pub fn drives_retry(&self) -> (out: bool)
        ensures
            out == self@.drives_retry(),
    {
        match self {
            FlowError::AuthPending => true,
            FlowError::RateLimited => true,
            _ => false,
        }
    }

    /// The text shown to the user.
    pub fn message(&self) -> (out: String)
        ensures
            out@ == self@.message(),
    {
        match self {
            FlowError::MissingField(f) => String::from_str("Missing ").concat(f.name()),
            FlowError::AuthPending => String::from_str("authorization_pending"),
            FlowError::RateLimited => String::from_str("slow_down"),
            FlowError::TokenExchangeFailed(m) => String::from_str("CreateToken failed: ").concat(
                m.as_str(),
            ),
            FlowError::MissingAccessToken => String::from_str("Missing access_token"),
            FlowError::HomeDirUnresolved => String::from_str("Could not locate home directory"),
            FlowError::IoError(m) => m.clone(),
            FlowError::MalformedSelection(m) => String::from_str(
                "Invalid selection format: ",
            ).concat(m.as_str()),
            FlowError::ProviderCallFailed(m) => m.clone(),
            FlowError::SelectionCancelled => String::from_str("No selection made."),
        }
    }
}

} // verus!
