//! Role credentials and the credentials file that holds them.

use vstd::prelude::*;
use vstd::string::*;
use crate::device::opt_view;
use crate::errors::{FlowError, FlowErrorView};

verus! {

/// The short-lived credentials of one role.
#[derive(Clone, Debug)]
pub struct Credentials {
    pub access_key_id: String,
    pub secret_access_key: String,
    pub session_token: String,
}

/// The credentials file for one set of credentials: a single `[default]`
/// profile with the three keys in a fixed order.
pub open spec fn credentials_text(
    access_key_id: Seq<char>,
    secret_access_key: Seq<char>,
    session_token: Seq<char>,
) -> Seq<char> {
    "[default]\naws_access_key_id = "@ + access_key_id + "\naws_secret_access_key = "@
        + secret_access_key + "\naws_session_token = "@ + session_token + "\n"@
}

/// What the credentials file holds after a write, whatever it held before
/// (`None`: there was no file): the new profile alone.
pub open spec fn file_after_write(
    before: Option<Seq<char>>,
    access_key_id: Seq<char>,
    secret_access_key: Seq<char>,
    session_token: Seq<char>,
) -> Seq<char> {
    credentials_text(access_key_id, secret_access_key, session_token)
}

/// A field of a role-credentials response, empty where the response lacks it.
pub open spec fn or_empty(field: Option<Seq<char>>) -> Seq<char> {
    match field {
        Some(s) => s,
        None => Seq::empty(),
    }
}

impl Credentials {
    /// The credentials that a role-credentials response stands for: a field
    /// that it lacks is taken as empty.
    pub fn from_response(
        access_key_id: Option<String>,
        secret_access_key: Option<String>,
        session_token: Option<String>,
    ) -> (out: Credentials)
        ensures
            out.access_key_id@ == or_empty(opt_view(access_key_id)),
            out.secret_access_key@ == or_empty(opt_view(secret_access_key)),
            out.session_token@ == or_empty(opt_view(session_token)),
    {
        Credentials {
            access_key_id: match access_key_id {
                Some(s) => s,
                None => String::new(),
            },
            secret_access_key: match secret_access_key {
                Some(s) => s,
                None => String::new(),
            },
            session_token: match session_token {
                Some(s) => s,
                None => String::new(),
            },
        }
    }

    pub open spec fn text(&self) -> Seq<char> {
        credentials_text(self.access_key_id@, self.secret_access_key@, self.session_token@)
    }

    /// The text of the credentials file for these credentials.
    pub fn render(&self) -> (out: String)
        ensures
            out@ == self.text(),
    {
        String::from_str("[default]\naws_access_key_id = ").concat(
            self.access_key_id.as_str(),
        ).concat("\naws_secret_access_key = ").concat(self.secret_access_key.as_str()).concat(
            "\naws_session_token = ",
        ).concat(self.session_token.as_str()).concat("\n")
    }
}

/// Where and what to write: the file lies at `relative_path` below `home`,
/// its directory is made first where it is missing, and the file is replaced
/// by `contents`, not added to.
#[derive(Debug)]
pub struct CredentialsWrite<P> {
    pub home: P,
    pub relative_path: String,
    pub contents: String,
}

/// Prepares the write of the default credentials file below a home
/// directory, which may be unknown.
pub fn credentials_write<P>(
    home: Option<P>,
    access_key_id: &str,
    secret_access_key: &str,
    session_token: &str,
) -> (out: Result<CredentialsWrite<P>, FlowError>)
    ensures
        home is None <==> out is Err,
        out is Err ==> out->Err_0@ == FlowErrorView::HomeDirUnresolved,
        out is Ok ==> out->Ok_0.home == home->0 && out->Ok_0.relative_path@
            == ".aws/credentials"@ && forall|before: Option<Seq<char>>|
            out->Ok_0.contents@ == #[trigger] file_after_write(
                before,
                access_key_id@,
                secret_access_key@,
                session_token@,
            ),
{
    match home {
        None => Err(FlowError::HomeDirUnresolved),
        Some(home) => {
            let credentials = Credentials {
                access_key_id: String::from_str(access_key_id),
                secret_access_key: String::from_str(secret_access_key),
                session_token: String::from_str(session_token),
            };
            Ok(
                CredentialsWrite {
                    home,
                    relative_path: String::from_str(".aws/credentials"),
                    contents: credentials.render(),
                },
            )
        },
    }
}

/// `std::path::PathBuf`: a path in the file system, carried through as it is.
#[verifier::external_type_specification]
#[verifier::external_body]
pub struct ExPathBuf(std::path::PathBuf);

/// `dirs_next::home_dir`: the home directory of the user who runs the
/// program, where the environment tells it. Nothing is claimed of the answer.
#[verifier::external_body]
fn home_dir() -> (home: Option<std::path::PathBuf>) {
    dirs_next::home_dir()
}

/// Prepares the write of the default credentials file below the home
/// directory of the user who runs the program. Whether that directory is
/// known depends on the environment; where it is not, the write fails.
pub fn write_default_aws_credentials(
    access_key_id: &str,
    secret_access_key: &str,
    session_token: &str,
) -> (out: Result<CredentialsWrite<std::path::PathBuf>, FlowError>)
    ensures
        out is Err ==> out->Err_0@ == FlowErrorView::HomeDirUnresolved,
        out is Ok ==> out->Ok_0.relative_path@ == ".aws/credentials"@ && forall|
            before: Option<Seq<char>>,
        |
            out->Ok_0.contents@ == #[trigger] file_after_write(
                before,
                access_key_id@,
                secret_access_key@,
                session_token@,
            ),
{
    credentials_write(home_dir(), access_key_id, secret_access_key, session_token)
}

/// Writing twice leaves only what was written last: nothing of the first
/// credentials, nor of what the file held before them, stays in the file.
pub proof fn law_last_write_wins(
    before: Option<Seq<char>>,
    first: Credentials,
    second: Credentials,
)
    ensures
        file_after_write(
            Some(
                file_after_write(
                    before,
                    first.access_key_id@,
                    first.secret_access_key@,
                    first.session_token@,
                ),
            ),
            second.access_key_id@,
            second.secret_access_key@,
            second.session_token@,
        ) == second.text(),
        file_after_write(
            Some(second.text()),
            second.access_key_id@,
            second.secret_access_key@,
            second.session_token@,
        ) == second.text(),
{
}

} // verus!
