//! The sign-in workflow as a state machine: the caller performs each action
//! (a call to the provider, a prompt, a sleep, a file write) and reports its
//! outcome as the next event.

use vstd::prelude::*;
use vstd::string::*;
use crate::accounts::{
    AccountEntry,
    append_role_lines,
    display_name,
    next_account,
    next_with_id,
    role_lines,
    role_names,
    shown_name,
};
use crate::credentials::{Credentials, or_empty};
use crate::device::{
    ClientRegistration,
    DeviceAuthorization,
    DeviceAuthorizationRequest,
    RegistrationRequest,
    authorization_gap,
    client_registration,
    device_authorization,
    device_authorization_request,
    interval_seconds_spec,
    opt_view,
    registration_gap,
    registration_request,
};
use crate::errors::{FlowError, FlowErrorView};
use crate::poll::{
    PollAction,
    PollActionView,
    PollEvent,
    TokenPollStateView,
    TokenPoller,
    TokenRequest,
    transition,
};
use crate::selection::{Selection, fields, next_selection, next_valid};
use crate::text::{texts, trim_ends, trimmed};

verus! {

/// The answer to a prompt: the line that was read, without the white space
/// at its ends.
pub fn prompt_input(line: &str) -> (out: String)
    ensures
        out@ == trimmed(line@),
{
    String::from_str(trim_ends(line))
}

/// How a run ended without an error.
#[derive(Clone, Copy, Debug, PartialEq, Eq, Structural)]
pub enum Completion {
    /// The user has no account or no role to choose from.
    NoAccounts,
    /// The user chose nothing.
    NothingSelected,
    /// Every selected line was gone through.
    Completed,
}

/// The credentials part of a role-credentials response; each field may be missing.
#[derive(Clone, Debug)]
pub struct RoleCredentialsResponse {
    pub access_key_id: Option<String>,
    pub secret_access_key: Option<String>,
    pub session_token: Option<String>,
}

/// Where the workflow stands: each state but the first and the last two
/// waits for the outcome of the action that led to it.
#[derive(Debug)]
pub enum FlowState {
    /// Nothing was asked for yet.
    Idle,
    /// The client registration was sent.
    Registering { start_url: String },
    /// The device-authorization request was sent.
    Authorizing { registration: ClientRegistration },
    /// The browser is being opened on the verification page.
    OpeningBrowser { registration: ClientRegistration, authorization: DeviceAuthorization },
    /// The user was asked to confirm the sign-in.
    AwaitingUser { registration: ClientRegistration, authorization: DeviceAuthorization },
    /// A token request was sent.
    Polling { poller: TokenPoller },
    /// The list of accounts was asked for.
    ListingAccounts { access_token: String },
    /// The roles of the account at `cursor` were asked for.
    ListingRoles {
        access_token: String,
        accounts: Vec<AccountEntry>,
        cursor: usize,
        account_id: String,
        account_name: String,
        lines: Vec<String>,
    },
    /// The lines were offered for selection.
    Selecting { access_token: String },
    /// The credentials for the line at `cursor` were asked for.
    Fetching { access_token: String, selected: Vec<String>, cursor: usize, current: Selection },
    /// The credentials for the line at `cursor` are being written.
    Writing { access_token: String, selected: Vec<String>, cursor: usize },
    /// The run ended without an error.
    Finished(Completion),
    /// The run ended with this error.
    Aborted(FlowError),
}

/// The outcome of the action that the last step asked for.
#[derive(Debug)]
pub enum FlowEvent {
    /// The user supplied the portal's address and the region.
    Started { start_url: String, region: String },
    /// The provider answered the registration.
    Registered { client_id: Option<String>, client_secret: Option<String> },
    /// The provider answered the device-authorization request.
    Authorized {
        device_code: Option<String>,
        user_code: Option<String>,
        verification_uri: Option<String>,
        verification_uri_complete: Option<String>,
        interval: i32,
    },
    /// The browser was opened, or could not be.
    BrowserOpened(bool),
    /// The user confirmed the sign-in.
    Confirmed,
    /// The token endpoint answered.
    TokenAnswer(PollEvent),
    /// The provider listed the accounts.
    Accounts(Vec<AccountEntry>),
    /// The provider listed the names of the roles of the account asked about.
    Roles(Vec<Option<String>>),
    /// The user left the selection: with these lines, or without choosing.
    Selected(Option<Vec<String>>),
    /// The provider answered the request for credentials, with or without them.
    RoleCredentials(Option<RoleCredentialsResponse>),
    /// The credentials file was written.
    Written,
    /// The action failed.
    Failed(FlowError),
}

/// What the caller does next.
#[derive(Debug)]
pub enum FlowAction {
    /// Register the client.
    Register(RegistrationRequest),
    /// Ask for a device authorization.
    Authorize(DeviceAuthorizationRequest),
    /// Open the browser on this address.
    OpenBrowser(String),
    /// Wait until the user confirms. Where the browser could not be opened,
    /// show the address and the code to enter there first.
    AwaitConfirmation { fallback: Option<Fallback> },
    /// Sleep, then ask the token endpoint.
    RequestToken { after_seconds: u64, request: TokenRequest },
    /// Ask for the accounts.
    ListAccounts { access_token: String },
    /// Ask for the roles of an account.
    ListRoles { access_token: String, account_id: String },
    /// Offer these lines for selection.
    Select(Vec<String>),
    /// Ask for the credentials of a role.
    FetchCredentials { access_token: String, account_id: String, role_name: String },
    /// Write these credentials to the credentials file.
    WriteCredentials(Credentials),
    /// The run is over.
    Finish(Completion),
    /// The run is over: report this error.
    Fail(FlowError),
    /// The event does not belong to the state: nothing changed.
    Ignore,
}

/// What the user is shown where the browser could not be opened.
#[derive(Clone, Debug)]
pub struct Fallback {
    pub verification_uri: String,
    pub user_code: String,
}

/// One step of the workflow: the action to perform, and the errors that were
/// passed over on the way to it, which are only reported.
#[derive(Debug)]
pub struct FlowStep {
    pub action: FlowAction,
    pub skipped: Vec<FlowError>,
}

impl FlowState {
    /// Nothing follows this state.
    pub open spec fn is_terminal(self) -> bool {
        self is Finished || self is Aborted
    }

    /// How far the run has come.
    pub open spec fn rank(self) -> nat {
        match self {
            FlowState::Idle => 0,
            FlowState::Registering { .. } => 1,
            FlowState::Authorizing { .. } => 2,
            FlowState::OpeningBrowser { .. } => 3,
            FlowState::AwaitingUser { .. } => 4,
            FlowState::Polling { .. } => 5,
            FlowState::ListingAccounts { .. } => 6,
            FlowState::ListingRoles { .. } => 7,
            FlowState::Selecting { .. } => 8,
            FlowState::Fetching { .. } => 9,
            FlowState::Writing { .. } => 9,
            FlowState::Finished(_) => 10,
            FlowState::Aborted(_) => 10,
        }
    }
}

/// The views of a list of errors.
pub open spec fn errors_view(v: Seq<FlowError>) -> Seq<FlowErrorView> {
    v.map_values(|e: FlowError| e@)
}

/// The step changes nothing and asks for nothing.
pub open spec fn ignored(before: FlowState, after: FlowState, step: FlowStep) -> bool {
    &&& after == before
    &&& step.action is Ignore
    &&& step.skipped@.len() == 0
}

/// The step ends the run with the error `e`.
pub open spec fn aborts(e: FlowErrorView, after: FlowState, step: FlowStep) -> bool {
    &&& after matches FlowState::Aborted(x) && x@ == e
    &&& step.action matches FlowAction::Fail(y) && y@ == e
    &&& step.skipped@.len() == 0
}

/// The step ends the run without an error.
pub open spec fn finishes(c: Completion, after: FlowState, step: FlowStep) -> bool {
    &&& after == FlowState::Finished(c)
    &&& step.action == FlowAction::Finish(c)
}

/// The errors for the malformed lines from `from` up to `to`.
pub open spec fn malformed(selected: Seq<Seq<char>>, from: int, to: int) -> Seq<FlowErrorView> {
    Seq::new(
        if to >= from {
            (to - from) as nat
        } else {
            0
        },
        |j: int| FlowErrorView::MalformedSelection(selected[from + j]),
    )
}

/// The step goes on with the selected lines from `from` on: it reports
/// `notes` and the malformed lines that it passes over, and asks for the
/// credentials of the first well-formed line, or ends the run where none is left.
pub open spec fn proceeds(
    access_token: Seq<char>,
    selected: Seq<String>,
    from: int,
    notes: Seq<FlowErrorView>,
    after: FlowState,
    step: FlowStep,
) -> bool {
    let lines = texts(selected);
    let k = next_valid(lines, from);
    &&& errors_view(step.skipped@) == notes + malformed(lines, from, k)
    &&& if k < selected.len() {
        &&& after matches FlowState::Fetching { access_token: t, selected: s, cursor, current }
            && t@ == access_token && s@ == selected && cursor == k && current.account_id@
            == fields(lines[k])[0] && current.role_name@ == fields(lines[k])[2]
        &&& step.action matches FlowAction::FetchCredentials {
            access_token: t,
            account_id,
            role_name,
        } && t@ == access_token && account_id@ == fields(lines[k])[0] && role_name@ == fields(
            lines[k],
        )[2]
    } else {
        finishes(Completion::Completed, after, step)
    }
}

/// The position behind `cursor`, or the number of lines where `cursor` is
/// not among them.
pub open spec fn position_after(cursor: usize, len: nat) -> int {
    if cursor < len {
        cursor + 1
    } else {
        len as int
    }
}

/// The step goes on with the accounts from `from` on, having gathered
/// `lines`: it asks for the roles of the first account that has an
/// identifier; where none is left it offers the lines for selection, or ends
/// the run where there are no lines.
pub open spec fn lists_on(
    access_token: Seq<char>,
    accounts: Seq<AccountEntry>,
    from: int,
    lines: Seq<Seq<char>>,
    after: FlowState,
    step: FlowStep,
) -> bool {
    let k = next_with_id(accounts, from);
    &&& step.skipped@.len() == 0
    &&& if k < accounts.len() {
        &&& after matches FlowState::ListingRoles {
            access_token: t,
            accounts: a,
            cursor,
            account_id,
            account_name,
            lines: l,
        } && t@ == access_token && a@ == accounts && cursor == k && account_id@
            == accounts[k].account_id->0@ && account_name@ == display_name(
            opt_view(accounts[k].account_name),
        ) && texts(l@) == lines
        &&& step.action matches FlowAction::ListRoles { access_token: t, account_id } && t@
            == access_token && account_id@ == accounts[k].account_id->0@
    } else if lines.len() == 0 {
        finishes(Completion::NoAccounts, after, step)
    } else {
        &&& after matches FlowState::Selecting { access_token: t } && t@ == access_token
        &&& step.action matches FlowAction::Select(l) && texts(l@) == lines
    }
}

/// The token request is the one that the poller repeats.
pub open spec fn request_of(request: TokenRequest, poller: TokenPoller) -> bool {
    &&& request.client_id@ == poller.spec_client_id()
    &&& request.client_secret@ == poller.spec_client_secret()
    &&& request.grant_type@ == "urn:ietf:params:oauth:grant-type:device_code"@
    &&& request.device_code@ == poller.spec_device_code()
}

/// The step that an answer of the token endpoint brings.
pub open spec fn polls(
    poller: TokenPoller,
    answer: PollEvent,
    before: FlowState,
    after: FlowState,
    step: FlowStep,
) -> bool {
    let next = transition(poller.spec_interval(), poller.spec_state(), answer@);
    match next.2 {
        PollActionView::RetryAfter(seconds) => {
            &&& after matches FlowState::Polling { poller: p } && p.spec_interval() == next.0
                && p.spec_state() == next.1 && p.spec_client_id() == poller.spec_client_id()
                && p.spec_client_secret() == poller.spec_client_secret() && p.spec_device_code()
                == poller.spec_device_code()
            &&& step.action matches FlowAction::RequestToken { after_seconds, request }
                && after_seconds == seconds && request_of(request, poller)
            &&& step.skipped@.len() == 0
        },
        PollActionView::Deliver(token) => {
            &&& after matches FlowState::ListingAccounts { access_token: t } && t@ == token
            &&& step.action matches FlowAction::ListAccounts { access_token: t } && t@ == token
            &&& step.skipped@.len() == 0
        },
        PollActionView::Abort(e) => aborts(e, after, step),
        PollActionView::Stop => ignored(before, after, step),
    }
}

/// The step that a failed action brings: while credentials are fetched and
/// written the error is reported and the next line is taken up; before that
/// it ends the run.
pub open spec fn fails(e: FlowError, before: FlowState, after: FlowState, step: FlowStep) -> bool {
    match before {
        FlowState::Idle => ignored(before, after, step),
        FlowState::Fetching { access_token, selected, cursor, current } => proceeds(
            access_token@,
            selected@,
            position_after(cursor, selected@.len()),
            seq![e@],
            after,
            step,
        ),
        FlowState::Writing { access_token, selected, cursor } => proceeds(
            access_token@,
            selected@,
            position_after(cursor, selected@.len()),
            seq![e@],
            after,
            step,
        ),
        _ => aborts(e@, after, step),
    }
}

/// The error reported where the provider's answer holds no credentials.
pub open spec fn no_credentials(current: Selection) -> FlowErrorView {
    FlowErrorView::ProviderCallFailed(
        "Failed to fetch credentials for Account ID: "@ + current.account_id@ + ", Role: "@
            + current.role_name@,
    )
}

/// The workflow's steps: `before` and `event` lead to `after` and `step`.
pub open spec fn steps(before: FlowState, event: FlowEvent, after: FlowState, step: FlowStep) -> bool {
    if before.is_terminal() {
        ignored(before, after, step)
    } else {
        match (before, event) {
            (_, FlowEvent::Failed(e)) => fails(e, before, after, step),
            (FlowState::Idle, FlowEvent::Started { start_url, region }) => {
                &&& after matches FlowState::Registering { start_url: u } && u@ == start_url@
                &&& step.action matches FlowAction::Register(r) && r.client_name@
                    == "my-rust-sso-client"@ && r.client_type@ == "public"@ && r.scope@ == "sso"@
                &&& step.skipped@.len() == 0
            },
            (FlowState::Registering { start_url }, FlowEvent::Registered { client_id, client_secret }) => {
                match registration_gap(opt_view(client_id), opt_view(client_secret)) {
                    Some(f) => aborts(FlowErrorView::MissingField(f), after, step),
                    None => {
                        &&& after matches FlowState::Authorizing { registration: r }
                            && r.client_id@ == client_id->0@ && r.client_secret@
                            == client_secret->0@
                        &&& step.action matches FlowAction::Authorize(q) && q.client_id@
                            == client_id->0@ && q.client_secret@ == client_secret->0@
                            && q.start_url@ == start_url@
                        &&& step.skipped@.len() == 0
                    },
                }
            },
            (
                FlowState::Authorizing { registration },
                FlowEvent::Authorized {
                    device_code,
                    user_code,
                    verification_uri,
                    verification_uri_complete,
                    interval,
                },
            ) => {
                match authorization_gap(
                    opt_view(device_code),
                    opt_view(user_code),
                    opt_view(verification_uri),
                    opt_view(verification_uri_complete),
                ) {
                    Some(f) => aborts(FlowErrorView::MissingField(f), after, step),
                    None => {
                        &&& after matches FlowState::OpeningBrowser {
                            registration: r,
                            authorization: a,
                        } && r == registration && a.device_code@ == device_code->0@
                            && a.user_code@ == user_code->0@ && a.verification_uri@
                            == verification_uri->0@ && a.verification_uri_complete@
                            == verification_uri_complete->0@ && a.poll_interval_seconds
                            == interval_seconds_spec(interval)
                        &&& step.action matches FlowAction::OpenBrowser(url) && url@
                            == verification_uri_complete->0@
                        &&& step.skipped@.len() == 0
                    },
                }
            },
            (
                FlowState::OpeningBrowser { registration, authorization },
                FlowEvent::BrowserOpened(opened),
            ) => {
                &&& after == (FlowState::AwaitingUser { registration, authorization })
                &&& step.action matches FlowAction::AwaitConfirmation { fallback }
                    && if opened {
                    fallback is None
                } else {
                    fallback matches Some(f) && f.verification_uri@
                        == authorization.verification_uri@ && f.user_code@
                        == authorization.user_code@
                }
                &&& step.skipped@.len() == 0
            },
            (FlowState::AwaitingUser { registration, authorization }, FlowEvent::Confirmed) => {
                &&& after matches FlowState::Polling { poller: p } && p.spec_interval()
                    == authorization.poll_interval_seconds && p.spec_state()
                    == TokenPollStateView::Pending && p.spec_client_id() == registration.client_id@
                    && p.spec_client_secret() == registration.client_secret@
                    && p.spec_device_code() == authorization.device_code@ && (
                step.action matches FlowAction::RequestToken { after_seconds, request }
                    && after_seconds == 0 && request_of(request, p))
                &&& step.skipped@.len() == 0
            },
            (FlowState::Polling { poller }, FlowEvent::TokenAnswer(answer)) => polls(
                poller,
                answer,
                before,
                after,
                step,
            ),
            (FlowState::ListingAccounts { access_token }, FlowEvent::Accounts(accounts)) => lists_on(
                access_token@,
                accounts@,
                0,
                Seq::empty(),
                after,
                step,
            ),
            (
                FlowState::ListingRoles {
                    access_token,
                    accounts,
                    cursor,
                    account_id,
                    account_name,
                    lines,
                },
                FlowEvent::Roles(roles),
            ) => lists_on(
                access_token@,
                accounts@,
                position_after(cursor, accounts@.len()),
                texts(lines@) + role_lines(
                    account_id@,
                    account_name@,
                    role_names(roles@),
                    roles@.len(),
                ),
                after,
                step,
            ),
            (FlowState::Selecting { access_token }, FlowEvent::Selected(choice)) => match choice {
                None => aborts(FlowErrorView::SelectionCancelled, after, step),
                Some(selected) => if selected@.len() == 0 {
                    finishes(Completion::NothingSelected, after, step) && step.skipped@.len() == 0
                } else {
                    proceeds(access_token@, selected@, 0, Seq::empty(), after, step)
                },
            },
            (
                FlowState::Fetching { access_token, selected, cursor, current },
                FlowEvent::RoleCredentials(response),
            ) => match response {
                Some(r) => {
                    &&& after matches FlowState::Writing { access_token: t, selected: s, cursor: c }
                        && t@ == access_token@ && s@ == selected@ && c == cursor
                    &&& step.action matches FlowAction::WriteCredentials(w) && w.access_key_id@
                        == or_empty(opt_view(r.access_key_id)) && w.secret_access_key@ == or_empty(
                        opt_view(r.secret_access_key),
                    ) && w.session_token@ == or_empty(opt_view(r.session_token))
                    &&& step.skipped@.len() == 0
                },
                None => proceeds(
                    access_token@,
                    selected@,
                    position_after(cursor, selected@.len()),
                    seq![no_credentials(current)],
                    after,
                    step,
                ),
            },
            (FlowState::Writing { access_token, selected, cursor }, FlowEvent::Written) => proceeds(
                access_token@,
                selected@,
                position_after(cursor, selected@.len()),
                Seq::empty(),
                after,
                step,
            ),
            _ => ignored(before, after, step),
        }
    }
}

fn ignore(state: FlowState) -> (out: (FlowState, FlowStep))
    ensures
        ignored(state, out.0, out.1),
{
    (state, FlowStep { action: FlowAction::Ignore, skipped: Vec::new() })
}

fn abort(e: FlowError) -> (out: (FlowState, FlowStep))
    ensures
        aborts(e@, out.0, out.1),
{
    let report = e.duplicate();
    (FlowState::Aborted(e), FlowStep { action: FlowAction::Fail(report), skipped: Vec::new() })
}

fn finish(c: Completion, skipped: Vec<FlowError>) -> (out: (FlowState, FlowStep))
    ensures
        finishes(c, out.0, out.1),
        out.1.skipped == skipped,
{
    (FlowState::Finished(c), FlowStep { action: FlowAction::Finish(c), skipped })
}

fn behind(cursor: usize, len: usize) -> (out: usize)
    ensures
        out == position_after(cursor, len as nat),
{
    if cursor < len {
        cursor + 1
    } else {
        len
    }
}

fn proceed(access_token: String, selected: Vec<String>, from: usize, notes: Vec<FlowError>) -> (out:
    (FlowState, FlowStep))
    ensures
        proceeds(access_token@, selected@, from as int, errors_view(notes@), out.0, out.1),
{
    let mut found = next_selection(&selected, from);
    let mut skipped = notes;
    let ghost lines = texts(selected@);
    let ghost k = next_valid(lines, from as int);
    let ghost passed = found.skipped@;
    skipped.append(&mut found.skipped);
    proof {
        assert(skipped@ == notes@ + passed);
        assert forall|j: int| 0 <= j < passed.len() implies (#[trigger] passed[j])@ == malformed(
            lines,
            from as int,
            k,
        )[j] by {
            assert(lines[from + j] == selected@[from + j]@);
        }
        assert(errors_view(skipped@) =~= errors_view(notes@) + malformed(lines, from as int, k));
    }
    match found.current {
        Some(current) => {
            assert(lines[k] == selected@[k]@);
            let action = FlowAction::FetchCredentials {
                access_token: access_token.clone(),
                account_id: current.account_id.clone(),
                role_name: current.role_name.clone(),
            };
            (
                FlowState::Fetching { access_token, selected, cursor: found.index, current },
                FlowStep { action, skipped },
            )
        },
        None => finish(Completion::Completed, skipped),
    }
}

fn list_on(access_token: String, accounts: Vec<AccountEntry>, from: usize, lines: Vec<String>) -> (out:
    (FlowState, FlowStep))
    ensures
        lists_on(access_token@, accounts@, from as int, texts(lines@), out.0, out.1),
{
    let k = next_account(&accounts, from);
    if k < accounts.len() {
        let account_id = match &accounts[k].account_id {
            Some(id) => id.clone(),
            None => String::new(),
        };
        let account_name = shown_name(&accounts[k]);
        let action = FlowAction::ListRoles {
            access_token: access_token.clone(),
            account_id: account_id.clone(),
        };
        (
            FlowState::ListingRoles {
                access_token,
                accounts,
                cursor: k,
                account_id,
                account_name,
                lines,
            },
            FlowStep { action, skipped: Vec::new() },
        )
    } else if lines.len() == 0 {
        finish(Completion::NoAccounts, Vec::new())
    } else {
        (
            FlowState::Selecting { access_token },
            FlowStep { action: FlowAction::Select(lines), skipped: Vec::new() },
        )
    }
}

fn fail(state: FlowState, e: FlowError) -> (out: (FlowState, FlowStep))
    requires
        !state.is_terminal(),
    ensures
        fails(e, state, out.0, out.1),
{
    match state {
        FlowState::Idle => ignore(FlowState::Idle),
        FlowState::Fetching { access_token, selected, cursor, current } => {
            let from = behind(cursor, selected.len());
            let mut notes: Vec<FlowError> = Vec::new();
            notes.push(e);
            assert(errors_view(notes@) =~= seq![e@]);
            proceed(access_token, selected, from, notes)
        },
        FlowState::Writing { access_token, selected, cursor } => {
            let from = behind(cursor, selected.len());
            let mut notes: Vec<FlowError> = Vec::new();
            notes.push(e);
            assert(errors_view(notes@) =~= seq![e@]);
            proceed(access_token, selected, from, notes)
        },
        _ => abort(e),
    }
}

fn poll(poller: TokenPoller, answer: PollEvent) -> (out: (FlowState, FlowStep))
    ensures
        polls(poller, answer, FlowState::Polling { poller }, out.0, out.1),
{
    if poller.state().is_terminal() {
        return ignore(FlowState::Polling { poller });
    }
    let mut next = poller;
    let action = next.step(&answer);
    match action {
        PollAction::RetryAfter(after_seconds) => {
            let request = next.request();
            (
                FlowState::Polling { poller: next },
                FlowStep {
                    action: FlowAction::RequestToken { after_seconds, request },
                    skipped: Vec::new(),
                },
            )
        },
        PollAction::Deliver(token) => (
            FlowState::ListingAccounts { access_token: token.clone() },
            FlowStep {
                action: FlowAction::ListAccounts { access_token: token },
                skipped: Vec::new(),
            },
        ),
        PollAction::Abort(e) => abort(e),
        PollAction::Stop => ignore(FlowState::Polling { poller: next }),
    }
}

/// Takes the workflow one step further: from a state and the outcome of the
/// last action to the next state and the next action.
pub fn advance(state: FlowState, event: FlowEvent) -> (out: (FlowState, FlowStep))
    ensures
        steps(state, event, out.0, out.1),
{
    match state {
        FlowState::Finished(c) => { return ignore(FlowState::Finished(c)); },
        FlowState::Aborted(e) => { return ignore(FlowState::Aborted(e)); },
        _ => {},
    }
    match event {
        FlowEvent::Failed(e) => fail(state, e),
        FlowEvent::Started { start_url, region } => match state {
            FlowState::Idle => (
                FlowState::Registering { start_url },
                FlowStep {
                    action: FlowAction::Register(registration_request()),
                    skipped: Vec::new(),
                },
            ),
            other => ignore(other),
        },
        FlowEvent::Registered { client_id, client_secret } => match state {
            FlowState::Registering { start_url } => match client_registration(
                client_id,
                client_secret,
            ) {
                Ok(registration) => {
                    let request = device_authorization_request(&registration, start_url.as_str());
                    (
                        FlowState::Authorizing { registration },
                        FlowStep { action: FlowAction::Authorize(request), skipped: Vec::new() },
                    )
                },
                Err(e) => abort(e),
            },
            other => ignore(other),
        },
        FlowEvent::Authorized {
            device_code,
            user_code,
            verification_uri,
            verification_uri_complete,
            interval,
        } => match state {
            FlowState::Authorizing { registration } => match device_authorization(
                device_code,
                user_code,
                verification_uri,
                verification_uri_complete,
                interval,
            ) {
                Ok(authorization) => {
                    let url = authorization.verification_uri_complete.clone();
                    (
                        FlowState::OpeningBrowser { registration, authorization },
                        FlowStep { action: FlowAction::OpenBrowser(url), skipped: Vec::new() },
                    )
                },
                Err(e) => abort(e),
            },
            other => ignore(other),
        },
        FlowEvent::BrowserOpened(opened) => match state {
            FlowState::OpeningBrowser { registration, authorization } => {
                let fallback = if opened {
                    None
                } else {
                    Some(
                        Fallback {
                            verification_uri: authorization.verification_uri.clone(),
                            user_code: authorization.user_code.clone(),
                        },
                    )
                };
                (
                    FlowState::AwaitingUser { registration, authorization },
                    FlowStep {
                        action: FlowAction::AwaitConfirmation { fallback },
                        skipped: Vec::new(),
                    },
                )
            },
            other => ignore(other),
        },
        FlowEvent::Confirmed => match state {
            FlowState::AwaitingUser { registration, authorization } => {
                let poller = TokenPoller::new(
                    registration,
                    authorization.device_code,
                    authorization.poll_interval_seconds,
                );
                let request = poller.request();
                (
                    FlowState::Polling { poller },
                    FlowStep {
                        action: FlowAction::RequestToken { after_seconds: 0, request },
                        skipped: Vec::new(),
                    },
                )
            },
            other => ignore(other),
        },
        FlowEvent::TokenAnswer(answer) => match state {
            FlowState::Polling { poller } => poll(poller, answer),
            other => ignore(other),
        },
        FlowEvent::Accounts(accounts) => match state {
            FlowState::ListingAccounts { access_token } => {
                let lines: Vec<String> = Vec::new();
                assert(texts(lines@) =~= Seq::empty());
                list_on(access_token, accounts, 0, lines)
            },
            other => ignore(other),
        },
        FlowEvent::Roles(roles) => match state {
            FlowState::ListingRoles {
                access_token,
                accounts,
                cursor,
                account_id,
                account_name,
                lines,
            } => {
                let mut lines = lines;
                append_role_lines(&mut lines, account_id.as_str(), account_name.as_str(), &roles);
                let from = behind(cursor, accounts.len());
                list_on(access_token, accounts, from, lines)
            },
            other => ignore(other),
        },
        FlowEvent::Selected(choice) => match state {
            FlowState::Selecting { access_token } => match choice {
                None => abort(FlowError::SelectionCancelled),
                Some(selected) => if selected.len() == 0 {
                    finish(Completion::NothingSelected, Vec::new())
                } else {
                    let notes: Vec<FlowError> = Vec::new();
                    assert(errors_view(notes@) =~= Seq::empty());
                    proceed(access_token, selected, 0, notes)
                },
            },
            other => ignore(other),
        },
        FlowEvent::RoleCredentials(response) => match state {
            FlowState::Fetching { access_token, selected, cursor, current } => match response {
                Some(r) => {
                    let credentials = Credentials::from_response(
                        r.access_key_id,
                        r.secret_access_key,
                        r.session_token,
                    );
                    (
                        FlowState::Writing { access_token, selected, cursor },
                        FlowStep {
                            action: FlowAction::WriteCredentials(credentials),
                            skipped: Vec::new(),
                        },
                    )
                },
                None => {
                    let text = String::from_str(
                        "Failed to fetch credentials for Account ID: ",
                    ).concat(current.account_id.as_str()).concat(", Role: ").concat(
                        current.role_name.as_str(),
                    );
                    let mut notes: Vec<FlowError> = Vec::new();
                    notes.push(FlowError::ProviderCallFailed(text));
                    assert(errors_view(notes@) =~= seq![no_credentials(current)]);
                    let from = behind(cursor, selected.len());
                    proceed(access_token, selected, from, notes)
                },
            },
            other => ignore(other),
        },
        FlowEvent::Written => match state {
            FlowState::Writing { access_token, selected, cursor } => {
                let notes: Vec<FlowError> = Vec::new();
                assert(errors_view(notes@) =~= Seq::empty());
                let from = behind(cursor, selected.len());
                proceed(access_token, selected, from, notes)
            },
            other => ignore(other),
        },
    }
}

/// The sign-in workflow of one run: the portal's address and the region, as
/// the user supplied them, and the state of the run.
#[derive(Debug)]
pub struct AwsSsoWorkflow {
    start_url: String,
    region: String,
    state: FlowState,
}

impl AwsSsoWorkflow {
    pub closed spec fn spec_start_url(&self) -> Seq<char> {
        self.start_url@
    }

    pub closed spec fn spec_region(&self) -> Seq<char> {
        self.region@
    }

    pub closed spec fn spec_state(&self) -> FlowState {
        self.state
    }

    /// A workflow that has not begun: no address, no region.
    pub fn new() -> (out: Self)
        ensures
            out.spec_start_url() == Seq::<char>::empty(),
            out.spec_region() == Seq::<char>::empty(),
            out.spec_state() == FlowState::Idle,
    {
        AwsSsoWorkflow { start_url: String::new(), region: String::new(), state: FlowState::Idle }
    }

    /// The portal's address.
    pub fn start_url(&self) -> (out: &str)
        ensures
            out@ == self.spec_start_url(),
    {
        self.start_url.as_str()
    }

    /// The region in which the provider is asked.
    pub fn region(&self) -> (out: &str)
        ensures
            out@ == self.spec_region(),
    {
        self.region.as_str()
    }

    /// Where the run stands.
    pub fn state(&self) -> (out: &FlowState)
        ensures
            *out == self.spec_state(),
    {
        &self.state
    }

    /// Runs the workflow one step further: takes the outcome of the last
    /// action and says what to do next. The first event of a run supplies
    /// the address and the region, which are kept.
    pub fn run_workflow(&mut self, event: FlowEvent) -> (step: FlowStep)
        ensures
            steps(old(self).spec_state(), event, final(self).spec_state(), step),
            match event {
                FlowEvent::Started { start_url, region } if old(self).spec_state() is Idle => {
                    final(self).spec_start_url() == start_url@ && final(self).spec_region()
                        == region@
                },
                _ => final(self).spec_start_url() == old(self).spec_start_url()
                    && final(self).spec_region() == old(self).spec_region(),
            },
    {
        let mut state = FlowState::Idle;
        core::mem::swap(&mut self.state, &mut state);
        match &event {
            FlowEvent::Started { start_url, region } => {
                match &state {
                    FlowState::Idle => {
                        self.start_url = start_url.clone();
                        self.region = region.clone();
                    },
                    _ => {},
                }
            },
            _ => {},
        }
        let (next, step) = advance(state, event);
        self.state = next;
        step
    }
}

/// A run only moves forward: no step leads to an earlier stage, and once the
/// run has ended, with or without an error, no event changes it or asks for
/// anything more.
pub proof fn law_run_moves_forward(
    before: FlowState,
    event: FlowEvent,
    after: FlowState,
    step: FlowStep,
)
    requires
        steps(before, event, after, step),
    ensures
        before.rank() <= after.rank(),
        before.is_terminal() ==> after == before && step.action is Ignore,
        after.is_terminal() && !before.is_terminal() <==> step.action is Finish
            || step.action is Fail,
{
}

/// An action that fails before the selection has been made ends the run with
/// its error; one that fails while credentials are fetched and written does
/// not: the error is reported first among those passed over, and the run goes on.
pub proof fn law_failures(before: FlowState, e: FlowError, after: FlowState, step: FlowStep)
    requires
        steps(before, FlowEvent::Failed(e), after, step),
        !before.is_terminal(),
        !(before is Idle),
    ensures
        before is Fetching || before is Writing ==> !(after is Aborted) && step.skipped@.len() >= 1
            && step.skipped@[0]@ == e@,
        !(before is Fetching || before is Writing) ==> aborts(e@, after, step),
{
    if before is Fetching || before is Writing {
        let views = errors_view(step.skipped@);
        assert(views.len() == step.skipped@.len());
        assert(exists|rest: Seq<FlowErrorView>| views == seq![e@] + rest) by {
            match before {
                FlowState::Fetching { access_token, selected, cursor, current } => {
                    let from = position_after(cursor, selected@.len());
                    let lines = texts(selected@);
                    assert(views == seq![e@] + malformed(lines, from, next_valid(lines, from)));
                },
                FlowState::Writing { access_token, selected, cursor } => {
                    let from = position_after(cursor, selected@.len());
                    let lines = texts(selected@);
                    assert(views == seq![e@] + malformed(lines, from, next_valid(lines, from)));
                },
                _ => {},
            }
        }
        let rest = choose|rest: Seq<FlowErrorView>| views == seq![e@] + rest;
        assert(views.len() >= 1);
        assert(views[0] == e@);
        assert(views[0] == step.skipped@[0]@);
    }
}

/// Once the selection has been made the run never ends with an error:
/// whatever happens while credentials are fetched and written, the run goes
/// on or ends without one.
pub proof fn law_no_error_after_selection(
    before: FlowState,
    event: FlowEvent,
    after: FlowState,
    step: FlowStep,
)
    requires
        steps(before, event, after, step),
        before is Fetching || before is Writing,
    ensures
        after is Fetching || after is Writing || after == FlowState::Finished(
            Completion::Completed,
        ),
        !(step.action is Fail),
{
}

/// A malformed line among the selected ones never ends the run: whatever
/// the lines hold, going on with them asks for credentials or ends the run
/// without an error, and reports one error for each line passed over.
pub proof fn law_malformed_lines_are_skipped(
    access_token: Seq<char>,
    selected: Seq<String>,
    from: int,
    after: FlowState,
    step: FlowStep,
)
    requires
        0 <= from <= selected.len(),
        proceeds(access_token, selected, from, Seq::empty(), after, step),
    ensures
        !(after is Aborted),
        from <= next_valid(texts(selected), from) <= selected.len(),
        step.skipped@.len() == next_valid(texts(selected), from) - from,
        forall|j: int|
            from <= j < next_valid(texts(selected), from) ==> fields(
                #[trigger] texts(selected)[j],
            ).len() != 3,
{
    lemma_next_valid(texts(selected), from);
    assert(errors_view(step.skipped@).len() == step.skipped@.len());
}

/// `next_valid` lies between `from` and the number of lines, and no line
/// before it from `from` on has three fields.
pub proof fn lemma_next_valid(lines: Seq<Seq<char>>, from: int)
    requires
        0 <= from <= lines.len(),
    ensures
        from <= next_valid(lines, from) <= lines.len(),
        next_valid(lines, from) < lines.len() ==> fields(lines[next_valid(lines, from)]).len()
            == 3,
        forall|j: int| from <= j < next_valid(lines, from) ==> fields(#[trigger] lines[j]).len() != 3,
    decreases lines.len() - from,
{
    if from < lines.len() && fields(lines[from]).len() != 3 {
        lemma_next_valid(lines, from + 1);
    }
}

} // verus!
