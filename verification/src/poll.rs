//! The token poller: one step per answer of the token endpoint.
//!
//! The caller sends the request, hands the answer to [`TokenPoller::step`] and
//! does what the returned action says: sleep and ask again, take the token, or
//! give up.

use vstd::prelude::*;
use vstd::string::*;
use crate::device::{ClientRegistration, opt_view};
use crate::errors::{FlowError, FlowErrorView};
use crate::text::{contains, contains_text};

verus! {

/// Seconds added to the polling interval each time the provider asks for slower polling.
pub const SLOW_DOWN_PENALTY: u64 = 5;

/// Where the polling stands.
#[derive(Clone, Debug)]
pub enum TokenPollState {
    /// Waiting for the user; nothing has slowed the polling since the last answer.
    Pending,
    /// Waiting for the user; the last answer asked for slower polling.
    SlowDown,
    /// The provider issued this access token.
    Succeeded(String),
    /// Polling ended without a token, for this reason.
    Failed(String),
}

pub enum TokenPollStateView {
    Pending,
    SlowDown,
    Succeeded(Seq<char>),
    Failed(Seq<char>),
}

impl View for TokenPollState {
    type V = TokenPollStateView;

    open spec fn view(&self) -> TokenPollStateView {
        match self {
            TokenPollState::Pending => TokenPollStateView::Pending,
            TokenPollState::SlowDown => TokenPollStateView::SlowDown,
            TokenPollState::Succeeded(t) => TokenPollStateView::Succeeded(t@),
            TokenPollState::Failed(r) => TokenPollStateView::Failed(r@),
        }
    }
}

impl TokenPollStateView {
    /// Nothing follows this state.
    pub open spec fn is_terminal(self) -> bool {
        self is Succeeded || self is Failed
    }
}

impl TokenPollState {
    /// Tells whether polling has ended.
    pub fn is_terminal(&self) -> (out: bool)
        ensures
            out == self@.is_terminal(),
    {
        match self {
            TokenPollState::Succeeded(_) => true,
            TokenPollState::Failed(_) => true,
            _ => false,
        }
    }
}

/// An answer of the token endpoint.
#[derive(Clone, Debug)]
pub enum PollEvent {
    /// The exchange went through; holds the response's access token, if it has one.
    Granted(Option<String>),
    /// The exchange was refused with the error that is known to mean: the
    /// user has not finished signing in.
    Pending,
    /// The exchange was refused with the error that is known to mean: poll
    /// more slowly.
    SlowDown,
    /// The exchange was refused with an error of no known kind; holds its
    /// text, which is searched for the marks of the two kinds above.
    Refused(String),
}

pub enum PollEventView {
    Granted(Option<Seq<char>>),
    Pending,
    SlowDown,
    Refused(Seq<char>),
}

impl View for PollEvent {
    type V = PollEventView;

    open spec fn view(&self) -> PollEventView {
        match self {
            PollEvent::Granted(t) => PollEventView::Granted(opt_view(*t)),
            PollEvent::Pending => PollEventView::Pending,
            PollEvent::SlowDown => PollEventView::SlowDown,
            PollEvent::Refused(m) => PollEventView::Refused(m@),
        }
    }
}

/// What the caller does next.
#[derive(Clone, Debug)]
pub enum PollAction {
    /// Sleep this many seconds, then send the request again.
    RetryAfter(u64),
    /// Polling is over: this is the access token.
    Deliver(String),
    /// Polling is over: report this error.
    Abort(FlowError),
    /// Polling was over before this answer came: send nothing more.
    Stop,
}

pub enum PollActionView {
    RetryAfter(u64),
    Deliver(Seq<char>),
    Abort(FlowErrorView),
    Stop,
}

impl View for PollAction {
    type V = PollActionView;

    open spec fn view(&self) -> PollActionView {
        match self {
            PollAction::RetryAfter(s) => PollActionView::RetryAfter(*s),
            PollAction::Deliver(t) => PollActionView::Deliver(t@),
            PollAction::Abort(e) => PollActionView::Abort(e@),
            PollAction::Stop => PollActionView::Stop,
        }
    }
}

/// What a refusal means, by the marks in its text: the pending mark is looked
/// for first, then the slow-down mark; a text with neither is final.
pub open spec fn classify(msg: Seq<char>) -> FlowErrorView {
    if contains(msg, "authorization_pending"@) {
        FlowErrorView::AuthPending
    } else if contains(msg, "slow_down"@) {
        FlowErrorView::RateLimited
    } else {
        FlowErrorView::TokenExchangeFailed(msg)
    }
}

pub fn classify_error(msg: &str) -> (out: FlowError)
    ensures
        out@ == classify(msg@),
{
    if contains_text(msg, "authorization_pending") {
        FlowError::AuthPending
    } else if contains_text(msg, "slow_down") {
        FlowError::RateLimited
    } else {
        FlowError::TokenExchangeFailed(String::from_str(msg))
    }
}

/// What a refusal means: its kind where that is known, else what the marks
/// in its text say.
pub open spec fn refusal(event: PollEventView) -> FlowErrorView
    recommends
        !(event is Granted),
{
    match event {
        PollEventView::Pending => FlowErrorView::AuthPending,
        PollEventView::SlowDown => FlowErrorView::RateLimited,
        PollEventView::Refused(msg) => classify(msg),
        PollEventView::Granted(_) => FlowErrorView::MissingAccessToken,
    }
}

/// The interval after one request for slower polling: five seconds more,
/// capped at the largest number of seconds that can be held.
pub open spec fn slowed(interval: u64) -> u64 {
    if interval + SLOW_DOWN_PENALTY <= u64::MAX {
        (interval + SLOW_DOWN_PENALTY) as u64
    } else {
        u64::MAX
    }
}

/// The access token of a token response, or the error for its absence.
pub fn extract_access_token(access_token: Option<String>) -> (out: Result<String, FlowError>)
    ensures
        match access_token {
            Some(t) => out is Ok && out->Ok_0@ == t@,
            None => out is Err && out->Err_0@ == FlowErrorView::MissingAccessToken,
        },
{
    match access_token {
        Some(t) => Ok(t),
        None => Err(FlowError::MissingAccessToken),
    }
}

/// The state that a final error leaves behind.
pub open spec fn failed_with(e: FlowErrorView) -> TokenPollStateView {
    TokenPollStateView::Failed(e.message())
}

/// One step of the poller: from the interval, the state and an answer to the
/// next interval, the next state and the action.
pub open spec fn transition(interval: u64, state: TokenPollStateView, event: PollEventView) -> (
    u64,
    TokenPollStateView,
    PollActionView,
) {
    if state.is_terminal() {
        (interval, state, PollActionView::Stop)
    } else {
        match event {
            PollEventView::Granted(Some(t)) => (
                interval,
                TokenPollStateView::Succeeded(t),
                PollActionView::Deliver(t),
            ),
            PollEventView::Granted(None) => (
                interval,
                failed_with(FlowErrorView::MissingAccessToken),
                PollActionView::Abort(FlowErrorView::MissingAccessToken),
            ),
            _ => match refusal(event) {
                FlowErrorView::AuthPending => (
                    interval,
                    TokenPollStateView::Pending,
                    PollActionView::RetryAfter(interval),
                ),
                FlowErrorView::RateLimited => (
                    slowed(interval),
                    TokenPollStateView::SlowDown,
                    PollActionView::RetryAfter(slowed(interval)),
                ),
                e => (interval, failed_with(e), PollActionView::Abort(e)),
            },
        }
    }
}

/// What the token call sends.
#[derive(Clone, Debug)]
pub struct TokenRequest {
    pub client_id: String,
    pub client_secret: String,
    pub grant_type: String,
    pub device_code: String,
}

/// The poller: the request it repeats, the interval it sleeps, and its state.
#[derive(Clone, Debug)]
pub struct TokenPoller {
    registration: ClientRegistration,
    device_code: String,
    interval: u64,
    state: TokenPollState,
}

impl TokenPoller {
    pub closed spec fn spec_interval(&self) -> u64 {
        self.interval
    }

    pub closed spec fn spec_state(&self) -> TokenPollStateView {
        self.state@
    }

    pub closed spec fn spec_client_id(&self) -> Seq<char> {
        self.registration.client_id@
    }

    pub closed spec fn spec_client_secret(&self) -> Seq<char> {
        self.registration.client_secret@
    }

    pub closed spec fn spec_device_code(&self) -> Seq<char> {
        self.device_code@
    }

    /// A poller that has not asked yet.
    pub fn new(registration: ClientRegistration, device_code: String, interval: u64) -> (out: Self)
        ensures
            out.spec_interval() == interval,
            out.spec_state() == TokenPollStateView::Pending,
            out.spec_client_id() == registration.client_id@,
            out.spec_client_secret() == registration.client_secret@,
            out.spec_device_code() == device_code@,
    {
        TokenPoller { registration, device_code, interval, state: TokenPollState::Pending }
    }

    /// The seconds to sleep before the next request.
    #[verifier::when_used_as_spec(spec_interval)]
    pub fn interval(&self) -> (out: u64)
        ensures
            out == self.spec_interval(),
    {
        self.interval
    }

    /// Where the polling stands.
    pub fn state(&self) -> (out: &TokenPollState)
        ensures
            out@ == self.spec_state(),
    {
        &self.state
    }

    /// The request to send, the same at every attempt.
    pub fn request(&self) -> (req: TokenRequest)
        ensures
            req.client_id@ == self.spec_client_id(),
            req.client_secret@ == self.spec_client_secret(),
            req.grant_type@ == "urn:ietf:params:oauth:grant-type:device_code"@,
            req.device_code@ == self.spec_device_code(),
    {
        TokenRequest {
            client_id: self.registration.client_id.clone(),
            client_secret: self.registration.client_secret.clone(),
            grant_type: String::from_str("urn:ietf:params:oauth:grant-type:device_code"),
            device_code: self.device_code.clone(),
        }
    }

    /// Takes one answer of the token endpoint and says what to do next.
    pub fn step(&mut self, event: &PollEvent) -> (action: PollAction)
        ensures
            (final(self).spec_interval(), final(self).spec_state(), action@) == transition(
                old(self).spec_interval(),
                old(self).spec_state(),
                event@,
            ),
            final(self).spec_client_id() == old(self).spec_client_id(),
            final(self).spec_client_secret() == old(self).spec_client_secret(),
            final(self).spec_device_code() == old(self).spec_device_code(),
    {
        if self.state.is_terminal() {
            return PollAction::Stop;
        }
        match event {
            PollEvent::Granted(Some(t)) => {
                self.state = TokenPollState::Succeeded(t.clone());
                PollAction::Deliver(t.clone())
            },
            PollEvent::Granted(None) => {
                let e = FlowError::MissingAccessToken;
                self.state = TokenPollState::Failed(e.message());
                PollAction::Abort(e)
            },
            refused => {
                let e = match refused {
                    PollEvent::Pending => FlowError::AuthPending,
                    PollEvent::SlowDown => FlowError::RateLimited,
                    PollEvent::Refused(msg) => classify_error(msg.as_str()),
                    PollEvent::Granted(_) => FlowError::MissingAccessToken,
                };
                match e {
                    FlowError::AuthPending => {
                        self.state = TokenPollState::Pending;
                        PollAction::RetryAfter(self.interval)
                    },
                    FlowError::RateLimited => {
                        self.interval = self.interval.saturating_add(SLOW_DOWN_PENALTY);
                        self.state = TokenPollState::SlowDown;
                        PollAction::RetryAfter(self.interval)
                    },
                    _ => {
                        self.state = TokenPollState::Failed(e.message());
                        PollAction::Abort(e)
                    },
                }
            },
        }
    }
}

/// The poller after the first `n` of a run of answers: its interval and state.
pub open spec fn after(
    interval: u64,
    state: TokenPollStateView,
    events: Seq<PollEventView>,
    n: nat,
) -> (u64, TokenPollStateView)
    decreases n,
{
    if n == 0 {
        (interval, state)
    } else {
        let before = after(interval, state, events, (n - 1) as nat);
        let next = transition(before.0, before.1, events[n - 1]);
        (next.0, next.1)
    }
}

/// The action that answer `k` of a run brings.
pub open spec fn action_at(
    interval: u64,
    state: TokenPollStateView,
    events: Seq<PollEventView>,
    k: nat,
) -> PollActionView {
    let before = after(interval, state, events, k);
    transition(before.0, before.1, events[k as int]).2
}

/// The sleeps that the first `n` answers of a run bring, in order.
pub open spec fn sleeps(
    interval: u64,
    state: TokenPollStateView,
    events: Seq<PollEventView>,
    n: nat,
) -> Seq<u64>
    decreases n,
{
    if n == 0 {
        Seq::empty()
    } else {
        let earlier = sleeps(interval, state, events, (n - 1) as nat);
        match action_at(interval, state, events, (n - 1) as nat) {
            PollActionView::RetryAfter(s) => earlier.push(s),
            _ => earlier,
        }
    }
}

/// How many of the first `n` answers of a run were asked for: those that came
/// while polling had not ended.
pub open spec fn requests(
    interval: u64,
    state: TokenPollStateView,
    events: Seq<PollEventView>,
    n: nat,
) -> nat
    decreases n,
{
    if n == 0 {
        0
    } else {
        let earlier = requests(interval, state, events, (n - 1) as nat);
        if after(interval, state, events, (n - 1) as nat).1.is_terminal() {
            earlier
        } else {
            earlier + 1
        }
    }
}

/// The views of a run of answers.
pub open spec fn events_view(events: Seq<PollEvent>) -> Seq<PollEventView> {
    events.map_values(|e: PollEvent| e@)
}

/// What a run of answers came to.
#[derive(Debug)]
pub struct PollRun {
    /// The sleeps made, in order.
    pub sleeps: Vec<u64>,
    /// The number of requests sent.
    pub requests: usize,
}

impl TokenPoller {
    /// Feeds a prepared run of answers to the poller, as if each had come from
    /// the token endpoint, and records the sleeps and the requests made.
    /// Answers after the end of polling are not asked for.
    pub fn run_script(&mut self, events: &Vec<PollEvent>) -> (run: PollRun)
        ensures
            (final(self).spec_interval(), final(self).spec_state()) == after(
                old(self).spec_interval(),
                old(self).spec_state(),
                events_view(events@),
                events@.len(),
            ),
            run.sleeps@ == sleeps(
                old(self).spec_interval(),
                old(self).spec_state(),
                events_view(events@),
                events@.len(),
            ),
            run.requests == requests(
                old(self).spec_interval(),
                old(self).spec_state(),
                events_view(events@),
                events@.len(),
            ),
            final(self).spec_client_id() == old(self).spec_client_id(),
            final(self).spec_client_secret() == old(self).spec_client_secret(),
            final(self).spec_device_code() == old(self).spec_device_code(),
    {
        let ghost i0 = self.spec_interval();
        let ghost s0 = self.spec_state();
        let ghost evs = events_view(events@);
        let mut run = PollRun { sleeps: Vec::new(), requests: 0 };
        let mut k: usize = 0;
        while k < events.len()
            invariant
                k <= events.len(),
                evs == events_view(events@),
                (self.spec_interval(), self.spec_state()) == after(i0, s0, evs, k as nat),
                run.sleeps@ == sleeps(i0, s0, evs, k as nat),
                run.requests == requests(i0, s0, evs, k as nat),
                run.requests <= k,
                self.spec_client_id() == old(self).spec_client_id(),
                self.spec_client_secret() == old(self).spec_client_secret(),
                self.spec_device_code() == old(self).spec_device_code(),
            decreases events.len() - k,
        {
            if !self.state.is_terminal() {
                run.requests = run.requests + 1;
            }
            assert(evs[k as int] == events@[k as int]@);
            let action = self.step(&events[k]);
            match action {
                PollAction::RetryAfter(s) => {
                    run.sleeps.push(s);
                },
                _ => {},
            }
            k = k + 1;
        }
        run
    }
}

/// While the answers carry the pending mark, or are of the pending kind, the
/// poller sleeps exactly its interval and asks again: the interval stays and
/// polling does not end.
pub proof fn law_pending_retries(interval: u64, state: TokenPollStateView, msg: Seq<char>)
    requires
        !state.is_terminal(),
        contains(msg, "authorization_pending"@),
    ensures
        transition(interval, state, PollEventView::Refused(msg)) == (
            interval,
            TokenPollStateView::Pending,
            PollActionView::RetryAfter(interval),
        ),
        transition(interval, state, PollEventView::Pending) == (
            interval,
            TokenPollStateView::Pending,
            PollActionView::RetryAfter(interval),
        ),
{
}

/// An answer with the slow-down mark and without the pending mark, or one of
/// the slow-down kind, makes the next sleep five seconds longer than the
/// interval before it, up to the largest number of seconds; the interval
/// never shrinks, and polling goes on.
pub proof fn law_slow_down_lengthens(interval: u64, state: TokenPollStateView, msg: Seq<char>)
    requires
        !state.is_terminal(),
        !contains(msg, "authorization_pending"@),
        contains(msg, "slow_down"@),
    ensures
        transition(interval, state, PollEventView::Refused(msg)) == (
            slowed(interval),
            TokenPollStateView::SlowDown,
            PollActionView::RetryAfter(slowed(interval)),
        ),
        transition(interval, state, PollEventView::SlowDown) == (
            slowed(interval),
            TokenPollStateView::SlowDown,
            PollActionView::RetryAfter(slowed(interval)),
        ),
        interval <= slowed(interval),
        interval + 5 <= u64::MAX ==> slowed(interval) == interval + 5,
{
}

/// No answer ever shortens the interval.
pub proof fn law_interval_never_shrinks(
    interval: u64,
    state: TokenPollStateView,
    event: PollEventView,
)
    ensures
        interval <= transition(interval, state, event).0,
{
}

/// A granted token is delivered at once and ends the polling; whatever comes
/// after it changes nothing and asks for no further request.
pub proof fn law_token_delivered_once(
    interval: u64,
    state: TokenPollStateView,
    token: Seq<char>,
    later: PollEventView,
)
    requires
        !state.is_terminal(),
    ensures
        transition(interval, state, PollEventView::Granted(Some(token))) == (
            interval,
            TokenPollStateView::Succeeded(token),
            PollActionView::Deliver(token),
        ),
        transition(interval, TokenPollStateView::Succeeded(token), later) == (
            interval,
            TokenPollStateView::Succeeded(token),
            PollActionView::Stop,
        ),
{
}

/// A refusal with neither mark ends the polling with an error that holds the
/// refusal's text as it came.
pub proof fn law_other_refusal_is_final(interval: u64, state: TokenPollStateView, msg: Seq<char>)
    requires
        !state.is_terminal(),
        !contains(msg, "authorization_pending"@),
        !contains(msg, "slow_down"@),
    ensures
        transition(interval, state, PollEventView::Refused(msg)) == (
            interval,
            TokenPollStateView::Failed("CreateToken failed: "@ + msg),
            PollActionView::Abort(FlowErrorView::TokenExchangeFailed(msg)),
        ),
{
}

/// The states only move forward: once polling has ended, in success or in
/// failure, every further answer leaves the poller as it is; and polling ends
/// exactly when the action hands over a token or an error.
pub proof fn law_states_move_forward(
    interval: u64,
    state: TokenPollStateView,
    event: PollEventView,
)
    ensures
        state.is_terminal() ==> transition(interval, state, event) == (
            interval,
            state,
            PollActionView::Stop,
        ),
        !state.is_terminal() ==> (transition(interval, state, event).1.is_terminal() <==> (
            transition(interval, state, event).2 is Deliver || transition(
                interval,
                state,
                event,
            ).2 is Abort)),
        transition(interval, state, event).2 is Deliver ==> transition(
            interval,
            state,
            event,
        ).1 is Succeeded,
        transition(interval, state, event).2 is Abort ==> transition(
            interval,
            state,
            event,
        ).1 is Failed,
{
}

/// The answer says, by its kind or by the pending mark in its text, that the
/// user has not finished signing in.
pub open spec fn says_pending(event: PollEventView) -> bool {
    match event {
        PollEventView::Pending => true,
        PollEventView::Refused(msg) => contains(msg, "authorization_pending"@),
        _ => false,
    }
}

/// However many answers in a row say that the user has not finished, the
/// poller goes on: it sleeps its interval after each, never changes the
/// interval and never gives up.
pub proof fn law_pending_run_never_ends(
    interval: u64,
    state: TokenPollStateView,
    events: Seq<PollEventView>,
    n: nat,
)
    requires
        !state.is_terminal(),
        n <= events.len(),
        forall|k: int| 0 <= k < n ==> says_pending(#[trigger] events[k]),
    ensures
        n > 0 ==> after(interval, state, events, n) == (interval, TokenPollStateView::Pending),
        !after(interval, state, events, n).1.is_terminal(),
        after(interval, state, events, n).0 == interval,
        sleeps(interval, state, events, n) == Seq::new(n, |i: int| interval),
        requests(interval, state, events, n) == n,
    decreases n,
{
    if n > 0 {
        law_pending_run_never_ends(interval, state, events, (n - 1) as nat);
        assert(says_pending(events[n - 1]));
        assert(sleeps(interval, state, events, n) =~= Seq::new(n, |i: int| interval));
    } else {
        assert(sleeps(interval, state, events, n) =~= Seq::new(n, |i: int| interval));
    }
}

/// Over a run the interval never shrinks: after more answers it is at least
/// what it was after fewer.
pub proof fn law_run_interval_grows(
    interval: u64,
    state: TokenPollStateView,
    events: Seq<PollEventView>,
    m: nat,
    n: nat,
)
    requires
        m <= n,
    ensures
        after(interval, state, events, m).0 <= after(interval, state, events, n).0,
    decreases n,
{
    if m < n {
        law_run_interval_grows(interval, state, events, m, (n - 1) as nat);
    }
}

/// Over a whole run, every request but the last is followed by a sleep, and
/// no request is sent once polling has ended: the sleeps are as many as the
/// requests while polling goes on, and one fewer once it has ended.
pub proof fn law_run_counts(
    interval: u64,
    state: TokenPollStateView,
    events: Seq<PollEventView>,
    n: nat,
)
    requires
        !state.is_terminal(),
        n <= events.len(),
    ensures
        requests(interval, state, events, n) <= n,
        after(interval, state, events, n).1.is_terminal() ==> sleeps(
            interval,
            state,
            events,
            n,
        ).len() + 1 == requests(interval, state, events, n),
        !after(interval, state, events, n).1.is_terminal() ==> sleeps(
            interval,
            state,
            events,
            n,
        ).len() == n && requests(interval, state, events, n) == n,
    decreases n,
{
    if n > 0 {
        law_run_counts(interval, state, events, (n - 1) as nat);
    }
}

} // verus!
