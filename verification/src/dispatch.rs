//! The resilient dispatcher: what becomes of one outgoing request.
//!
//! A request is sent, and sent again after a failure that may pass, until it
//! succeeds, fails for good, or the retry policy is exhausted. The network
//! call and the waiting are the caller's; this module decides. A
//! [`Dispatcher`] is a state machine that takes what happened ([`Event`])
//! and answers what to do next ([`Action`]).
//!
//! Times are in nanoseconds.

use vstd::prelude::*;
use crate::delay::NANOS_PER_SEC;

verus! {

/// The time a request may take unless its configuration says otherwise: 60 seconds.
pub const DEFAULT_REQUEST_TIMEOUT: u64 = 60 * NANOS_PER_SEC;

/// How a request is to be sent.
#[derive(Clone, Copy, Debug, PartialEq, Eq)]
pub struct RequestConfig {
    /// The time one attempt may take.
    pub timeout: u64,
    /// The number of attempts after which a failure is final, if any.
    pub retry_limit: Option<u64>,
    /// The time after which the backoff schedule stops retrying, if any.
    pub retry_timeout: Option<u64>,
    /// Send the access token even where the endpoint does not require it.
    pub force_auth: bool,
    /// Assert the user's identity with the request, as an application
    /// service does.
    pub assert_identity: bool,
}

impl Default for RequestConfig {
    fn default() -> (config: Self)
        ensures
            config.timeout == DEFAULT_REQUEST_TIMEOUT,
            config.retry_limit is None,
            config.retry_timeout is None,
            !config.force_auth,
            !config.assert_identity,
    {
        RequestConfig {
            timeout: DEFAULT_REQUEST_TIMEOUT,
            retry_limit: None,
            retry_timeout: None,
            force_auth: false,
            assert_identity: false,
        }
    }
}

/// How an endpoint authenticates its callers.
#[derive(Clone, Copy, Debug, PartialEq, Eq, Structural)]
pub enum AuthScheme {
    /// No authentication.
    Unauthenticated,
    /// An access token, as clients hold one.
    AccessToken,
    /// Signatures, as servers use among themselves.
    ServerSignatures,
}

/// How the access token goes into a request.
#[derive(Clone, Copy, Debug, PartialEq, Eq, Structural)]
pub enum TokenUse {
    /// No token is at hand.
    Absent,
    /// The token is sent if the endpoint requires one.
    IfRequired,
    /// The token is sent in any case.
    Always,
    /// The token is sent in any case, together with the user's id.
    AlwaysWithUserId,
}

/// What the server said of an error that it reported.
#[derive(Clone, Copy, Debug, PartialEq, Eq)]
pub enum ErrorKind {
    /// Too many requests. `retry_after` is the wait that the server asks for.
    LimitExceeded { retry_after: Option<u64> },
    /// Anything else.
    Other,
}

/// An error that the server reported.
#[derive(Clone, Copy, Debug, PartialEq, Eq)]
pub enum ApiError {
    /// An error of the client-server API, with the response's status code.
    ClientApi { status: u16, kind: ErrorKind },
    /// The server asks for interactive authentication.
    Uiaa,
    /// Another error, with the response's status code.
    Other { status: u16 },
}

/// Why an attempt to send a request failed.
#[derive(Clone, Copy, Debug, PartialEq, Eq)]
pub enum HttpError {
    /// The transport failed: the connection was reset, or the attempt timed out.
    Transport,
    /// The endpoint is not one for clients.
    NotClientRequest,
    /// The request needs an access token and none is at hand.
    AuthenticationRequired,
    /// The server reported an error.
    Api(ApiError),
    /// The request could not be put into its wire form, or the response
    /// could not be read.
    Malformed,
}

/// An error of the load harness's accounted request call.
#[derive(Clone, Copy, Debug, PartialEq, Eq, Structural)]
pub enum HarnessError {
    /// The HTTP client failed.
    Reqwest,
    /// The request's URL could not be built.
    Url,
    /// The request failed and was accounted as a failure.
    RequestFailed,
    /// The run ended while the request was under way.
    RequestCanceled,
    /// The request's metrics could not be recorded.
    MetricsFailed,
    /// The request could not be logged.
    LoggerFailed,
    /// The request's method is not one that the harness knows.
    InvalidMethod,
}

/// Whether a failure may pass.
#[derive(Clone, Copy, Debug, PartialEq, Eq)]
pub enum Verdict {
    /// The failure may pass: try again, after `retry_after` if that is
    /// set, else after what the backoff schedule gives.
    Transient { retry_after: Option<u64> },
    /// The failure is final.
    Permanent,
}

/// What follows a failed attempt.
#[derive(Clone, Copy, Debug, PartialEq, Eq)]
pub enum Next {
    /// Wait for `wait`, then send again.
    Retry { wait: u64 },
    /// Return the failure to the caller.
    GiveUp,
}

/// Where a request stands.
#[derive(Clone, Copy, Debug, PartialEq, Eq, Structural)]
pub enum Phase {
    /// Nothing has been sent yet.
    Idle,
    /// An attempt is under way.
    InFlight,
    /// The last attempt failed; the wait before the next one is under way.
    Waiting,
    /// The request has succeeded or failed for good.
    Done,
}

/// What happened to a request.
#[derive(Clone, Copy, Debug, PartialEq, Eq)]
pub enum Event {
    /// The caller asks for the request to be sent.
    Start,
    /// The attempt under way got a response.
    Succeeded,
    /// The attempt under way failed.
    Failed(HttpError),
    /// The wait before the next attempt is over.
    Waited,
}

/// What the caller is to do with a request.
#[derive(Clone, Copy, Debug, PartialEq, Eq)]
pub enum Action {
    /// Send the request; this is attempt number `attempt`, counted from 1.
    Send { attempt: u64 },
    /// Wait for `nanos`, then report [`Event::Waited`].
    Wait { nanos: u64 },
    /// Return the response.
    Return,
    /// Return the failure of the last attempt.
    Fail,
    /// The event does not fit where the request stands; nothing changed.
    Rejected,
}

/// The part of a [`Dispatcher`] that its decisions depend on.
pub struct DispatchState {
    pub phase: Phase,
    pub attempts: nat,
    pub retry_limit: Option<u64>,
}

/// Whether an endpoint with this scheme is one that a client may call.
pub open spec fn admits(scheme: AuthScheme) -> bool {
    scheme == AuthScheme::AccessToken || scheme == AuthScheme::Unauthenticated
}

/// How the token goes into a request: with the user's id where the
/// configuration asserts the identity and both are at hand; else always
/// where authentication is forced, and as required where it is not; and not
/// at all without a token.
pub open spec fn token_use_of(config: RequestConfig, has_token: bool, has_user_id: bool) -> TokenUse {
    if has_token && config.assert_identity && has_user_id {
        TokenUse::AlwaysWithUserId
    } else if has_token {
        if config.force_auth {
            TokenUse::Always
        } else {
            TokenUse::IfRequired
        }
    } else {
        TokenUse::Absent
    }
}

/// Whether a status code stands for an error of the server.
pub open spec fn is_server_error(status: u16) -> bool {
    500 <= status < 600
}

/// Whether a failure may pass.
///
/// A rate limit passes, after the wait that the server names if it names
/// one. An error that the server reported with a status code passes if the
/// code is one of the server's own errors. A failed transport passes.
/// Everything else is final.
pub open spec fn verdict_of(error: HttpError) -> Verdict {
    match error {
        HttpError::Api(ApiError::ClientApi { status, kind: ErrorKind::LimitExceeded { retry_after } }) => {
            Verdict::Transient { retry_after }
        },
        HttpError::Api(ApiError::ClientApi { status, kind: ErrorKind::Other }) => {
            if is_server_error(status) {
                Verdict::Transient { retry_after: None }
            } else {
                Verdict::Permanent
            }
        },
        HttpError::Api(ApiError::Other { status }) => {
            if is_server_error(status) {
                Verdict::Transient { retry_after: None }
            } else {
                Verdict::Permanent
            }
        },
        HttpError::Api(ApiError::Uiaa) => Verdict::Permanent,
        HttpError::Transport => Verdict::Transient { retry_after: None },
        HttpError::NotClientRequest => Verdict::Permanent,
        HttpError::AuthenticationRequired => Verdict::Permanent,
        HttpError::Malformed => Verdict::Permanent,
    }
}

/// What follows a failed attempt, where `backoff` is what the backoff
/// schedule gives: `None` once its time is used up.
///
/// With the attempt limit reached every failure is final. A wait that the
/// server named is taken as it is, and the schedule is not consulted.
pub open spec fn next_of(limit_reached: bool, verdict: Verdict, backoff: Option<u64>) -> Next {
    if limit_reached {
        Next::GiveUp
    } else {
        match verdict {
            Verdict::Permanent => Next::GiveUp,
            Verdict::Transient { retry_after: Some(wait) } => Next::Retry { wait },
            Verdict::Transient { retry_after: None } => match backoff {
                Some(wait) => Next::Retry { wait },
                None => Next::GiveUp,
            },
        }
    }
}

/// Whether the attempts made so far have used up the limit.
pub open spec fn limit_reached(retry_limit: Option<u64>, attempts: nat) -> bool {
    retry_limit matches Some(limit) && attempts >= limit
}

/// Whether the answer to `event` in state `s` depends on the backoff schedule.
pub open spec fn consults_backoff(s: DispatchState, event: Event) -> bool {
    &&& s.phase == Phase::InFlight
    &&& event matches Event::Failed(error)
    &&& !limit_reached(s.retry_limit, s.attempts)
    &&& verdict_of(error) == (Verdict::Transient { retry_after: None })
}

/// The attempt counter after one more attempt. It stops at the largest
/// number that it can hold.
pub open spec fn one_more(attempts: nat) -> nat {
    if attempts < u64::MAX {
        attempts + 1
    } else {
        attempts
    }
}

/// The dispatcher's transition: the state after `event` and the action
/// that answers it, where `backoff` is what the backoff schedule gives.
pub open spec fn transition(s: DispatchState, event: Event, backoff: Option<u64>) -> (DispatchState, Action) {
    match (s.phase, event) {
        (Phase::Idle, Event::Start) => (
            DispatchState { phase: Phase::InFlight, attempts: one_more(s.attempts), ..s },
            Action::Send { attempt: one_more(s.attempts) as u64 },
        ),
        (Phase::InFlight, Event::Succeeded) => (DispatchState { phase: Phase::Done, ..s }, Action::Return),
        (Phase::InFlight, Event::Failed(error)) => {
            match next_of(limit_reached(s.retry_limit, s.attempts), verdict_of(error), backoff) {
                Next::Retry { wait } => (DispatchState { phase: Phase::Waiting, ..s }, Action::Wait { nanos: wait }),
                Next::GiveUp => (DispatchState { phase: Phase::Done, ..s }, Action::Fail),
            }
        },
        (Phase::Waiting, Event::Waited) => (
            DispatchState { phase: Phase::InFlight, attempts: one_more(s.attempts), ..s },
            Action::Send { attempt: one_more(s.attempts) as u64 },
        ),
        _ => (s, Action::Rejected),
    }
}

/// What holds of a dispatcher's state at all times: the counter fits its
/// type; nothing has been sent before the start and something after it;
/// and with a limit of at least one attempt, the attempts stay within it,
/// and below it while a further attempt is waited for.
pub open spec fn state_inv(s: DispatchState) -> bool {
    &&& s.attempts <= u64::MAX
    &&& s.phase == Phase::Idle <==> s.attempts == 0
    &&& s.retry_limit matches Some(limit) ==> {
        &&& s.attempts <= limit || s.attempts == 1
        &&& s.phase == Phase::Waiting ==> s.attempts < limit
    }
}

/// `http::StatusCode::is_server_error`, on the status code that
/// `http::StatusCode::from_u16` makes of `status`: whether the code lies
/// between 500 and 599. `from_u16` takes the codes from 100 to 999.
#[verifier::external_body]
fn status_is_server_error(status: u16) -> (server_error: bool)
    requires
        100 <= status < 1000,
    ensures
        server_error == is_server_error(status),
{
    match http::StatusCode::from_u16(status) {
        Ok(code) => code.is_server_error(),
        Err(_) => false,
    }
}

/// Whether a status code stands for an error of the server.
pub fn server_error(status: u16) -> (server_error: bool)
    ensures
        server_error == is_server_error(status),
{
    if 100 <= status && status < 1000 {
        status_is_server_error(status)
    } else {
        false
    }
}

/// Whether an endpoint with this scheme is one that a client may call.
pub fn admits_scheme(scheme: AuthScheme) -> (ok: bool)
    ensures
        ok == admits(scheme),
{
    match scheme {
        AuthScheme::AccessToken => true,
        AuthScheme::Unauthenticated => true,
        AuthScheme::ServerSignatures => false,
    }
}

/// Whether a failure may pass.
pub fn classify(error: &HttpError) -> (verdict: Verdict)
    ensures
        verdict == verdict_of(*error),
{
    let status: u16 = match error {
        HttpError::Api(ApiError::ClientApi { status: _, kind: ErrorKind::LimitExceeded { retry_after } }) => {
            return Verdict::Transient { retry_after: *retry_after };
        },
        HttpError::Api(ApiError::ClientApi { status, kind: ErrorKind::Other }) => *status,
        HttpError::Api(ApiError::Other { status }) => *status,
        HttpError::Transport => {
            return Verdict::Transient { retry_after: None };
        },
        _ => {
            return Verdict::Permanent;
        },
    };
    if server_error(status) {
        Verdict::Transient { retry_after: None }
    } else {
        Verdict::Permanent
    }
}

/// What follows a failed attempt, where `backoff` is what the backoff
/// schedule gives.
pub fn decide(limit_reached: bool, verdict: Verdict, backoff: Option<u64>) -> (next: Next)
    ensures
        next == next_of(limit_reached, verdict, backoff),
{
    if limit_reached {
        return Next::GiveUp;
    }
    match verdict {
        Verdict::Permanent => Next::GiveUp,
        Verdict::Transient { retry_after: Some(wait) } => Next::Retry { wait },
        Verdict::Transient { retry_after: None } => match backoff {
            Some(wait) => Next::Retry { wait },
            None => Next::GiveUp,
        },
    }
}

/// The failure that a failed call of the harness stands for: a failure of
/// the HTTP client is a failed transport; the harness's other errors say
/// that the request was none that it could send for a client.
pub fn map_harness_error(error: HarnessError) -> (mapped: HttpError)
    ensures
        mapped == if error == HarnessError::Reqwest {
            HttpError::Transport
        } else {
            HttpError::NotClientRequest
        },
{
    match error {
        HarnessError::Reqwest => HttpError::Transport,
        _ => HttpError::NotClientRequest,
    }
}

/// The backoff schedule of the `backoff` crate.
#[verifier::external_type_specification]
#[verifier::external_body]
#[verifier::reject_recursive_types(C)]
pub struct ExExponentialBackoff<C>(backoff::exponential::ExponentialBackoff<C>);

/// The clock that the backoff schedule reads.
#[verifier::external_type_specification]
#[verifier::external_body]
pub struct ExSystemClock(backoff::SystemClock);

/// The time after which a backoff schedule gives no more waits, in
/// nanoseconds, if it has one: the schedule's field `max_elapsed_time`.
pub uninterp spec fn schedule_limit(
    schedule: backoff::exponential::ExponentialBackoff<backoff::SystemClock>,
) -> Option<u64>;

/// `backoff::ExponentialBackoff::default()`, with `max_elapsed_time` set to
/// `max_elapsed` nanoseconds, or to none: a schedule with the crate's
/// default intervals, which starts to count its time now and stops to
/// give waits after `max_elapsed`.
#[verifier::external_body]
fn new_backoff(max_elapsed: Option<u64>) -> (schedule: backoff::exponential::ExponentialBackoff<
    backoff::SystemClock,
>)
    ensures
        schedule_limit(schedule) == max_elapsed,
{
    backoff::ExponentialBackoff {
        max_elapsed_time: max_elapsed.map(std::time::Duration::from_nanos),
        ..Default::default()
    }
}

/// `backoff::backoff::Backoff::next_backoff` on the exponential schedule:
/// the next wait in nanoseconds, or `None` when the schedule's time is used
/// up. The call leaves the schedule's limit as it is, and a schedule
/// without a limit always gives a wait. The wait itself is drawn at random
/// and depends on the clock, so nothing is stated of it.
#[verifier::external_body]
fn next_backoff(schedule: &mut backoff::exponential::ExponentialBackoff<backoff::SystemClock>) -> (wait: Option<
    u128,
>)
    ensures
        schedule_limit(*final(schedule)) == schedule_limit(*old(schedule)),
        schedule_limit(*old(schedule)) is None ==> wait is Some,
{
    backoff::backoff::Backoff::next_backoff(schedule).map(|wait| wait.as_nanos())
}

/// A wait in nanoseconds as the dispatcher counts them: what does not fit
/// is taken as the longest wait that does.
pub fn clamp_wait(nanos: Option<u128>) -> (wait: Option<u64>)
    ensures
        wait == match nanos {
            Some(n) => Some(if n <= u64::MAX { n as u64 } else { u64::MAX }),
            None => None,
        },
{
    match nanos {
        Some(n) => if n <= u64::MAX as u128 {
            Some(n as u64)
        } else {
            Some(u64::MAX)
        },
        None => None,
    }
}

/// How far a request has come.
#[derive(Clone, Copy, Debug)]
struct Progress {
    phase: Phase,
    attempts: u64,
    retry_limit: Option<u64>,
}

impl Progress {
    /// The progress as a mathematical value.
    spec fn state(&self) -> DispatchState {
        DispatchState { phase: self.phase, attempts: self.attempts as nat, retry_limit: self.retry_limit }
    }

    /// The progress keeps [`state_inv`].
    #[verifier::type_invariant]
    spec fn keeps_state_inv(&self) -> bool {
        state_inv(self.state())
    }
}

/// One request on its way: the attempts made, and the backoff schedule
/// that spaces them.
pub struct Dispatcher {
    progress: Progress,
    schedule: backoff::exponential::ExponentialBackoff<backoff::SystemClock>,
}

impl Dispatcher {
    /// What the dispatcher's decisions depend on.
    pub closed spec fn state(&self) -> DispatchState {
        self.progress.state()
    }

    /// The time after which the dispatcher's backoff schedule gives no
    /// more waits, in nanoseconds, if it has one.
    pub closed spec fn retry_timeout(&self) -> Option<u64> {
        schedule_limit(self.schedule)
    }

    /// A dispatcher for one request: nothing sent yet, at most
    /// `config.retry_limit` attempts, and a backoff schedule that gives up
    /// after `config.retry_timeout`.
    pub fn new(config: &RequestConfig) -> (d: Dispatcher)
        ensures
            d.state() == (DispatchState { phase: Phase::Idle, attempts: 0, retry_limit: config.retry_limit }),
            d.retry_timeout() == config.retry_timeout,
    {
        Dispatcher {
            progress: Progress { phase: Phase::Idle, attempts: 0, retry_limit: config.retry_limit },
            schedule: new_backoff(config.retry_timeout),
        }
    }

    /// Where the request stands. The state of a dispatcher keeps [`state_inv`].
    pub fn phase(&self) -> (phase: Phase)
        ensures
            phase == self.state().phase,
            state_inv(self.state()),
    {
        proof {
            use_type_invariant(&self.progress);
        }
        self.progress.phase
    }

    /// The number of attempts made, the one under way included.
    pub fn attempts(&self) -> (n: u64)
        ensures
            n == self.state().attempts,
    {
        self.progress.attempts
    }

    /// Whether the attempts made have used up the limit.
    pub fn limit_reached(&self) -> (reached: bool)
        ensures
            reached == limit_reached(self.state().retry_limit, self.state().attempts),
    {
        match self.progress.retry_limit {
            Some(limit) => self.progress.attempts >= limit,
            None => false,
        }
    }

    /// The answer to `event` where the backoff schedule gives `backoff`:
    /// the dispatcher moves as [`transition`] says.
    pub fn resolve(&mut self, event: &Event, backoff: Option<u64>) -> (action: Action)
        ensures
            (final(self).state(), action) == transition(old(self).state(), *event, backoff),
            final(self).retry_timeout() == old(self).retry_timeout(),
    {
        proof {
            use_type_invariant(&self.progress);
            lemma_transition_keeps_inv(self.state(), *event, backoff);
        }
        let attempts = self.progress.attempts;
        let retry_limit = self.progress.retry_limit;
        match (self.progress.phase, event) {
            (Phase::Idle, Event::Start) | (Phase::Waiting, Event::Waited) => {
                let attempt = if attempts < u64::MAX {
                    attempts + 1
                } else {
                    attempts
                };
                self.progress = Progress { phase: Phase::InFlight, attempts: attempt, retry_limit };
                Action::Send { attempt }
            },
            (Phase::InFlight, Event::Succeeded) => {
                self.progress = Progress { phase: Phase::Done, attempts, retry_limit };
                Action::Return
            },
            (Phase::InFlight, Event::Failed(error)) => {
                match decide(self.limit_reached(), classify(error), backoff) {
                    Next::Retry { wait } => {
                        self.progress = Progress { phase: Phase::Waiting, attempts, retry_limit };
                        Action::Wait { nanos: wait }
                    },
                    Next::GiveUp => {
                        self.progress = Progress { phase: Phase::Done, attempts, retry_limit };
                        Action::Fail
                    },
                }
            },
            _ => Action::Rejected,
        }
    }

    /// The answer to `event`.
    ///
    /// Where the answer depends on the backoff schedule, the schedule is
    /// asked, and the answer is that of [`Dispatcher::resolve`] for what it
    /// gave: a wait, without fail, where no retry timeout is set.
    /// Everywhere else the answer is fixed by the state and the event.
    pub fn step(&mut self, event: &Event) -> (action: Action)
        ensures
            exists|backoff: Option<u64>|
                (final(self).state(), action) == #[trigger] transition(old(self).state(), *event, backoff),
            !consults_backoff(old(self).state(), *event) ==> (final(self).state(), action) == transition(
                old(self).state(),
                *event,
                None,
            ),
            consults_backoff(old(self).state(), *event) && old(self).retry_timeout() is None ==> action is Wait,
            final(self).retry_timeout() == old(self).retry_timeout(),
    {
        let asks = match (self.progress.phase, event) {
            (Phase::InFlight, Event::Failed(error)) => !self.limit_reached() && match classify(error) {
                Verdict::Transient { retry_after: None } => true,
                _ => false,
            },
            _ => false,
        };
        let backoff = if asks {
            clamp_wait(next_backoff(&mut self.schedule))
        } else {
            None
        };
        self.resolve(event, backoff)
    }
}

/// The client's sending side: the configuration that requests are sent
/// with, and the count of the requests that were handed to it.
pub struct HttpClient {
    request_config: RequestConfig,
    next_request_id: u64,
}

/// A request that [`HttpClient::send`] has taken on.
pub struct Outgoing {
    /// The request's number, counted from 0 over the client's requests.
    pub request_id: u64,
    /// The configuration that the request is sent with.
    pub config: RequestConfig,
    /// How the access token goes into the request.
    pub token_use: TokenUse,
    /// The state of the request's attempts.
    pub dispatcher: Dispatcher,
}

impl HttpClient {
    /// The configuration that requests are sent with by default.
    pub closed spec fn request_config(&self) -> RequestConfig {
        self.request_config
    }

    /// The number that the next request gets.
    pub closed spec fn next_request_id(&self) -> u64 {
        self.next_request_id
    }

    /// A client that has sent nothing and sends with `request_config`.
    pub fn new(request_config: RequestConfig) -> (client: HttpClient)
        ensures
            client.request_config() == request_config,
            client.next_request_id() == 0,
    {
        HttpClient { request_config, next_request_id: 0 }
    }

    /// Hands out the next request number. The count starts over after
    /// the largest number.
    pub fn get_request_id(&mut self) -> (id: u64)
        ensures
            id == old(self).next_request_id(),
            final(self).request_config() == old(self).request_config(),
            final(self).next_request_id() == if id == u64::MAX {
                0
            } else {
                id + 1
            },
    {
        let id = self.next_request_id;
        self.next_request_id = if id == u64::MAX {
            0
        } else {
            id + 1
        };
        id
    }

    /// How the access token goes into a request that is sent with `config`.
    pub fn serialize_request(config: &RequestConfig, has_token: bool, has_user_id: bool) -> (token_use: TokenUse)
        ensures
            token_use == token_use_of(*config, has_token, has_user_id),
    {
        if has_token && config.assert_identity && has_user_id {
            TokenUse::AlwaysWithUserId
        } else if has_token {
            if config.force_auth {
                TokenUse::Always
            } else {
                TokenUse::IfRequired
            }
        } else {
            TokenUse::Absent
        }
    }

    /// Takes on a request for an endpoint that authenticates by `scheme`.
    ///
    /// The request gets the next number in any case. An endpoint that is
    /// not for clients is refused with [`HttpError::NotClientRequest`].
    /// Otherwise the request is sent with `config`, or with the client's
    /// own configuration where none is given, and starts with a
    /// dispatcher that has sent nothing.
    pub fn send(
        &mut self,
        scheme: AuthScheme,
        config: Option<RequestConfig>,
        has_token: bool,
        has_user_id: bool,
    ) -> (res: Result<Outgoing, HttpError>)
        ensures
            final(self).request_config() == old(self).request_config(),
            final(self).next_request_id() == if old(self).next_request_id() == u64::MAX {
                0
            } else {
                old(self).next_request_id() + 1
            },
            !admits(scheme) ==> res == Err::<Outgoing, HttpError>(HttpError::NotClientRequest),
            admits(scheme) ==> (res matches Ok(out) && {
                &&& out.request_id == old(self).next_request_id()
                &&& out.config == match config {
                    Some(c) => c,
                    None => old(self).request_config(),
                }
                &&& out.token_use == token_use_of(out.config, has_token, has_user_id)
                &&& out.dispatcher.state() == (DispatchState {
                    phase: Phase::Idle,
                    attempts: 0,
                    retry_limit: out.config.retry_limit,
                })
                &&& out.dispatcher.retry_timeout() == out.config.retry_timeout
            }),
    {
        let request_id = self.get_request_id();
        let config = match config {
            Some(config) => config,
            None => self.request_config,
        };
        if !admits_scheme(scheme) {
            return Err(HttpError::NotClientRequest);
        }
        let token_use = HttpClient::serialize_request(&config, has_token, has_user_id);
        let dispatcher = Dispatcher::new(&config);
        Ok(Outgoing { request_id, config, token_use, dispatcher })
    }
}

/// The transition keeps [`state_inv`], whatever the backoff schedule gives.
pub proof fn lemma_transition_keeps_inv(s: DispatchState, event: Event, backoff: Option<u64>)
    requires
        state_inv(s),
    ensures
        state_inv(transition(s, event, backoff).0),
        transition(s, event, backoff).0.retry_limit == s.retry_limit,
        transition(s, event, backoff).0.attempts >= s.attempts,
{
}

/// Every attempt that the dispatcher asks for is within the limit, where the
/// limit allows for an attempt at all: with a limit of `limit >= 1`, the
/// number of an attempt is at most `limit`.
pub proof fn lemma_attempts_within_limit(s: DispatchState, event: Event, backoff: Option<u64>, limit: u64)
    requires
        state_inv(s),
        s.retry_limit == Some(limit),
        limit >= 1,
    ensures
        transition(s, event, backoff).1 matches Action::Send { attempt } ==> 1 <= attempt <= limit,
{
}

/// A failure that is final ends the request with the attempt that met it,
/// and so does any failure once the limit is reached.
pub proof fn lemma_final_failure_ends_request(s: DispatchState, error: HttpError, backoff: Option<u64>)
    requires
        s.phase == Phase::InFlight,
        verdict_of(error) == Verdict::Permanent || limit_reached(s.retry_limit, s.attempts),
    ensures
        transition(s, Event::Failed(error), backoff).1 == Action::Fail,
        transition(s, Event::Failed(error), backoff).0.phase == Phase::Done,
        transition(s, Event::Failed(error), backoff).0.attempts == s.attempts,
{
}

/// A rate limit for which the server names a wait is answered with exactly
/// that wait, without a look at the backoff schedule.
pub proof fn lemma_rate_limit_waits_as_told(s: DispatchState, status: u16, wait: u64, backoff: Option<u64>)
    requires
        s.phase == Phase::InFlight,
        !limit_reached(s.retry_limit, s.attempts),
    ensures
        ({
            let error = HttpError::Api(
                ApiError::ClientApi { status, kind: ErrorKind::LimitExceeded { retry_after: Some(wait) } },
            );
            &&& !consults_backoff(s, Event::Failed(error))
            &&& transition(s, Event::Failed(error), backoff).1 == Action::Wait { nanos: wait }
        }),
{
}

/// No attempt is asked for while another is under way: from a state with
/// an attempt in flight, no event is answered with `Send`.
pub proof fn lemma_one_attempt_at_a_time(s: DispatchState, event: Event, backoff: Option<u64>)
    requires
        s.phase == Phase::InFlight,
    ensures
        !(transition(s, event, backoff).1 is Send),
{
}

/// The state after one round: the attempt under way fails with `error`,
/// and the wait and the next attempt follow, if the failure allows for them.
pub open spec fn after_round(s: DispatchState, error: HttpError, backoff: Option<u64>) -> DispatchState {
    transition(transition(s, Event::Failed(error), backoff).0, Event::Waited, None).0
}

/// The state after a series of rounds, where round `k` fails with
/// `errors[k]` and the backoff schedule gives `backoffs[k]`.
pub open spec fn after_rounds(s: DispatchState, errors: Seq<HttpError>, backoffs: Seq<Option<u64>>) -> DispatchState
    decreases errors.len(),
{
    if errors.len() == 0 {
        s
    } else {
        after_round(after_rounds(s, errors.drop_last(), backoffs.drop_last()), errors.last(), backoffs.last())
    }
}

/// A request that meets `n` failures that pass, and then a response, is
/// sent `n + 1` times and returns the response: as long as the limit
/// allows for more than `n` attempts, and every failure either names its
/// wait or gets one from the backoff schedule.
pub proof fn lemma_failures_then_success(
    start: DispatchState,
    errors: Seq<HttpError>,
    backoffs: Seq<Option<u64>>,
)
    requires
        start.phase == Phase::Idle,
        start.attempts == 0,
        errors.len() == backoffs.len(),
        errors.len() < u64::MAX,
        start.retry_limit matches Some(limit) ==> errors.len() < limit,
        forall|k: int|
            0 <= k < errors.len() ==> (#[trigger] next_of(false, verdict_of(errors[k]), backoffs[k])) is Retry,
    ensures
        ({
            let sent = transition(start, Event::Start, None);
            let s = after_rounds(sent.0, errors, backoffs);
            &&& sent.1 == Action::Send { attempt: 1 }
            &&& s.phase == Phase::InFlight
            &&& s.attempts == errors.len() + 1
            &&& s.retry_limit == start.retry_limit
            &&& transition(s, Event::Succeeded, None).1 == Action::Return
            &&& transition(s, Event::Succeeded, None).0.attempts == errors.len() + 1
        }),
    decreases errors.len(),
{
    if errors.len() > 0 {
        let front = errors.drop_last();
        let front_backoffs = backoffs.drop_last();
        assert forall|k: int| 0 <= k < front.len() implies (#[trigger] next_of(
            false,
            verdict_of(front[k]),
            front_backoffs[k],
        )) is Retry by {
            assert(front[k] == errors[k]);
            assert(front_backoffs[k] == backoffs[k]);
        }
        lemma_failures_then_success(start, front, front_backoffs);
        let last = errors.len() - 1;
        assert(next_of(false, verdict_of(errors[last]), backoffs[last]) is Retry);
    }
}

/// A request that is done stays done: every further event is rejected.
pub proof fn lemma_done_is_final(s: DispatchState, event: Event, backoff: Option<u64>)
    requires
        s.phase == Phase::Done,
    ensures
        transition(s, event, backoff) == (s, Action::Rejected),
{
}

} // verus!
