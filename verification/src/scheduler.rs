//! The polling scheduler: one usage fetch per tick, for as long as the
//! process runs, and the one fetch of profile and usage at startup.

use vstd::prelude::*;
use crate::credentials::{get_claude_credentials, text_of, token_label, CredentialRecord};
use crate::error::FetchError;
use crate::state::{usage_change, AccountInfo, StateChange};

verus! {

/// The seconds between two ticks.
pub const POLL_INTERVAL_SECS: u64 = 60;

/// Where the scheduler stands.
#[derive(Clone, Copy, Debug, PartialEq, Eq, Structural)]
pub enum PollState {
    /// Between two ticks.
    Idle,
    /// A usage fetch is under way.
    Fetching,
}

/// What a tick asks for.
#[derive(Clone, Copy, Debug, PartialEq, Eq, Structural)]
pub enum PollAction {
    /// Run a usage fetch and report its outcome.
    StartFetch,
    /// A fetch is still under way: this tick starts none.
    Skip,
}

/// The scheduler's rule for a tick: at most one fetch is under way at any
/// time.
pub open spec fn tick_next(state: PollState) -> (PollState, PollAction) {
    match state {
        PollState::Idle => (PollState::Fetching, PollAction::StartFetch),
        PollState::Fetching => (PollState::Fetching, PollAction::Skip),
    }
}

/// Takes a tick of the timer.
pub fn on_tick(state: PollState) -> (next: (PollState, PollAction))
    ensures
        next == tick_next(state),
{
    match state {
        PollState::Idle => (PollState::Fetching, PollAction::StartFetch),
        PollState::Fetching => (PollState::Fetching, PollAction::Skip),
    }
}

/// Takes the outcome of the fetch that a tick started: the scheduler is idle
/// again, whether the fetch succeeded or not, and the outcome is to be
/// written into the shared state as the change returned.
pub fn on_outcome<U>(outcome: Result<U, FetchError>) -> (next: (PollState, StateChange<U>))
    ensures
        next.0 == PollState::Idle,
        match outcome {
            Ok(usage) => next.1 == StateChange::UsageFetched(usage),
            Err(error) => next.1 matches StateChange::FetchFailed(message) && message@
                == error.text(),
        },
{
    (PollState::Idle, usage_change(outcome))
}

/// No outcome stops the scheduler: after every outcome the next tick starts
/// a fetch.
pub proof fn polling_never_stops(state: PollState)
    ensures
        tick_next(PollState::Idle) == (PollState::Fetching, PollAction::StartFetch),
        tick_next(state).0 == PollState::Fetching,
        tick_next(state).1 == PollAction::StartFetch <==> state == PollState::Idle,
{
}

/// Where the fetch at startup stands.
#[derive(Debug, Clone, PartialEq, Eq)]
pub enum StartupState {
    /// The stored record is being read: the state in which the process
    /// starts.
    Credentials,
    /// The account profile is being fetched; the label is the subscription
    /// that the stored credential names.
    Profile { subscription: Option<String> },
    /// The usage is being fetched.
    Usage,
    /// The fetch at startup has ended.
    Done,
}

/// What the caller reports back.
#[derive(Debug, PartialEq, Eq)]
pub enum StartupEvent<U> {
    /// The stored record as read just now.
    Credentials(Result<CredentialRecord, FetchError>),
    /// The outcome of the profile fetch.
    Profile(Result<AccountInfo, FetchError>),
    /// The outcome of the usage fetch.
    Usage(Result<U, FetchError>),
}

/// What the caller is to do next.
#[derive(Debug, PartialEq, Eq)]
pub enum StartupAction<U> {
    /// Fetch the account profile.
    FetchProfile,
    /// Where an account is given: match the browser profile to its email,
    /// apply it to the shared state and announce it. Then fetch the usage.
    FetchUsage { account: Option<AccountInfo> },
    /// Apply this change to the shared state and announce it; the fetch at
    /// startup is over.
    Record(StateChange<U>),
    /// The event does not belong to the state and was ignored.
    Wait,
}

/// The rule of the fetch at startup, as a relation between a state and an
/// event on one side and the next state and the action on the other.
///
/// Without credentials nothing is fetched and the failure is recorded. A
/// profile that cannot be fetched is passed over in silence; one that can is
/// given the subscription label of the stored credential. The usage is
/// fetched in either case, and its outcome is recorded.
pub open spec fn startup_allows<U>(
    state: StartupState,
    event: StartupEvent<U>,
    next: StartupState,
    action: StartupAction<U>,
) -> bool {
    match (state, event) {
        (StartupState::Credentials, StartupEvent::Credentials(Ok(record))) => match record.oauth {
            Some(token) => {
                &&& next matches StartupState::Profile { subscription }
                &&& text_of(subscription) == Some(token_label(token))
                &&& action == StartupAction::<U>::FetchProfile
            },
            None => {
                &&& next == StartupState::Done
                &&& action matches StartupAction::Record(StateChange::FetchFailed(message))
                &&& message@ == FetchError::NoCredentials.text()
            },
        },
        (StartupState::Credentials, StartupEvent::Credentials(Err(error))) => {
            &&& next == StartupState::Done
            &&& action matches StartupAction::Record(StateChange::FetchFailed(message))
            &&& message@ == error.text()
        },
        (StartupState::Profile { subscription }, StartupEvent::Profile(Ok(account))) => {
            &&& next == StartupState::Usage
            &&& action == StartupAction::<U>::FetchUsage {
                account: Some(AccountInfo { subscription, ..account }),
            }
        },
        (StartupState::Profile { subscription }, StartupEvent::Profile(Err(_))) => {
            &&& next == StartupState::Usage
            &&& action == StartupAction::<U>::FetchUsage { account: None }
        },
        (StartupState::Usage, StartupEvent::Usage(Ok(usage))) => {
            &&& next == StartupState::Done
            &&& action == StartupAction::Record(StateChange::UsageFetched(usage))
        },
        (StartupState::Usage, StartupEvent::Usage(Err(error))) => {
            &&& next == StartupState::Done
            &&& action matches StartupAction::Record(StateChange::FetchFailed(message))
            &&& message@ == error.text()
        },
        _ => next == state && action == StartupAction::<U>::Wait,
    }
}

/// Takes the fetch at startup one step further.
pub fn startup_step<U>(state: StartupState, event: StartupEvent<U>) -> (next: (
    StartupState,
    StartupAction<U>,
))
    ensures
        startup_allows(state, event, next.0, next.1),
{
    match state {
        StartupState::Credentials => match event {
            StartupEvent::Credentials(Ok(record)) => match get_claude_credentials(&record) {
                Ok(info) => (
                    StartupState::Profile { subscription: info.subscription },
                    StartupAction::FetchProfile,
                ),
                Err(error) => (
                    StartupState::Done,
                    StartupAction::Record(StateChange::FetchFailed(error.message())),
                ),
            },
            StartupEvent::Credentials(Err(error)) => (
                StartupState::Done,
                StartupAction::Record(StateChange::FetchFailed(error.message())),
            ),
            _ => (StartupState::Credentials, StartupAction::Wait),
        },
        StartupState::Profile { subscription } => match event {
            StartupEvent::Profile(Ok(account)) => (
                StartupState::Usage,
                StartupAction::FetchUsage { account: Some(account.with_subscription(subscription)) },
            ),
            StartupEvent::Profile(Err(_)) => (
                StartupState::Usage,
                StartupAction::FetchUsage { account: None },
            ),
            _ => (StartupState::Profile { subscription }, StartupAction::Wait),
        },
        StartupState::Usage => match event {
            StartupEvent::Usage(outcome) => (
                StartupState::Done,
                StartupAction::Record(usage_change(outcome)),
            ),
            _ => (StartupState::Usage, StartupAction::Wait),
        },
        StartupState::Done => (StartupState::Done, StartupAction::Wait),
    }
}

} // verus!
