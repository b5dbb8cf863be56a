//! The last known usage, account and error, and the changes that fetches
//! make to them.

use vstd::prelude::*;
use vstd::string::*;
use crate::error::FetchError;

verus! {

/// The signed-in account as the profile endpoint describes it, with the
/// subscription label taken from the stored credential.
#[derive(Debug, Clone, PartialEq, Eq)]
pub struct AccountInfo {
    pub email: Option<String>,
    pub display_name: Option<String>,
    pub full_name: Option<String>,
    pub subscription: Option<String>,
}

impl Default for AccountInfo {
    /// An account of which nothing is known.
    fn default() -> (account: AccountInfo)
        ensures
            account == (AccountInfo {
                email: None,
                display_name: None,
                full_name: None,
                subscription: None,
            }),
    {
        AccountInfo { email: None, display_name: None, full_name: None, subscription: None }
    }
}

impl AccountInfo {
    /// The account that a profile response describes. The profile endpoint
    /// knows no subscription: the label is set afterwards.
    pub fn from_profile(
        email: String,
        display_name: Option<String>,
        full_name: Option<String>,
    ) -> (account: AccountInfo)
        ensures
            account == (AccountInfo {
                email: Some(email),
                display_name,
                full_name,
                subscription: None,
            }),
    {
        AccountInfo { email: Some(email), display_name, full_name, subscription: None }
    }

    /// Sets the subscription label and leaves the rest as it is.
    pub fn with_subscription(self, subscription: Option<String>) -> (account: AccountInfo)
        ensures
            account == (AccountInfo { subscription, ..self }),
    {
        AccountInfo {
            email: self.email,
            display_name: self.display_name,
            full_name: self.full_name,
            subscription,
        }
    }
}

/// What observers can read at any time: the last usage snapshot, the last
/// account profile and the last error. The kind of snapshot is left to the
/// caller.
#[derive(Debug, Clone, PartialEq, Eq)]
pub struct AppState<U> {
    pub usage: Option<U>,
    pub last_error: Option<String>,
    pub account: Option<AccountInfo>,
}

/// A completed fetch, as far as the state is concerned.
#[derive(Debug, Clone, PartialEq, Eq)]
pub enum StateChange<U> {
    /// A usage fetch brought this snapshot.
    UsageFetched(U),
    /// A usage fetch failed with this message.
    FetchFailed(String),
    /// A profile fetch brought this account.
    AccountFetched(AccountInfo),
}

/// What is broadcast to listeners after a change.
#[derive(Debug, Clone, PartialEq, Eq)]
pub enum Notification {
    /// The usage snapshot was replaced.
    UsageUpdated,
    /// A fetch failed; the message is the new last error.
    UsageError(String),
    /// The account profile was replaced.
    AccountUpdated,
}

/// The state before anything was fetched.
pub open spec fn empty_state<U>() -> AppState<U> {
    AppState { usage: None, last_error: None, account: None }
}

/// The state after a change. A field is replaced whole or left alone: a new
/// snapshot also clears the error, a failure leaves the snapshot that was
/// there, and a new account touches nothing else.
pub open spec fn applied<U>(state: AppState<U>, change: StateChange<U>) -> AppState<U> {
    match change {
        StateChange::UsageFetched(usage) => AppState {
            usage: Some(usage),
            last_error: None,
            account: state.account,
        },
        StateChange::FetchFailed(message) => AppState {
            usage: state.usage,
            last_error: Some(message),
            account: state.account,
        },
        StateChange::AccountFetched(account) => AppState {
            usage: state.usage,
            last_error: state.last_error,
            account: Some(account),
        },
    }
}

/// What is broadcast for a change: every change is announced, a failure with
/// its message.
pub open spec fn announced<U>(change: StateChange<U>) -> Notification {
    match change {
        StateChange::UsageFetched(_) => Notification::UsageUpdated,
        StateChange::FetchFailed(message) => Notification::UsageError(message),
        StateChange::AccountFetched(_) => Notification::AccountUpdated,
    }
}

/// A change, field by field: for each of the three fields either the value
/// that replaces it or nothing, where the field stays as it is. A holder that
/// guards each field on its own applies a change in this form.
#[derive(Debug, Clone, PartialEq, Eq)]
pub struct FieldUpdates<U> {
    pub usage: Option<U>,
    pub last_error: Option<Option<String>>,
    pub account: Option<AccountInfo>,
}

/// What a change does to each field.
pub open spec fn updates_of<U>(change: StateChange<U>) -> FieldUpdates<U> {
    match change {
        StateChange::UsageFetched(usage) => FieldUpdates {
            usage: Some(usage),
            last_error: Some(None),
            account: None,
        },
        StateChange::FetchFailed(message) => FieldUpdates {
            usage: None,
            last_error: Some(Some(message)),
            account: None,
        },
        StateChange::AccountFetched(account) => FieldUpdates {
            usage: None,
            last_error: None,
            account: Some(account),
        },
    }
}

/// The state after the fields were updated one by one.
pub open spec fn updated<U>(state: AppState<U>, updates: FieldUpdates<U>) -> AppState<U> {
    AppState {
        usage: match updates.usage {
            Some(usage) => Some(usage),
            None => state.usage,
        },
        last_error: match updates.last_error {
            Some(error) => error,
            None => state.last_error,
        },
        account: match updates.account {
            Some(account) => Some(account),
            None => state.account,
        },
    }
}

/// The state after a series of changes, the first applied first.
pub open spec fn applied_all<U>(state: AppState<U>, changes: Seq<StateChange<U>>) -> AppState<U>
    decreases changes.len(),
{
    if changes.len() == 0 {
        state
    } else {
        applied(applied_all(state, changes.drop_last()), changes.last())
    }
}

/// The name under which a notification is broadcast.
pub open spec fn topic_name(notification: Notification) -> Seq<char> {
    match notification {
        Notification::UsageUpdated => "usage-updated"@,
        Notification::UsageError(_) => "usage-error"@,
        Notification::AccountUpdated => "account-updated"@,
    }
}

impl Notification {
    /// The name under which this notification is broadcast.
    pub fn topic(&self) -> (name: String)
        ensures
            name@ == topic_name(*self),
    {
        match self {
            Notification::UsageUpdated => String::from_str("usage-updated"),
            Notification::UsageError(_) => String::from_str("usage-error"),
            Notification::AccountUpdated => String::from_str("account-updated"),
        }
    }
}

/// The change that the outcome of a usage fetch makes: the snapshot, or the
/// error as the text shown for it.
pub fn usage_change<U>(outcome: Result<U, FetchError>) -> (change: StateChange<U>)
    ensures
        match outcome {
            Ok(usage) => change == StateChange::UsageFetched(usage),
            Err(error) => change matches StateChange::FetchFailed(message) && message@
                == error.text(),
        },
{
    match outcome {
        Ok(usage) => StateChange::UsageFetched(usage),
        Err(error) => StateChange::FetchFailed(error.message()),
    }
}

/// Splits a change into what it does to each field, and names what is to be
/// broadcast for it.
pub fn field_updates<U>(change: StateChange<U>) -> (split: (FieldUpdates<U>, Notification))
    ensures
        split.0 == updates_of(change),
        split.1 == announced(change),
{
    match change {
        StateChange::UsageFetched(usage) => (
            FieldUpdates { usage: Some(usage), last_error: Some(None), account: None },
            Notification::UsageUpdated,
        ),
        StateChange::FetchFailed(message) => (
            FieldUpdates { usage: None, last_error: Some(Some(message.clone())), account: None },
            Notification::UsageError(message),
        ),
        StateChange::AccountFetched(account) => (
            FieldUpdates { usage: None, last_error: None, account: Some(account) },
            Notification::AccountUpdated,
        ),
    }
}

impl<U> Default for AppState<U> {
    /// The state at process start: nothing fetched, no error.
    fn default() -> (state: AppState<U>)
        ensures
            state == empty_state::<U>(),
    {
        AppState { usage: None, last_error: None, account: None }
    }
}

impl<U> AppState<U> {
    /// The state at process start: nothing fetched, no error.
    pub fn new() -> (state: AppState<U>)
        ensures
            state == empty_state::<U>(),
    {
        AppState { usage: None, last_error: None, account: None }
    }

    /// Applies a change and returns what is to be broadcast for it.
    pub fn apply(&mut self, change: StateChange<U>) -> (notification: Notification)
        ensures
            *final(self) == applied(*old(self), change),
            notification == announced(change),
    {
        match change {
            StateChange::UsageFetched(usage) => {
                self.usage = Some(usage);
                self.last_error = None;
                Notification::UsageUpdated
            },
            StateChange::FetchFailed(message) => {
                self.last_error = Some(message.clone());
                Notification::UsageError(message)
            },
            StateChange::AccountFetched(account) => {
                self.account = Some(account);
                Notification::AccountUpdated
            },
        }
    }

    /// The last usage snapshot, if a fetch has brought one.
    pub fn get_usage(&self) -> (usage: &Option<U>)
        ensures
            *usage == self.usage,
    {
        &self.usage
    }

    /// The last account profile, if a fetch has brought one.
    pub fn get_account(&self) -> (account: &Option<AccountInfo>)
        ensures
            *account == self.account,
    {
        &self.account
    }

    /// The message of the last failure, unless a later fetch succeeded.
    pub fn get_last_error(&self) -> (message: &Option<String>)
        ensures
            *message == self.last_error,
    {
        &self.last_error
    }
}

/// Failures never take the snapshot away: after any number of failed
/// fetches the usage and the account are what they were before the first,
/// and the error is the message of the last.
pub proof fn failures_keep_usage<U>(state: AppState<U>, changes: Seq<StateChange<U>>)
    requires
        forall|i: int| 0 <= i < changes.len() ==> #[trigger] changes[i] is FetchFailed,
    ensures
        applied_all(state, changes).usage == state.usage,
        applied_all(state, changes).account == state.account,
        changes.len() > 0 ==> applied_all(state, changes).last_error == Some(
            changes.last()->FetchFailed_0,
        ),
    decreases changes.len(),
{
    if changes.len() > 0 {
        failures_keep_usage(state, changes.drop_last());
    }
}

/// No change removes a snapshot or an account: once one is there, one stays
/// there whatever is fetched afterwards.
pub proof fn snapshots_stay<U>(state: AppState<U>, changes: Seq<StateChange<U>>)
    ensures
        state.usage is Some ==> applied_all(state, changes).usage is Some,
        state.account is Some ==> applied_all(state, changes).account is Some,
    decreases changes.len(),
{
    if changes.len() > 0 {
        snapshots_stay(state, changes.drop_last());
    }
}

/// Fresh data never stands beside a stale error: right after a series of
/// changes that ends in a new snapshot, the error is clear.
pub proof fn success_clears_error<U>(state: AppState<U>, changes: Seq<StateChange<U>>)
    requires
        changes.len() > 0,
        changes.last() is UsageFetched,
    ensures
        applied_all(state, changes).last_error is None,
        applied_all(state, changes).usage == Some(changes.last()->UsageFetched_0),
{
}

/// Updating the fields one by one gives the state that the change gives as a
/// whole.
pub proof fn updates_agree_with_change<U>(state: AppState<U>, change: StateChange<U>)
    ensures
        updated(state, updates_of(change)) == applied(state, change),
{
}

} // verus!
