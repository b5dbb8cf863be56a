//! Authenticated fetch: call an API with the stored access token and, where
//! the API rejects the token, refresh it once and call once more.
//!
//! The protocol decides; its caller performs. Each call of `fetch_step` takes
//! what the caller's last action brought and names the next action. The kind
//! of value that the API returns is left to the caller.

use vstd::prelude::*;
use crate::credentials::{
    get_claude_token,
    get_refresh_token,
    stored_access_token,
    stored_refresh_token,
    CredentialRecord,
};
use crate::error::FetchError;
use crate::refresh::{
    refresh_next,
    refresh_start,
    refresh_step,
    RefreshAction,
    RefreshEvent,
    RefreshState,
};

verus! {

/// Where a fetch stands.
#[derive(Debug, Clone, PartialEq, Eq)]
pub enum FetchState {
    /// The stored record is being read for the access token.
    Loading,
    /// The first call of the API is under way.
    Calling,
    /// The API rejected the token; the stored record is being read for the
    /// refresh token.
    Locating { first_error: FetchError },
    /// The refresh is under way.
    Refreshing { first_error: FetchError, refresh: RefreshState },
    /// The second call of the API is under way.
    Retrying,
    /// The fetch has ended.
    Finished,
}

/// What the caller reports back.
#[derive(Debug, PartialEq, Eq)]
pub enum FetchEvent<T> {
    /// The stored record as read just now.
    Credentials(Result<CredentialRecord, FetchError>),
    /// The API's answer.
    Api(Result<T, FetchError>),
    /// What a step of the refresh brought.
    Refresh(RefreshEvent),
}

/// What the caller is to do next.
#[derive(Debug, PartialEq, Eq)]
pub enum FetchAction<T> {
    /// Read the stored record.
    ReadCredentials,
    /// Call the API with this access token.
    CallApi { token: String },
    /// Perform this step of the refresh.
    Refresh(RefreshAction),
    /// The fetch is over, with this result.
    Finish(Result<T, FetchError>),
    /// The event does not belong to the state and was ignored.
    Wait,
}

/// The move that follows a step of the refresh. A granted token is presented
/// to the API at once; a failed refresh ends the fetch with the error of the
/// first call, never with its own.
pub open spec fn after_refresh<T>(
    first_error: FetchError,
    refresh: RefreshState,
    action: RefreshAction,
) -> (FetchState, FetchAction<T>) {
    match action {
        RefreshAction::Finish(Ok(token)) => (
            FetchState::Retrying,
            FetchAction::CallApi { token: token.access_token },
        ),
        RefreshAction::Finish(Err(_)) => (FetchState::Finished, FetchAction::Finish(Err(first_error))),
        RefreshAction::Wait => (FetchState::Refreshing { first_error, refresh }, FetchAction::Wait),
        _ => (FetchState::Refreshing { first_error, refresh }, FetchAction::Refresh(action)),
    }
}

/// The protocol's rule.
///
/// A record without an access token, or a store that cannot be read, ends
/// the fetch at once. A first answer other than a 401 is final. After a 401
/// the refresh token is taken from the record as stored then; where there is
/// none, or the refresh fails, the fetch ends with the 401. After a refresh
/// the API is called once more, and that answer is final whatever it is. An
/// event that does not belong to the state changes nothing.
pub open spec fn fetch_next<T>(state: FetchState, event: FetchEvent<T>) -> (
    FetchState,
    FetchAction<T>,
) {
    match (state, event) {
        (FetchState::Loading, FetchEvent::Credentials(Ok(record))) => match stored_access_token(
            record,
        ) {
            Ok(token) => (FetchState::Calling, FetchAction::CallApi { token }),
            Err(error) => (FetchState::Finished, FetchAction::Finish(Err(error))),
        },
        (FetchState::Loading, FetchEvent::Credentials(Err(error))) => (
            FetchState::Finished,
            FetchAction::Finish(Err(error)),
        ),
        (FetchState::Calling, FetchEvent::Api(Ok(value))) => (
            FetchState::Finished,
            FetchAction::Finish(Ok(value)),
        ),
        (FetchState::Calling, FetchEvent::Api(Err(error))) => if error.auth_error() {
            (FetchState::Locating { first_error: error }, FetchAction::ReadCredentials)
        } else {
            (FetchState::Finished, FetchAction::Finish(Err(error)))
        },
        (FetchState::Locating { first_error }, FetchEvent::Credentials(Ok(record))) => match stored_refresh_token(
        record) {
            Ok(refresh_token) => (
                FetchState::Refreshing { first_error, refresh: RefreshState::Requesting },
                FetchAction::Refresh(RefreshAction::RequestToken { refresh_token }),
            ),
            Err(_) => (FetchState::Finished, FetchAction::Finish(Err(first_error))),
        },
        (FetchState::Locating { first_error }, FetchEvent::Credentials(Err(_))) => (
            FetchState::Finished,
            FetchAction::Finish(Err(first_error)),
        ),
        (FetchState::Refreshing { first_error, refresh }, FetchEvent::Refresh(event)) => {
            let (next, action) = refresh_next(refresh, event);
            after_refresh(first_error, next, action)
        },
        (FetchState::Retrying, FetchEvent::Api(answer)) => (
            FetchState::Finished,
            FetchAction::Finish(answer),
        ),
        _ => (state, FetchAction::Wait),
    }
}

/// The first move of a fetch.
pub open spec fn fetch_begin<T>() -> (FetchState, FetchAction<T>) {
    (FetchState::Loading, FetchAction::ReadCredentials)
}

/// Starts a fetch.
pub fn fetch_start<T>() -> (first: (FetchState, FetchAction<T>))
    ensures
        first == fetch_begin::<T>(),
{
    (FetchState::Loading, FetchAction::ReadCredentials)
}

/// Takes the fetch one step further.
pub fn fetch_step<T>(state: FetchState, event: FetchEvent<T>) -> (next: (
    FetchState,
    FetchAction<T>,
))
    ensures
        next == fetch_next(state, event),
{
    match state {
        FetchState::Loading => match event {
            FetchEvent::Credentials(Ok(record)) => match get_claude_token(&record) {
                Ok(token) => (FetchState::Calling, FetchAction::CallApi { token }),
                Err(error) => (FetchState::Finished, FetchAction::Finish(Err(error))),
            },
            FetchEvent::Credentials(Err(error)) => (
                FetchState::Finished,
                FetchAction::Finish(Err(error)),
            ),
            _ => (FetchState::Loading, FetchAction::Wait),
        },
        FetchState::Calling => match event {
            FetchEvent::Api(Ok(value)) => (FetchState::Finished, FetchAction::Finish(Ok(value))),
            FetchEvent::Api(Err(error)) => {
                if error.is_auth_error() {
                    (FetchState::Locating { first_error: error }, FetchAction::ReadCredentials)
                } else {
                    (FetchState::Finished, FetchAction::Finish(Err(error)))
                }
            },
            _ => (FetchState::Calling, FetchAction::Wait),
        },
        FetchState::Locating { first_error } => match event {
            FetchEvent::Credentials(Ok(record)) => match get_refresh_token(&record) {
                Ok(refresh_token) => {
                    let (refresh, action) = refresh_start(refresh_token);
                    (FetchState::Refreshing { first_error, refresh }, FetchAction::Refresh(action))
                },
                Err(_) => (FetchState::Finished, FetchAction::Finish(Err(first_error))),
            },
            FetchEvent::Credentials(Err(_)) => (
                FetchState::Finished,
                FetchAction::Finish(Err(first_error)),
            ),
            _ => (FetchState::Locating { first_error }, FetchAction::Wait),
        },
        FetchState::Refreshing { first_error, refresh } => match event {
            FetchEvent::Refresh(event) => {
                let (next, action) = refresh_step(refresh, event);
                match action {
                    RefreshAction::Finish(Ok(token)) => (
                        FetchState::Retrying,
                        FetchAction::CallApi { token: token.access_token },
                    ),
                    RefreshAction::Finish(Err(_)) => (
                        FetchState::Finished,
                        FetchAction::Finish(Err(first_error)),
                    ),
                    RefreshAction::Wait => (
                        FetchState::Refreshing { first_error, refresh: next },
                        FetchAction::Wait,
                    ),
                    _ => (
                        FetchState::Refreshing { first_error, refresh: next },
                        FetchAction::Refresh(action),
                    ),
                }
            },
            _ => (FetchState::Refreshing { first_error, refresh }, FetchAction::Wait),
        },
        FetchState::Retrying => match event {
            FetchEvent::Api(answer) => (FetchState::Finished, FetchAction::Finish(answer)),
            _ => (FetchState::Retrying, FetchAction::Wait),
        },
        FetchState::Finished => (FetchState::Finished, FetchAction::Wait),
    }
}

impl FetchState {
    /// The record that a `WriteRecord` action of the refresh asks to be
    /// written.
    pub open spec fn pending(self) -> Option<CredentialRecord> {
        match self {
            FetchState::Refreshing { refresh, .. } => refresh.pending(),
            _ => None,
        }
    }

    /// Hands out the record that is to be written, while a write is due.
    pub fn pending_record(&self) -> (record: Option<&CredentialRecord>)
        ensures
            record is Some == self.pending() is Some,
            record is Some ==> *record.unwrap() == self.pending().unwrap(),
    {
        match self {
            FetchState::Refreshing { refresh, .. } => refresh.pending_record(),
            _ => None,
        }
    }
}

} // verus!
