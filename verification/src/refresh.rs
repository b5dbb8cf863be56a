//! The token refresher: one exchange of a refresh token for a new token pair,
//! merged into the stored record and written back.
//!
//! The refresher decides; its caller performs. Each call of `refresh_step`
//! takes what the caller's last action brought and names the next action.

use vstd::prelude::*;
use crate::credentials::{
    merged_token,
    refreshed_token,
    CredentialRecord,
    OAuthToken,
    TokenRefreshResponse,
};
use crate::error::FetchError;

verus! {

/// Where a refresh stands.
#[derive(Debug, Clone, PartialEq, Eq)]
pub enum RefreshState {
    /// The request to the token endpoint is under way.
    Requesting,
    /// The token endpoint has granted a new pair; the stored record is being
    /// read.
    Reading { grant: TokenRefreshResponse },
    /// The record with the new token is being written to the store.
    Writing { record: CredentialRecord },
    /// The refresh has ended.
    Finished,
}

/// What the caller reports back.
#[derive(Debug, PartialEq, Eq)]
pub enum RefreshEvent {
    /// The token endpoint's answer, or why there is none.
    TokenEndpointReplied(Result<TokenRefreshResponse, FetchError>),
    /// The stored record as read just now, and the time of the reading in
    /// milliseconds since the epoch, where the clock gave one.
    RecordRead { record: Result<CredentialRecord, FetchError>, now_ms: Option<i64> },
    /// How the write to the store ended.
    RecordWritten(Result<(), FetchError>),
}

/// What the caller is to do next.
#[derive(Debug, PartialEq, Eq)]
pub enum RefreshAction {
    /// Send the refresh token to the token endpoint.
    RequestToken { refresh_token: String },
    /// Read the stored record.
    ReadRecord,
    /// Write the record that the state holds to the store.
    WriteRecord,
    /// The refresh is over, with this result.
    Finish(Result<OAuthToken, FetchError>),
    /// The event does not belong to the state and was ignored.
    Wait,
}

/// The first move of a refresh.
pub open spec fn refresh_begin(refresh_token: String) -> (RefreshState, RefreshAction) {
    (RefreshState::Requesting, RefreshAction::RequestToken { refresh_token })
}

/// The refresher's rule. A failure of any step ends the refresh with that
/// failure, and before the record was merged nothing is written. A record
/// without an OAuth section does not stop the refresh. An event that does not
/// belong to the state changes nothing.
pub open spec fn refresh_next(state: RefreshState, event: RefreshEvent) -> (
    RefreshState,
    RefreshAction,
) {
    match (state, event) {
        (RefreshState::Requesting, RefreshEvent::TokenEndpointReplied(Ok(grant))) => (
            RefreshState::Reading { grant },
            RefreshAction::ReadRecord,
        ),
        (RefreshState::Requesting, RefreshEvent::TokenEndpointReplied(Err(error))) => (
            RefreshState::Finished,
            RefreshAction::Finish(Err(error)),
        ),
        (RefreshState::Reading { grant }, RefreshEvent::RecordRead { record: Ok(record), now_ms }) => (
            RefreshState::Writing {
                record: CredentialRecord {
                    oauth: Some(merged_token(grant, record.oauth, now_ms)),
                    other: record.other,
                },
            },
            RefreshAction::WriteRecord,
        ),
        (RefreshState::Reading { grant }, RefreshEvent::RecordRead { record: Err(error), now_ms }) => (
            RefreshState::Finished,
            RefreshAction::Finish(Err(error)),
        ),
        (RefreshState::Writing { record }, RefreshEvent::RecordWritten(Ok(_))) => (
            RefreshState::Finished,
            RefreshAction::Finish(
                match record.oauth {
                    Some(token) => Ok(token),
                    None => Err(FetchError::NoCredentials),
                },
            ),
        ),
        (RefreshState::Writing { record }, RefreshEvent::RecordWritten(Err(error))) => (
            RefreshState::Finished,
            RefreshAction::Finish(Err(error)),
        ),
        _ => (state, RefreshAction::Wait),
    }
}

/// Starts a refresh with the given refresh token.
pub fn refresh_start(refresh_token: String) -> (first: (RefreshState, RefreshAction))
    ensures
        first == refresh_begin(refresh_token),
{
    (RefreshState::Requesting, RefreshAction::RequestToken { refresh_token })
}

/// Takes the refresh one step further.
pub fn refresh_step(state: RefreshState, event: RefreshEvent) -> (next: (
    RefreshState,
    RefreshAction,
))
    ensures
        next == refresh_next(state, event),
{
    match state {
        RefreshState::Requesting => match event {
            RefreshEvent::TokenEndpointReplied(Ok(grant)) => (
                RefreshState::Reading { grant },
                RefreshAction::ReadRecord,
            ),
            RefreshEvent::TokenEndpointReplied(Err(error)) => (
                RefreshState::Finished,
                RefreshAction::Finish(Err(error)),
            ),
            _ => (RefreshState::Requesting, RefreshAction::Wait),
        },
        RefreshState::Reading { grant } => match event {
            RefreshEvent::RecordRead { record: Ok(record), now_ms } => {
                let token = refreshed_token(grant, record.oauth, now_ms);
                (
                    RefreshState::Writing {
                        record: CredentialRecord { oauth: Some(token), other: record.other },
                    },
                    RefreshAction::WriteRecord,
                )
            },
            RefreshEvent::RecordRead { record: Err(error), .. } => (
                RefreshState::Finished,
                RefreshAction::Finish(Err(error)),
            ),
            _ => (RefreshState::Reading { grant }, RefreshAction::Wait),
        },
        RefreshState::Writing { record } => match event {
            RefreshEvent::RecordWritten(Ok(_)) => (
                RefreshState::Finished,
                RefreshAction::Finish(
                    match record.oauth {
                        Some(token) => Ok(token),
                        None => Err(FetchError::NoCredentials),
                    },
                ),
            ),
            RefreshEvent::RecordWritten(Err(error)) => (
                RefreshState::Finished,
                RefreshAction::Finish(Err(error)),
            ),
            _ => (RefreshState::Writing { record }, RefreshAction::Wait),
        },
        RefreshState::Finished => (RefreshState::Finished, RefreshAction::Wait),
    }
}

impl RefreshState {
    /// The record that a `WriteRecord` action asks to be written.
    pub open spec fn pending(self) -> Option<CredentialRecord> {
        match self {
            RefreshState::Writing { record } => Some(record),
            _ => None,
        }
    }

    /// Hands out the record that is to be written, while a write is due.
    pub fn pending_record(&self) -> (record: Option<&CredentialRecord>)
        ensures
            record is Some == self.pending() is Some,
            record is Some ==> *record.unwrap() == self.pending().unwrap(),
    {
        match self {
            RefreshState::Writing { record } => Some(record),
            _ => None,
        }
    }
}

} // verus!
