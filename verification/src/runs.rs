//! Whole runs of the two protocols, and what holds of every run.

use vstd::prelude::*;
use crate::credentials::{
    merged_token,
    stored_access_token,
    stored_refresh_token,
    CredentialRecord,
    TokenRefreshResponse,
};
use crate::error::FetchError;
use crate::fetch::{fetch_next, FetchAction, FetchEvent, FetchState};
use crate::refresh::{refresh_next, RefreshAction, RefreshEvent, RefreshState};

verus! {

/// The state that a refresh reaches from `state` over `events`, and the
/// actions it names on the way, one for each event.
pub open spec fn refresh_run(state: RefreshState, events: Seq<RefreshEvent>) -> (
    RefreshState,
    Seq<RefreshAction>,
)
    decreases events.len(),
{
    if events.len() == 0 {
        (state, Seq::empty())
    } else {
        let (before, actions) = refresh_run(state, events.drop_last());
        let (after, action) = refresh_next(before, events.last());
        (after, actions.push(action))
    }
}

/// The state that a fetch reaches from `state` over `events`, and the actions
/// it names on the way, one for each event.
pub open spec fn fetch_run<T>(state: FetchState, events: Seq<FetchEvent<T>>) -> (
    FetchState,
    Seq<FetchAction<T>>,
)
    decreases events.len(),
{
    if events.len() == 0 {
        (state, Seq::empty())
    } else {
        let (before, actions) = fetch_run(state, events.drop_last());
        let (after, action) = fetch_next(before, events.last());
        (after, actions.push(action))
    }
}

/// How many of the actions send a refresh token to the token endpoint.
pub open spec fn token_requests<T>(actions: Seq<FetchAction<T>>) -> nat
    decreases actions.len(),
{
    if actions.len() == 0 {
        0
    } else {
        token_requests(actions.drop_last()) + if actions.last() matches FetchAction::Refresh(
            RefreshAction::RequestToken { .. },
        ) {
            1nat
        } else {
            0nat
        }
    }
}

/// How many of the actions call the API.
pub open spec fn api_calls<T>(actions: Seq<FetchAction<T>>) -> nat
    decreases actions.len(),
{
    if actions.len() == 0 {
        0
    } else {
        api_calls(actions.drop_last()) + if actions.last() is CallApi {
            1nat
        } else {
            0nat
        }
    }
}

/// How many token requests a fetch in `state` may still make.
pub open spec fn requests_left(state: FetchState) -> nat {
    match state {
        FetchState::Loading | FetchState::Calling | FetchState::Locating { .. } => 1,
        _ => 0,
    }
}

/// How many calls of the API a fetch in `state` may still make.
pub open spec fn calls_left(state: FetchState) -> nat {
    match state {
        FetchState::Loading => 2,
        FetchState::Calling | FetchState::Locating { .. } | FetchState::Refreshing { .. } => 1,
        _ => 0,
    }
}

/// A run over one more event is the run so far and one more step.
pub proof fn fetch_run_push<T>(state: FetchState, events: Seq<FetchEvent<T>>, event: FetchEvent<T>)
    ensures
        fetch_run(state, events.push(event)) == (
            fetch_next(fetch_run(state, events).0, event).0,
            fetch_run(state, events).1.push(fetch_next(fetch_run(state, events).0, event).1),
        ),
{
    assert(events.push(event).drop_last() =~= events);
    assert(events.push(event).last() == event);
}

/// A run names one action for each event.
pub proof fn fetch_run_length<T>(state: FetchState, events: Seq<FetchEvent<T>>)
    ensures
        fetch_run(state, events).1.len() == events.len(),
    decreases events.len(),
{
    if events.len() > 0 {
        fetch_run_length(state, events.drop_last());
    }
}

/// From any state, a fetch stays within the token requests and the calls of
/// the API that the state leaves it.
pub proof fn fetch_stays_within<T>(state: FetchState, events: Seq<FetchEvent<T>>)
    ensures
        token_requests(fetch_run(state, events).1) + requests_left(fetch_run(state, events).0)
            <= requests_left(state),
        api_calls(fetch_run(state, events).1) + calls_left(fetch_run(state, events).0)
            <= calls_left(state),
    decreases events.len(),
{
    if events.len() > 0 {
        fetch_stays_within(state, events.drop_last());
        let (before, actions) = fetch_run(state, events.drop_last());
        let (after, action) = fetch_next(before, events.last());
        assert(actions.push(action).drop_last() =~= actions);
        assert(actions.push(action).last() == action);
    }
}

/// Whatever the caller reports and in whatever order, a fetch sends the
/// refresh token to the token endpoint at most once and calls the API at most
/// twice.
pub proof fn fetch_is_bounded<T>(events: Seq<FetchEvent<T>>)
    ensures
        token_requests(fetch_run(FetchState::Loading, events).1) <= 1,
        api_calls(fetch_run(FetchState::Loading, events).1) <= 2,
{
    fetch_stays_within(FetchState::Loading, events);
}

/// Counting the token requests over one more action.
pub proof fn token_requests_push<T>(actions: Seq<FetchAction<T>>, action: FetchAction<T>)
    ensures
        token_requests(actions.push(action)) == token_requests(actions) + if action matches FetchAction::Refresh(
            RefreshAction::RequestToken { .. },
        ) {
            1nat
        } else {
            0nat
        },
{
    assert(actions.push(action).drop_last() =~= actions);
    assert(actions.push(action).last() == action);
}

/// A rejected token that the refresh replaces: the fetch reads the refresh
/// token from the record as stored after the rejection, requests a new pair
/// exactly once, has the merged record written with every other field as it
/// was read, calls the API again with the new access token, and ends with
/// the answer to that second call, whatever it is.
pub proof fn retry_returns_second_answer<T>(
    record: CredentialRecord,
    rejected: FetchError,
    stored: CredentialRecord,
    grant: TokenRefreshResponse,
    current: CredentialRecord,
    now_ms: Option<i64>,
    answer: Result<T, FetchError>,
)
    requires
        stored_access_token(record) is Ok,
        rejected.auth_error(),
        stored_refresh_token(stored) is Ok,
    ensures
        ({
            let events = seq![
                FetchEvent::Credentials(Ok(record)),
                FetchEvent::Api(Err(rejected)),
                FetchEvent::Credentials(Ok(stored)),
                FetchEvent::Refresh(RefreshEvent::TokenEndpointReplied(Ok(grant))),
                FetchEvent::Refresh(RefreshEvent::RecordRead { record: Ok(current), now_ms }),
                FetchEvent::Refresh(RefreshEvent::RecordWritten(Ok(()))),
                FetchEvent::Api(answer),
            ];
            let (end, actions) = fetch_run(FetchState::Loading, events);
            &&& end == FetchState::Finished
            &&& actions == seq![
                FetchAction::CallApi { token: stored_access_token(record).unwrap() },
                FetchAction::ReadCredentials,
                FetchAction::Refresh(
                    RefreshAction::RequestToken {
                        refresh_token: stored_refresh_token(stored).unwrap(),
                    },
                ),
                FetchAction::Refresh(RefreshAction::ReadRecord),
                FetchAction::Refresh(RefreshAction::WriteRecord),
                FetchAction::CallApi { token: grant.access_token },
                FetchAction::Finish(answer),
            ]
            &&& token_requests(actions) == 1
            &&& fetch_run(FetchState::Loading, events.take(5)).0.pending() == Some(
                CredentialRecord {
                    oauth: Some(merged_token(grant, current.oauth, now_ms)),
                    other: current.other,
                },
            )
        }),
{
    let e1 = FetchEvent::<T>::Credentials(Ok(record));
    let e2 = FetchEvent::<T>::Api(Err(rejected));
    let e3 = FetchEvent::<T>::Credentials(Ok(stored));
    let e4 = FetchEvent::<T>::Refresh(RefreshEvent::TokenEndpointReplied(Ok(grant)));
    let e5 = FetchEvent::<T>::Refresh(RefreshEvent::RecordRead { record: Ok(current), now_ms });
    let e6 = FetchEvent::<T>::Refresh(RefreshEvent::RecordWritten(Ok(())));
    let e7 = FetchEvent::<T>::Api(answer);
    let s0 = Seq::<FetchEvent<T>>::empty();
    let s1 = s0.push(e1);
    let s2 = s1.push(e2);
    let s3 = s2.push(e3);
    let s4 = s3.push(e4);
    let s5 = s4.push(e5);
    let s6 = s5.push(e6);
    let s7 = s6.push(e7);
    let start = FetchState::Loading;
    assert(fetch_run(start, s0) == (start, Seq::<FetchAction<T>>::empty()));
    fetch_run_push(start, s0, e1);
    fetch_run_push(start, s1, e2);
    fetch_run_push(start, s2, e3);
    fetch_run_push(start, s3, e4);
    fetch_run_push(start, s4, e5);
    fetch_run_push(start, s5, e6);
    fetch_run_push(start, s6, e7);
    let a0 = Seq::<FetchAction<T>>::empty();
    assert(token_requests(a0) == 0);
    let a1 = fetch_run(start, s1).1;
    let a2 = fetch_run(start, s2).1;
    let a3 = fetch_run(start, s3).1;
    let a4 = fetch_run(start, s4).1;
    let a5 = fetch_run(start, s5).1;
    let a6 = fetch_run(start, s6).1;
    token_requests_push(a0, a1.last());
    token_requests_push(a1, a2.last());
    token_requests_push(a2, a3.last());
    token_requests_push(a3, a4.last());
    token_requests_push(a4, a5.last());
    token_requests_push(a5, a6.last());
    token_requests_push(a6, fetch_run(start, s7).1.last());
    let events = seq![e1, e2, e3, e4, e5, e6, e7];
    assert(events =~= s7);
    assert(events.take(5) =~= s5);
    assert(fetch_run(start, s7).1 =~= seq![
        FetchAction::CallApi { token: stored_access_token(record).unwrap() },
        FetchAction::ReadCredentials,
        FetchAction::Refresh(
            RefreshAction::RequestToken { refresh_token: stored_refresh_token(stored).unwrap() },
        ),
        FetchAction::Refresh(RefreshAction::ReadRecord),
        FetchAction::Refresh(RefreshAction::WriteRecord),
        FetchAction::CallApi { token: grant.access_token },
        FetchAction::Finish(answer),
    ]);
}

/// A rejected token and nothing to refresh it with: where the store cannot
/// be read, or the record as stored then holds no refresh token, the fetch
/// ends with the error of the rejected call and names no further action.
pub proof fn missing_refresh_token_keeps_first_error<T>(
    rejected: FetchError,
    stored: Result<CredentialRecord, FetchError>,
)
    requires
        rejected.auth_error(),
        stored is Err || stored_refresh_token(stored.unwrap()) is Err,
    ensures
        fetch_next::<T>(FetchState::Calling, FetchEvent::Api(Err(rejected))) == (
            FetchState::Locating { first_error: rejected },
            FetchAction::<T>::ReadCredentials,
        ),
        fetch_next::<T>(
            FetchState::Locating { first_error: rejected },
            FetchEvent::Credentials(stored),
        ) == (FetchState::Finished, FetchAction::<T>::Finish(Err(rejected))),
{
}

/// A refresh that fails at any step ends the fetch with the error of the
/// rejected call, not with its own.
pub proof fn failed_refresh_keeps_first_error<T>(
    first_error: FetchError,
    refresh: RefreshState,
    event: RefreshEvent,
)
    requires
        refresh_next(refresh, event).1 matches RefreshAction::Finish(Err(_)),
    ensures
        fetch_next::<T>(FetchState::Refreshing { first_error, refresh }, FetchEvent::Refresh(event))
            == (FetchState::Finished, FetchAction::<T>::Finish(Err(first_error))),
{
}

/// An answer other than a 401 to the first call is final: a success as well
/// as any other failure ends the fetch at once.
pub proof fn other_answers_are_final<T>(answer: Result<T, FetchError>)
    requires
        answer matches Err(error) ==> !error.auth_error(),
    ensures
        fetch_next(FetchState::Calling, FetchEvent::Api(answer)) == (
            FetchState::Finished,
            FetchAction::Finish(answer),
        ),
{
}

/// A refresh whose request to the token endpoint fails ends with that
/// failure, and nothing is written then or later: whatever the caller
/// reports afterwards, the refresher only waits and holds no record.
pub proof fn failed_request_writes_nothing(error: FetchError, later: Seq<RefreshEvent>)
    ensures
        refresh_next(
            RefreshState::Requesting,
            RefreshEvent::TokenEndpointReplied(Err(error)),
        ) == (RefreshState::Finished, RefreshAction::Finish(Err(error))),
        refresh_run(RefreshState::Finished, later).0 == RefreshState::Finished,
        refresh_run(RefreshState::Finished, later).1.len() == later.len(),
        forall|i: int|
            0 <= i < later.len() ==> #[trigger] refresh_run(RefreshState::Finished, later).1[i]
                == RefreshAction::Wait,
        RefreshState::Finished.pending() is None,
    decreases later.len(),
{
    if later.len() > 0 {
        failed_request_writes_nothing(error, later.drop_last());
    }
}

/// A refresh replaces the OAuth section and nothing else: the record that
/// it has written holds every other field as it was read, in the same order
/// and with the same encoded value. In the new section both tokens come from
/// the token endpoint, and the scopes and the two tier labels are those that
/// were stored before.
pub proof fn refresh_keeps_other_fields(
    grant: TokenRefreshResponse,
    record: CredentialRecord,
    now_ms: Option<i64>,
)
    ensures
        ({
            let (state, action) = refresh_next(
                RefreshState::Reading { grant },
                RefreshEvent::RecordRead { record: Ok(record), now_ms },
            );
            &&& action == RefreshAction::WriteRecord
            &&& state.pending() is Some
            &&& state.pending().unwrap().other == record.other
            &&& state.pending().unwrap().oauth is Some
            &&& state.pending().unwrap().oauth.unwrap().access_token == grant.access_token
            &&& state.pending().unwrap().oauth.unwrap().refresh_token == Some(grant.refresh_token)
            &&& record.oauth is Some ==> {
                &&& state.pending().unwrap().oauth.unwrap().scopes == record.oauth.unwrap().scopes
                &&& state.pending().unwrap().oauth.unwrap().subscription_type
                    == record.oauth.unwrap().subscription_type
                &&& state.pending().unwrap().oauth.unwrap().rate_limit_tier
                    == record.oauth.unwrap().rate_limit_tier
            }
            &&& refresh_next(state, RefreshEvent::RecordWritten(Ok(()))) == (
                RefreshState::Finished,
                RefreshAction::Finish(Ok(state.pending().unwrap().oauth.unwrap())),
            )
        }),
{
}

/// Whether a fetch stands between a rejected call and its cure, with
/// `first_error` as the error of the rejected call.
pub open spec fn awaits_cure(state: FetchState, first_error: FetchError) -> bool {
    match state {
        FetchState::Locating { first_error: held } => held == first_error,
        FetchState::Refreshing { first_error: held, .. } => held == first_error,
        _ => false,
    }
}

/// Counting the calls of the API over one more action.
pub proof fn api_calls_push<T>(actions: Seq<FetchAction<T>>, action: FetchAction<T>)
    ensures
        api_calls(actions.push(action)) == api_calls(actions) + if action is CallApi {
            1nat
        } else {
            0nat
        },
{
    assert(actions.push(action).drop_last() =~= actions);
    assert(actions.push(action).last() == action);
}

/// After a rejected call, nothing that happens on the way to a second call
/// can replace the error of the first: whatever the caller reports, a fetch
/// that ends without calling the API again ends with that error.
pub proof fn cure_never_masks_first_error<T>(
    state: FetchState,
    first_error: FetchError,
    events: Seq<FetchEvent<T>>,
)
    requires
        awaits_cure(state, first_error),
    ensures
        api_calls(fetch_run(state, events).1) == 0 ==> {
            &&& awaits_cure(fetch_run(state, events).0, first_error) || fetch_run(
                state,
                events,
            ).0 == FetchState::Finished
            &&& forall|i: int|
                0 <= i < events.len() && #[trigger] fetch_run(state, events).1[i] is Finish
                    ==> fetch_run(state, events).1[i] == FetchAction::<T>::Finish(
                    Err(first_error),
                )
        },
    decreases events.len(),
{
    if events.len() > 0 {
        cure_never_masks_first_error(state, first_error, events.drop_last());
        fetch_run_length(state, events.drop_last());
        let (before, actions) = fetch_run(state, events.drop_last());
        let (after, action) = fetch_next(before, events.last());
        api_calls_push(actions, action);
        if api_calls(actions.push(action)) == 0 {
            assert forall|i: int|
                0 <= i < events.len() && #[trigger] actions.push(action)[i] is Finish implies actions.push(
                action,
            )[i] == FetchAction::<T>::Finish(Err(first_error)) by {
                if i < actions.len() {
                    assert(actions.push(action)[i] == actions[i]);
                }
            }
        }
    }
}

/// How many of the actions ask for a write to the store.
pub open spec fn record_writes(actions: Seq<RefreshAction>) -> nat
    decreases actions.len(),
{
    if actions.len() == 0 {
        0
    } else {
        record_writes(actions.drop_last()) + if actions.last() is WriteRecord {
            1nat
        } else {
            0nat
        }
    }
}

/// How many writes a refresh in `state` may still ask for.
pub open spec fn writes_left(state: RefreshState) -> nat {
    match state {
        RefreshState::Requesting | RefreshState::Reading { .. } => 1,
        _ => 0,
    }
}

/// Whatever the caller reports and in whatever order, a refresh asks for at
/// most one write to the store; from any state, it stays within what that
/// state leaves.
pub proof fn refresh_writes_at_most_once(state: RefreshState, events: Seq<RefreshEvent>)
    ensures
        record_writes(refresh_run(state, events).1) + writes_left(refresh_run(state, events).0)
            <= writes_left(state),
        record_writes(refresh_run(state, events).1) <= 1,
    decreases events.len(),
{
    if events.len() > 0 {
        refresh_writes_at_most_once(state, events.drop_last());
        let (before, actions) = refresh_run(state, events.drop_last());
        let (after, action) = refresh_next(before, events.last());
        assert(actions.push(action).drop_last() =~= actions);
        assert(actions.push(action).last() == action);
    }
}

} // verus!
