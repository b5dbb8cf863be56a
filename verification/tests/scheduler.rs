use usage_monitor::credentials::{CredentialRecord, OAuthToken};
use usage_monitor::error::FetchError;
use usage_monitor::scheduler::{
    on_outcome, on_tick, startup_step, PollAction, PollState, StartupAction, StartupEvent,
    StartupState, POLL_INTERVAL_SECS,
};
use usage_monitor::state::{AccountInfo, AppState, Notification, StateChange};

fn record(kind: Option<&str>, tier: Option<&str>) -> CredentialRecord {
    CredentialRecord {
        oauth: Some(OAuthToken {
            access_token: "A1".to_string(),
            refresh_token: None,
            expires_at: None,
            scopes: None,
            subscription_type: kind.map(|k| k.to_string()),
            rate_limit_tier: tier.map(|t| t.to_string()),
        }),
        other: Vec::new(),
    }
}

#[test]
fn ticks_come_once_a_minute() {
    assert_eq!(POLL_INTERVAL_SECS, 60);
}

#[test]
fn tick_starts_a_fetch_only_when_idle() {
    assert_eq!(on_tick(PollState::Idle), (PollState::Fetching, PollAction::StartFetch));
    assert_eq!(on_tick(PollState::Fetching), (PollState::Fetching, PollAction::Skip));
}

#[test]
fn failing_fetch_on_every_tick_keeps_the_stale_snapshot() {
    let mut shared: AppState<u32> = AppState::new();
    let (state, action) = on_tick(PollState::Idle);
    assert_eq!(action, PollAction::StartFetch);
    assert_eq!(state, PollState::Fetching);
    let (mut state, change) = on_outcome(Ok(42));
    assert_eq!(state, PollState::Idle);
    assert_eq!(shared.apply(change), Notification::UsageUpdated);

    for tick in 0..25u16 {
        let (next, action) = on_tick(state);
        assert_eq!(action, PollAction::StartFetch);
        assert_eq!(next, PollState::Fetching);
        let error = FetchError::ApiError { status: 500 + tick, status_text: format!("{}", 500 + tick) };
        let (next, change) = on_outcome(Err(error));
        assert_eq!(next, PollState::Idle);
        assert_eq!(
            shared.apply(change),
            Notification::UsageError(format!("API returned status: {}", 500 + tick))
        );
        state = next;
        assert_eq!(shared.get_usage(), &Some(42));
        assert_eq!(
            shared.get_last_error(),
            &Some(format!("API returned status: {}", 500 + tick))
        );
    }
    assert_eq!(shared.get_last_error(), &Some("API returned status: 524".to_string()));

    let (_, action) = on_tick(state);
    assert_eq!(action, PollAction::StartFetch);
    shared.apply(on_outcome(Ok(43)).1);
    assert_eq!(shared.get_usage(), &Some(43));
    assert_eq!(shared.get_last_error(), &None);
}

#[test]
fn failures_before_any_snapshot_leave_usage_empty() {
    let mut shared: AppState<u32> = AppState::new();
    shared.apply(on_outcome(Err(FetchError::NoCredentials)).1);
    shared.apply(on_outcome(Err(FetchError::NoRefreshToken)).1);
    assert_eq!(shared.get_usage(), &None);
    assert_eq!(shared.get_last_error(), &Some("No refresh token found".to_string()));
}

#[test]
fn startup_fetches_profile_then_usage() {
    let state = StartupState::Credentials;
    let (state, action) = startup_step::<u32>(
        state,
        StartupEvent::Credentials(Ok(record(Some("max"), Some("default_claude_max_20x")))),
    );
    assert_eq!(state, StartupState::Profile { subscription: Some("Max 20x".to_string()) });
    assert_eq!(action, StartupAction::FetchProfile);

    let fetched = AccountInfo::from_profile("a@example.com".to_string(), None, None);
    let (state, action) = startup_step::<u32>(state, StartupEvent::Profile(Ok(fetched)));
    assert_eq!(state, StartupState::Usage);
    assert_eq!(
        action,
        StartupAction::FetchUsage {
            account: Some(AccountInfo {
                email: Some("a@example.com".to_string()),
                display_name: None,
                full_name: None,
                subscription: Some("Max 20x".to_string()),
            }),
        }
    );

    let (state, action) = startup_step::<u32>(state, StartupEvent::Usage(Ok(5)));
    assert_eq!(state, StartupState::Done);
    assert_eq!(action, StartupAction::Record(StateChange::UsageFetched(5)));

    let (state, action) = startup_step::<u32>(state, StartupEvent::Usage(Ok(6)));
    assert_eq!(state, StartupState::Done);
    assert_eq!(action, StartupAction::Wait);
}

#[test]
fn startup_passes_over_a_failed_profile() {
    let state = StartupState::Profile { subscription: Some("Pro".to_string()) };
    let (state, action) = startup_step::<u32>(
        state,
        StartupEvent::Profile(Err(FetchError::RequestFailed("offline".to_string()))),
    );
    assert_eq!(state, StartupState::Usage);
    assert_eq!(action, StartupAction::FetchUsage { account: None });
    let (state, action) = startup_step::<u32>(
        state,
        StartupEvent::Usage(Err(FetchError::RequestFailed("offline".to_string()))),
    );
    assert_eq!(state, StartupState::Done);
    assert_eq!(
        action,
        StartupAction::Record(StateChange::FetchFailed("Request failed: offline".to_string()))
    );
}

#[test]
fn startup_without_credentials_records_the_failure() {
    let (state, action) = startup_step::<u32>(
        StartupState::Credentials,
        StartupEvent::Credentials(Ok(CredentialRecord { oauth: None, other: Vec::new() })),
    );
    assert_eq!(state, StartupState::Done);
    assert_eq!(
        action,
        StartupAction::Record(StateChange::FetchFailed(
            "No OAuth token found in credentials".to_string()
        ))
    );

    let (state, action) = startup_step::<u32>(
        StartupState::Credentials,
        StartupEvent::Credentials(Err(FetchError::StoreAccessDenied("denied".to_string()))),
    );
    assert_eq!(state, StartupState::Done);
    assert_eq!(
        action,
        StartupAction::Record(StateChange::FetchFailed(
            "Keychain access failed: denied".to_string()
        ))
    );
}

#[test]
fn startup_ignores_events_out_of_turn() {
    let (state, action) = startup_step::<u32>(StartupState::Credentials, StartupEvent::Usage(Ok(1)));
    assert_eq!(state, StartupState::Credentials);
    assert_eq!(action, StartupAction::Wait);
    let (state, action) = startup_step::<u32>(
        StartupState::Usage,
        StartupEvent::Credentials(Ok(record(None, None))),
    );
    assert_eq!(state, StartupState::Usage);
    assert_eq!(action, StartupAction::Wait);
}
