use usage_monitor::credentials::{CredentialRecord, Field, OAuthToken, TokenRefreshResponse};
use usage_monitor::error::FetchError;
use usage_monitor::fetch::{fetch_start, fetch_step, FetchAction, FetchEvent, FetchState};
use usage_monitor::refresh::{
    refresh_start, refresh_step, RefreshAction, RefreshEvent, RefreshState,
};
use usage_monitor::state::{usage_change, AppState, Notification};

#[derive(Debug, Clone, PartialEq)]
struct Usage {
    five_hour: Option<f64>,
}

/// A store, an API and a token endpoint that answer from a script and note
/// what they were asked.
struct World {
    store: Result<CredentialRecord, FetchError>,
    write: Result<(), FetchError>,
    now_ms: Option<i64>,
    api: Vec<Result<Usage, FetchError>>,
    token_endpoint: Vec<Result<TokenRefreshResponse, FetchError>>,
    presented: Vec<String>,
    exchanged: Vec<String>,
    reads: usize,
    writes: usize,
}

fn token(access: &str, refresh: Option<&str>) -> OAuthToken {
    OAuthToken {
        access_token: access.to_string(),
        refresh_token: refresh.map(|r| r.to_string()),
        expires_at: Some(10),
        scopes: Some(vec!["user:inference".to_string()]),
        subscription_type: Some("pro".to_string()),
        rate_limit_tier: Some("default".to_string()),
    }
}

fn others() -> Vec<Field> {
    vec![
        Field { name: "zeta".to_string(), value: "{ \"k\" :  [1,2.50, \"\\u00e9\"] }".to_string() },
        Field { name: "alpha".to_string(), value: "null".to_string() },
    ]
}

fn world(oauth: Option<OAuthToken>) -> World {
    World {
        store: Ok(CredentialRecord { oauth, other: others() }),
        write: Ok(()),
        now_ms: Some(1_000_000),
        api: Vec::new(),
        token_endpoint: Vec::new(),
        presented: Vec::new(),
        exchanged: Vec::new(),
        reads: 0,
        writes: 0,
    }
}

fn grant(access: &str, refresh: &str) -> TokenRefreshResponse {
    TokenRefreshResponse {
        access_token: access.to_string(),
        refresh_token: refresh.to_string(),
        expires_in: 3600,
    }
}

fn status(code: u16, line: &str) -> FetchError {
    FetchError::ApiError { status: code, status_text: line.to_string() }
}

fn unauthorized() -> FetchError {
    status(401, "401 Unauthorized")
}

fn perform_refresh(
    world: &mut World,
    pending: Option<&CredentialRecord>,
    action: RefreshAction,
) -> RefreshEvent {
    match action {
        RefreshAction::RequestToken { refresh_token } => {
            world.exchanged.push(refresh_token);
            RefreshEvent::TokenEndpointReplied(world.token_endpoint.remove(0))
        }
        RefreshAction::ReadRecord => {
            world.reads += 1;
            RefreshEvent::RecordRead { record: world.store.clone(), now_ms: world.now_ms }
        }
        RefreshAction::WriteRecord => {
            world.writes += 1;
            if world.write.is_ok() {
                world.store = Ok(pending.unwrap().clone());
            }
            RefreshEvent::RecordWritten(world.write.clone())
        }
        RefreshAction::Finish(_) | RefreshAction::Wait => unreachable!(),
    }
}

fn run_fetch(world: &mut World) -> Result<Usage, FetchError> {
    let (mut state, mut action) = fetch_start::<Usage>();
    loop {
        let event = match action {
            FetchAction::ReadCredentials => {
                world.reads += 1;
                FetchEvent::Credentials(world.store.clone())
            }
            FetchAction::CallApi { token } => {
                world.presented.push(token);
                FetchEvent::Api(world.api.remove(0))
            }
            FetchAction::Refresh(step) => {
                FetchEvent::Refresh(perform_refresh(world, state.pending_record(), step))
            }
            FetchAction::Finish(result) => {
                assert_eq!(state, FetchState::Finished);
                return result;
            }
            FetchAction::Wait => unreachable!(),
        };
        let next = fetch_step(state, event);
        state = next.0;
        action = next.1;
    }
}

fn run_refresh(world: &mut World, refresh_token: &str) -> Result<OAuthToken, FetchError> {
    let (mut state, mut action) = refresh_start(refresh_token.to_string());
    loop {
        if let RefreshAction::Finish(result) = action {
            assert_eq!(state, RefreshState::Finished);
            return result;
        }
        let event = perform_refresh(world, state.pending_record(), action);
        let next = refresh_step(state, event);
        state = next.0;
        action = next.1;
    }
}

#[test]
fn rejected_token_is_refreshed_and_the_state_follows() {
    let mut w = world(Some(token("A1", Some("R1"))));
    w.api = vec![Err(unauthorized()), Ok(Usage { five_hour: Some(42.0) })];
    w.token_endpoint = vec![Ok(grant("A2", "R2"))];
    let mut shared: AppState<Usage> = AppState::new();
    shared.apply(usage_change(Err(FetchError::RequestFailed("offline".to_string()))));
    assert!(shared.get_last_error().is_some());

    let outcome = run_fetch(&mut w);
    assert_eq!(outcome, Ok(Usage { five_hour: Some(42.0) }));
    let notification = shared.apply(usage_change(outcome));

    assert_eq!(notification, Notification::UsageUpdated);
    assert_eq!(shared.get_usage(), &Some(Usage { five_hour: Some(42.0) }));
    assert_eq!(shared.get_last_error(), &None);
    let stored = w.store.clone().unwrap();
    let oauth = stored.oauth.unwrap();
    assert_eq!(oauth.access_token, "A2");
    assert_eq!(oauth.refresh_token, Some("R2".to_string()));
    assert_eq!(w.presented, vec!["A1".to_string(), "A2".to_string()]);
    assert_eq!(w.exchanged, vec!["R1".to_string()]);
    assert_eq!(w.writes, 1);
}

#[test]
fn refresh_writes_the_merged_token_and_keeps_other_fields() {
    let mut w = world(Some(token("A1", Some("R1"))));
    w.api = vec![Err(unauthorized()), Ok(Usage { five_hour: None })];
    w.token_endpoint = vec![Ok(grant("A2", "R2"))];
    assert_eq!(run_fetch(&mut w), Ok(Usage { five_hour: None }));
    assert_eq!(
        w.store,
        Ok(CredentialRecord {
            oauth: Some(OAuthToken {
                access_token: "A2".to_string(),
                refresh_token: Some("R2".to_string()),
                expires_at: Some(4_600_000),
                scopes: Some(vec!["user:inference".to_string()]),
                subscription_type: Some("pro".to_string()),
                rate_limit_tier: Some("default".to_string()),
            }),
            other: others(),
        })
    );
}

#[test]
fn first_success_needs_no_refresh() {
    let mut w = world(Some(token("A1", Some("R1"))));
    w.api = vec![Ok(Usage { five_hour: Some(1.5) })];
    assert_eq!(run_fetch(&mut w), Ok(Usage { five_hour: Some(1.5) }));
    assert_eq!(w.presented, vec!["A1".to_string()]);
    assert!(w.exchanged.is_empty());
    assert_eq!(w.writes, 0);
    assert_eq!(w.reads, 1);
}

#[test]
fn second_answer_is_final_even_where_it_fails() {
    for second in [unauthorized(), status(500, "500 Internal Server Error")] {
        let mut w = world(Some(token("A1", Some("R1"))));
        w.api = vec![Err(unauthorized()), Err(second.clone())];
        w.token_endpoint = vec![Ok(grant("A2", "R2"))];
        assert_eq!(run_fetch(&mut w), Err(second));
        assert_eq!(w.presented.len(), 2);
        assert_eq!(w.exchanged.len(), 1);
        assert!(w.api.is_empty());
    }
}

#[test]
fn other_failures_are_not_retried() {
    for error in [
        status(403, "403 Forbidden"),
        status(500, "500 Internal Server Error"),
        FetchError::RequestFailed("connection reset".to_string()),
    ] {
        let mut w = world(Some(token("A1", Some("R1"))));
        w.api = vec![Err(error.clone())];
        assert_eq!(run_fetch(&mut w), Err(error));
        assert_eq!(w.presented.len(), 1);
        assert!(w.exchanged.is_empty());
        assert_eq!(w.writes, 0);
    }
}

#[test]
fn without_refresh_token_the_401_is_returned() {
    let mut w = world(Some(token("A1", None)));
    w.api = vec![Err(unauthorized())];
    let before = w.store.clone();
    assert_eq!(run_fetch(&mut w), Err(unauthorized()));
    assert_eq!(w.presented, vec!["A1".to_string()]);
    assert!(w.exchanged.is_empty());
    assert_eq!(w.store, before);
}

#[test]
fn failed_refresh_does_not_mask_the_401() {
    let mut w = world(Some(token("A1", Some("R1"))));
    w.api = vec![Err(unauthorized())];
    w.token_endpoint = vec![Err(FetchError::RefreshError {
        status: 400,
        status_text: "400 Bad Request".to_string(),
        body: "invalid_grant".to_string(),
    })];
    let before = w.store.clone();
    assert_eq!(run_fetch(&mut w), Err(unauthorized()));
    assert_eq!(w.exchanged, vec!["R1".to_string()]);
    assert_eq!(w.presented.len(), 1);
    assert_eq!(w.writes, 0);
    assert_eq!(w.store, before);
}

#[test]
fn failed_write_does_not_mask_the_401() {
    let mut w = world(Some(token("A1", Some("R1"))));
    w.api = vec![Err(unauthorized())];
    w.token_endpoint = vec![Ok(grant("A2", "R2"))];
    w.write = Err(FetchError::StoreWriteFailure { ran: true, detail: "locked".to_string() });
    assert_eq!(run_fetch(&mut w), Err(unauthorized()));
    assert_eq!(w.presented.len(), 1);
    assert_eq!(w.writes, 1);
}

#[test]
fn missing_credentials_fail_fast() {
    let mut w = world(None);
    assert_eq!(run_fetch(&mut w), Err(FetchError::NoCredentials));
    assert!(w.presented.is_empty());

    let mut w = world(None);
    w.store = Err(FetchError::StoreAccessDenied("denied".to_string()));
    assert_eq!(run_fetch(&mut w), Err(FetchError::StoreAccessDenied("denied".to_string())));
    assert!(w.presented.is_empty());
}

#[test]
fn second_refresh_fails_with_its_own_error_and_writes_nothing() {
    let mut w = world(Some(token("A1", Some("R1"))));
    let failure = FetchError::RefreshUnreachable("connection refused".to_string());
    w.token_endpoint = vec![Ok(grant("A2", "R2")), Err(failure.clone())];

    let first = run_refresh(&mut w, "R1").unwrap();
    assert_eq!(first.access_token, "A2");
    let after_first = w.store.clone();
    assert_eq!(after_first.clone().unwrap().oauth, Some(first));

    assert_eq!(run_refresh(&mut w, "R2"), Err(failure));
    assert_eq!(w.store, after_first);
    assert_eq!(w.writes, 1);
    assert_eq!(w.exchanged, vec!["R1".to_string(), "R2".to_string()]);
}

#[test]
fn refresh_without_stored_oauth_section_still_succeeds() {
    let mut w = world(None);
    w.token_endpoint = vec![Ok(grant("A2", "R2"))];
    w.now_ms = None;
    let merged = run_refresh(&mut w, "R1").unwrap();
    assert_eq!(
        merged,
        OAuthToken {
            access_token: "A2".to_string(),
            refresh_token: Some("R2".to_string()),
            expires_at: None,
            scopes: None,
            subscription_type: None,
            rate_limit_tier: None,
        }
    );
    assert_eq!(w.store, Ok(CredentialRecord { oauth: Some(merged), other: others() }));
}

#[test]
fn refresh_fails_where_the_store_cannot_be_read_or_written() {
    let mut w = world(None);
    w.store = Err(FetchError::StoreUnavailable("gone".to_string()));
    w.token_endpoint = vec![Ok(grant("A2", "R2"))];
    assert_eq!(run_refresh(&mut w, "R1"), Err(FetchError::StoreUnavailable("gone".to_string())));
    assert_eq!(w.writes, 0);

    let mut w = world(Some(token("A1", Some("R1"))));
    w.token_endpoint = vec![Ok(grant("A2", "R2"))];
    let denied = FetchError::StoreWriteFailure { ran: false, detail: "no command".to_string() };
    w.write = Err(denied.clone());
    let before = w.store.clone();
    assert_eq!(run_refresh(&mut w, "R1"), Err(denied));
    assert_eq!(w.store, before);
}

#[test]
fn events_that_do_not_belong_are_ignored() {
    let (state, _) = fetch_start::<Usage>();
    let (state, action) = fetch_step(state, FetchEvent::Api(Ok(Usage { five_hour: None })));
    assert_eq!(state, FetchState::Loading);
    assert_eq!(action, FetchAction::Wait);
    let (state, action) =
        fetch_step(state, FetchEvent::<Usage>::Refresh(RefreshEvent::RecordWritten(Ok(()))));
    assert_eq!(state, FetchState::Loading);
    assert_eq!(action, FetchAction::Wait);

    let (state, action) = fetch_step(
        FetchState::Finished,
        FetchEvent::<Usage>::Credentials(Ok(CredentialRecord {
            oauth: Some(token("A1", Some("R1"))),
            other: Vec::new(),
        })),
    );
    assert_eq!(state, FetchState::Finished);
    assert_eq!(action, FetchAction::Wait);

    let refreshing = FetchState::Refreshing {
        first_error: unauthorized(),
        refresh: RefreshState::Requesting,
    };
    let (state, action) = fetch_step(
        refreshing.clone(),
        FetchEvent::<Usage>::Refresh(RefreshEvent::RecordWritten(Ok(()))),
    );
    assert_eq!(state, refreshing);
    assert_eq!(action, FetchAction::Wait);
    assert_eq!(state.pending_record(), None);

    let (state, action) =
        refresh_step(RefreshState::Requesting, RefreshEvent::RecordWritten(Ok(())));
    assert_eq!(state, RefreshState::Requesting);
    assert_eq!(action, RefreshAction::Wait);
    let (state, action) = refresh_step(
        RefreshState::Finished,
        RefreshEvent::TokenEndpointReplied(Ok(grant("A2", "R2"))),
    );
    assert_eq!(state, RefreshState::Finished);
    assert_eq!(action, RefreshAction::Wait);
}

#[test]
fn refresh_token_is_taken_from_the_record_as_stored_after_the_rejection() {
    let (state, action) = fetch_start::<Usage>();
    assert_eq!(action, FetchAction::ReadCredentials);
    let first = CredentialRecord { oauth: Some(token("A1", Some("R1"))), other: Vec::new() };
    let (state, action) = fetch_step(state, FetchEvent::<Usage>::Credentials(Ok(first)));
    assert_eq!(action, FetchAction::CallApi { token: "A1".to_string() });
    let (state, action) = fetch_step(state, FetchEvent::<Usage>::Api(Err(unauthorized())));
    assert_eq!(state, FetchState::Locating { first_error: unauthorized() });
    assert_eq!(action, FetchAction::ReadCredentials);
    let later = CredentialRecord { oauth: Some(token("A9", Some("R9"))), other: Vec::new() };
    let (state, action) = fetch_step(state, FetchEvent::<Usage>::Credentials(Ok(later)));
    assert_eq!(
        action,
        FetchAction::Refresh(RefreshAction::RequestToken { refresh_token: "R9".to_string() })
    );
    assert_eq!(
        state,
        FetchState::Refreshing { first_error: unauthorized(), refresh: RefreshState::Requesting }
    );
}
