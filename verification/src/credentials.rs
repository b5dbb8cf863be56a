//! The credential record kept in the secret store, and what is read from and
//! merged into it.

use vstd::prelude::*;
use crate::error::FetchError;
use crate::subscription::{format_subscription, subscription_label};

verus! {

/// An access token with the refresh token and the labels issued beside it.
#[derive(Debug, Clone, PartialEq, Eq)]
pub struct OAuthToken {
    pub access_token: String,
    /// Without a refresh token the access token cannot be renewed.
    pub refresh_token: Option<String>,
    /// When the access token expires, in milliseconds since the epoch.
    pub expires_at: Option<i64>,
    pub scopes: Option<Vec<String>>,
    pub subscription_type: Option<String>,
    pub rate_limit_tier: Option<String>,
}

/// A field of the credential record that this library does not interpret:
/// its name and its value as encoded in the store.
#[derive(Debug, Clone, PartialEq, Eq)]
pub struct Field {
    pub name: String,
    pub value: String,
}

/// The whole payload of the secret store: the OAuth section and, in their
/// stored order, the fields beside it.
#[derive(Debug, Clone, PartialEq, Eq)]
pub struct CredentialRecord {
    pub oauth: Option<OAuthToken>,
    pub other: Vec<Field>,
}

/// What a fetch needs of the stored credential.
#[derive(Debug, Clone, PartialEq, Eq)]
pub struct CredentialsInfo {
    pub access_token: String,
    pub refresh_token: Option<String>,
    pub subscription: Option<String>,
}

/// The token endpoint's answer to a refresh.
#[derive(Debug, Clone, PartialEq, Eq)]
pub struct TokenRefreshResponse {
    pub access_token: String,
    pub refresh_token: String,
    /// The lifetime of the new access token, in seconds.
    pub expires_in: i64,
}

/// The characters of an optional text.
pub open spec fn text_of(text: Option<String>) -> Option<Seq<char>> {
    match text {
        Some(t) => Some(t@),
        None => None,
    }
}

/// The instant at which a token obtained at `now_ms` and valid for
/// `expires_in` seconds expires, in milliseconds since the epoch; none where
/// the time is unknown or the instant does not fit the field.
pub open spec fn expiry(now_ms: Option<i64>, expires_in: i64) -> Option<i64> {
    match now_ms {
        Some(now) => if i64::MIN <= now + expires_in * 1000 <= i64::MAX {
            Some((now + expires_in * 1000) as i64)
        } else {
            None
        },
        None => None,
    }
}

/// The token that a refresh yields: both tokens and the expiry come from the
/// token endpoint, the scopes and the two tier labels from the token that was
/// stored before. Where none was stored there is nothing to carry forward.
pub open spec fn merged_token(
    grant: TokenRefreshResponse,
    current: Option<OAuthToken>,
    now_ms: Option<i64>,
) -> OAuthToken {
    OAuthToken {
        access_token: grant.access_token,
        refresh_token: Some(grant.refresh_token),
        expires_at: expiry(now_ms, grant.expires_in),
        scopes: match current {
            Some(token) => token.scopes,
            None => None,
        },
        subscription_type: match current {
            Some(token) => token.subscription_type,
            None => None,
        },
        rate_limit_tier: match current {
            Some(token) => token.rate_limit_tier,
            None => None,
        },
    }
}

/// The label of the subscription that a token carries.
pub open spec fn token_label(token: OAuthToken) -> Seq<char> {
    subscription_label(text_of(token.subscription_type), text_of(token.rate_limit_tier))
}

/// Computes the expiry instant of a token obtained at `now_ms`.
pub fn expires_at(now_ms: Option<i64>, expires_in: i64) -> (instant: Option<i64>)
    ensures
        instant == expiry(now_ms, expires_in),
{
    match now_ms {
        Some(now) => {
            let total: i128 = now as i128 + expires_in as i128 * 1000;
            if total < i64::MIN as i128 || total > i64::MAX as i128 {
                None
            } else {
                Some(total as i64)
            }
        },
        None => None,
    }
}

/// Merges the token endpoint's answer into the token stored before.
pub fn refreshed_token(
    grant: TokenRefreshResponse,
    current: Option<OAuthToken>,
    now_ms: Option<i64>,
) -> (token: OAuthToken)
    ensures
        token == merged_token(grant, current, now_ms),
{
    let expires_at = expires_at(now_ms, grant.expires_in);
    match current {
        Some(carried) => OAuthToken {
            access_token: grant.access_token,
            refresh_token: Some(grant.refresh_token),
            expires_at,
            scopes: carried.scopes,
            subscription_type: carried.subscription_type,
            rate_limit_tier: carried.rate_limit_tier,
        },
        None => OAuthToken {
            access_token: grant.access_token,
            refresh_token: Some(grant.refresh_token),
            expires_at,
            scopes: None,
            subscription_type: None,
            rate_limit_tier: None,
        },
    }
}

/// Copies an optional text.
pub fn copy_text(text: &Option<String>) -> (copy: Option<String>)
    ensures
        copy == *text,
{
    match text {
        Some(t) => Some(t.clone()),
        None => None,
    }
}

/// Reads from a credential record what a fetch needs: both tokens and the
/// subscription label. Fails exactly when the record has no OAuth section.
pub fn get_claude_credentials(record: &CredentialRecord) -> (info: Result<
    CredentialsInfo,
    FetchError,
>)
    ensures
        record.oauth is None ==> info == Err::<CredentialsInfo, FetchError>(
            FetchError::NoCredentials,
        ),
        record.oauth is Some ==> info is Ok && info.unwrap().access_token
            == record.oauth.unwrap().access_token && info.unwrap().refresh_token
            == record.oauth.unwrap().refresh_token && text_of(info.unwrap().subscription) == Some(
            token_label(record.oauth.unwrap()),
        ),
{
    match &record.oauth {
        None => Err(FetchError::NoCredentials),
        Some(oauth) => {
            let kind = match &oauth.subscription_type {
                Some(k) => Some(k.as_str()),
                None => None,
            };
            let tier = match &oauth.rate_limit_tier {
                Some(t) => Some(t.as_str()),
                None => None,
            };
            Ok(
                CredentialsInfo {
                    access_token: oauth.access_token.clone(),
                    refresh_token: copy_text(&oauth.refresh_token),
                    subscription: format_subscription(kind, tier),
                },
            )
        },
    }
}

/// The access token that a fetch presents, or `NoCredentials`.
pub open spec fn stored_access_token(record: CredentialRecord) -> Result<String, FetchError> {
    match record.oauth {
        Some(token) => Ok(token.access_token),
        None => Err(FetchError::NoCredentials),
    }
}

/// The refresh token of the record: `NoCredentials` without an OAuth section,
/// `NoRefreshToken` where the section holds none.
pub open spec fn stored_refresh_token(record: CredentialRecord) -> Result<String, FetchError> {
    match record.oauth {
        Some(token) => match token.refresh_token {
            Some(refresh) => Ok(refresh),
            None => Err(FetchError::NoRefreshToken),
        },
        None => Err(FetchError::NoCredentials),
    }
}

/// Reads the access token from a credential record.
pub fn get_claude_token(record: &CredentialRecord) -> (token: Result<String, FetchError>)
    ensures
        token == stored_access_token(*record),
{
    match &record.oauth {
        Some(oauth) => Ok(oauth.access_token.clone()),
        None => Err(FetchError::NoCredentials),
    }
}

/// Reads the refresh token from a credential record.
pub fn get_refresh_token(record: &CredentialRecord) -> (token: Result<String, FetchError>)
    ensures
        token == stored_refresh_token(*record),
{
    match &record.oauth {
        Some(oauth) => match &oauth.refresh_token {
            Some(refresh) => Ok(refresh.clone()),
            None => Err(FetchError::NoRefreshToken),
        },
        None => Err(FetchError::NoCredentials),
    }
}

} // verus!
