use vstd::prelude::*;

verus! {

/// A stored user. Timestamps are milliseconds since the Unix epoch and
/// `metadata` holds the user's metadata as JSON text.
#[derive(Clone, Debug, PartialEq, Eq)]
pub struct User {
    pub id: String,
    pub name: Option<String>,
    pub email: Option<String>,
    pub email_verified: bool,
    pub image: Option<String>,
    pub username: Option<String>,
    pub display_username: Option<String>,
    pub role: Option<String>,
    pub banned: bool,
    pub ban_reason: Option<String>,
    pub ban_expires: Option<i64>,
    pub two_factor_enabled: bool,
    pub metadata: Option<String>,
    pub created_at: i64,
    pub updated_at: i64,
}

/// A stored session, found again by its unique `token`.
#[derive(Clone, Debug, PartialEq, Eq)]
pub struct Session {
    pub id: String,
    pub user_id: String,
    pub token: String,
    pub expires_at: i64,
    pub ip_address: Option<String>,
    pub user_agent: Option<String>,
    pub impersonated_by: Option<String>,
    pub active_organization_id: Option<String>,
    pub active: bool,
    pub created_at: i64,
    pub updated_at: i64,
}

/// A stored link between a user and an identity provider account.
#[derive(Clone, Debug, PartialEq, Eq)]
pub struct Account {
    pub id: String,
    pub user_id: String,
    pub account_id: String,
    pub provider_id: String,
    pub access_token: Option<String>,
    pub refresh_token: Option<String>,
    pub access_token_expires_at: Option<i64>,
    pub refresh_token_expires_at: Option<i64>,
    pub scope: Option<String>,
    pub id_token: Option<String>,
    pub password: Option<String>,
    pub created_at: i64,
    pub updated_at: i64,
}

/// A stored verification token (`value`) issued for an `identifier`.
#[derive(Clone, Debug, PartialEq, Eq)]
pub struct Verification {
    pub id: String,
    pub identifier: String,
    pub value: String,
    pub expires_at: i64,
    pub created_at: i64,
    pub updated_at: i64,
}

} // verus!
