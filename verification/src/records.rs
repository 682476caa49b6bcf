use vstd::prelude::*;

verus! {

/// What a caller asks for when creating a user. Without an `id` one is
/// generated; `metadata` is stored as JSON text.
#[derive(Debug)]
pub struct CreateUser {
    pub id: Option<String>,
    pub email: Option<String>,
    pub name: Option<String>,
    pub image: Option<String>,
    pub email_verified: Option<bool>,
    pub password: Option<String>,
    pub username: Option<String>,
    pub display_username: Option<String>,
    pub role: Option<String>,
    pub metadata: Option<serde_json::Value>,
}

/// Changes to a user: every field that is `Some` replaces the stored one.
/// `ban_expires` is in milliseconds since the Unix epoch.
#[derive(Debug, Default)]
pub struct UpdateUser {
    pub email: Option<String>,
    pub name: Option<String>,
    pub image: Option<String>,
    pub email_verified: Option<bool>,
    pub username: Option<String>,
    pub display_username: Option<String>,
    pub role: Option<String>,
    pub banned: Option<bool>,
    pub ban_reason: Option<String>,
    pub ban_expires: Option<i64>,
    pub two_factor_enabled: Option<bool>,
    pub metadata: Option<serde_json::Value>,
}

/// What a caller asks for when opening a session for a user.
#[derive(Clone, Debug)]
pub struct CreateSession {
    pub user_id: String,
    pub expires_at: i64,
    pub ip_address: Option<String>,
    pub user_agent: Option<String>,
    pub impersonated_by: Option<String>,
    pub active_organization_id: Option<String>,
}

/// What a caller asks for when linking a provider account to a user.
#[derive(Clone, Debug)]
pub struct CreateAccount {
    pub user_id: String,
    pub account_id: String,
    pub provider_id: String,
    pub access_token: Option<String>,
    pub refresh_token: Option<String>,
    pub id_token: Option<String>,
    pub access_token_expires_at: Option<i64>,
    pub refresh_token_expires_at: Option<i64>,
    pub scope: Option<String>,
    pub password: Option<String>,
}

/// Changes to an account (refreshed tokens and the like): every field that
/// is `Some` replaces the stored one.
#[derive(Clone, Debug, Default)]
pub struct UpdateAccount {
    pub access_token: Option<String>,
    pub refresh_token: Option<String>,
    pub id_token: Option<String>,
    pub access_token_expires_at: Option<i64>,
    pub refresh_token_expires_at: Option<i64>,
    pub scope: Option<String>,
    pub password: Option<String>,
}

/// What a caller asks for when issuing a verification token.
#[derive(Clone, Debug)]
pub struct CreateVerification {
    pub identifier: String,
    pub value: String,
    pub expires_at: i64,
}

/// A user as the auth framework sees it: timestamps are read back through
/// the clock's range, metadata is a parsed JSON value.
#[derive(Debug)]
pub struct UserRecord {
    pub id: String,
    pub name: Option<String>,
    pub email: Option<String>,
    pub email_verified: bool,
    pub image: Option<String>,
    pub created_at: i64,
    pub updated_at: i64,
    pub username: Option<String>,
    pub display_username: Option<String>,
    pub two_factor_enabled: bool,
    pub role: Option<String>,
    pub banned: bool,
    pub ban_reason: Option<String>,
    pub ban_expires: Option<i64>,
    pub metadata: serde_json::Value,
}

/// A session as the auth framework sees it.
#[derive(Clone, Debug, PartialEq, Eq)]
pub struct SessionRecord {
    pub id: String,
    pub expires_at: i64,
    pub token: String,
    pub created_at: i64,
    pub updated_at: i64,
    pub ip_address: Option<String>,
    pub user_agent: Option<String>,
    pub user_id: String,
    pub impersonated_by: Option<String>,
    pub active_organization_id: Option<String>,
    pub active: bool,
}

/// An account as the auth framework sees it.
#[derive(Clone, Debug, PartialEq, Eq)]
pub struct AccountRecord {
    pub id: String,
    pub user_id: String,
    pub account_id: String,
    pub provider_id: String,
    pub access_token: Option<String>,
    pub refresh_token: Option<String>,
    pub id_token: Option<String>,
    pub access_token_expires_at: Option<i64>,
    pub refresh_token_expires_at: Option<i64>,
    pub scope: Option<String>,
    pub password: Option<String>,
    pub created_at: i64,
    pub updated_at: i64,
}

/// A verification token as the auth framework sees it.
#[derive(Clone, Debug, PartialEq, Eq)]
pub struct VerificationRecord {
    pub id: String,
    pub identifier: String,
    pub value: String,
    pub expires_at: i64,
    pub created_at: i64,
    pub updated_at: i64,
}

} // verus!
