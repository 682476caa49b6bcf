use vstd::prelude::*;

use crate::clock::{chrono_millis_in_range, now_millis, optional_timestamp_or_epoch, readable_millis, timestamp_or_epoch};
use crate::ids::{is_uuid_v4_text, session_token_for, is_session_token, new_session_token, new_uuid_string};
use crate::json::{json_text, json_text_of, metadata_value, stored_metadata_value};
use crate::models::{Account, Session, User, Verification};
use crate::records::{
    AccountRecord, CreateAccount, CreateSession, CreateUser, CreateVerification, SessionRecord,
    UserRecord, VerificationRecord,
};

verus! {

/// `readable_millis` inside an optional timestamp.
pub open spec fn readable_opt_millis(millis: Option<i64>) -> Option<i64> {
    match millis {
        Some(m) => Some(readable_millis(m)),
        None => None,
    }
}

// ---- creation requests to rows ----

/// The row stored for a new user, given its id, its metadata text and the
/// creation time: email verification defaults to false, the user starts
/// unbanned and without two-factor authentication, and both timestamps are
/// the creation time. The password is not part of the user row.
pub open spec fn user_row_for(data: CreateUser, id: String, metadata: Option<String>, now: i64) -> User {
    User {
        id,
        name: data.name,
        email: data.email,
        email_verified: match data.email_verified {
            Some(v) => v,
            None => false,
        },
        image: data.image,
        username: data.username,
        display_username: data.display_username,
        role: data.role,
        banned: false,
        ban_reason: None,
        ban_expires: None,
        two_factor_enabled: false,
        metadata,
        created_at: now,
        updated_at: now,
    }
}

/// Builds the row of a new user from its parts.
pub fn build_user_row(data: &CreateUser, id: String, metadata: Option<String>, now: i64) -> (r: User)
    ensures
        r == user_row_for(*data, id, metadata, now),
{
    User {
        id,
        name: data.name.clone(),
        email: data.email.clone(),
        email_verified: match data.email_verified {
            Some(v) => v,
            None => false,
        },
        image: data.image.clone(),
        username: data.username.clone(),
        display_username: data.display_username.clone(),
        role: data.role.clone(),
        banned: false,
        ban_reason: None,
        ban_expires: None,
        two_factor_enabled: false,
        metadata,
        created_at: now,
        updated_at: now,
    }
}

/// The row to insert for a creation request: the requested id, or a fresh
/// random UUID when none is given; the metadata serialized as JSON text;
/// the current time as both timestamps.
pub fn create_user_to_model(data: &CreateUser) -> (r: User)
    ensures
        r == user_row_for(*data, r.id, r.metadata, r.created_at),
        0 <= r.created_at,
        chrono_millis_in_range(r.created_at),
        data.id matches Some(id) ==> r.id == id,
        data.id is None ==> is_uuid_v4_text(r.id@),
        data.metadata is None ==> r.metadata is None,
        data.metadata matches Some(v) ==> (r.metadata matches Some(t) && t@ == json_text_of(v)),
{
    let id = match &data.id {
        Some(id) => id.clone(),
        None => new_uuid_string(),
    };
    let now = now_millis();
    let metadata = match &data.metadata {
        Some(v) => json_text(v),
        None => None,
    };
    build_user_row(data, id, metadata, now)
}

/// The row stored for a new session: it starts active, with the creation
/// time as both timestamps.
pub open spec fn session_row_for(data: CreateSession, id: String, token: String, now: i64) -> Session {
    Session {
        id,
        user_id: data.user_id,
        token,
        expires_at: data.expires_at,
        ip_address: data.ip_address,
        user_agent: data.user_agent,
        impersonated_by: data.impersonated_by,
        active_organization_id: data.active_organization_id,
        active: true,
        created_at: now,
        updated_at: now,
    }
}

/// Builds the row of a new session from its parts.
pub fn build_session_row(data: &CreateSession, id: String, token: String, now: i64) -> (r: Session)
    ensures
        r == session_row_for(*data, id, token, now),
{
    Session {
        id,
        user_id: data.user_id.clone(),
        token,
        expires_at: data.expires_at,
        ip_address: data.ip_address.clone(),
        user_agent: data.user_agent.clone(),
        impersonated_by: data.impersonated_by.clone(),
        active_organization_id: data.active_organization_id.clone(),
        active: true,
        created_at: now,
        updated_at: now,
    }
}

/// The row to insert for a new session: a fresh session token, a fresh
/// random id and the current time.
pub fn create_session_to_model(data: &CreateSession) -> (r: Session)
    ensures
        r == session_row_for(*data, r.id, r.token, r.created_at),
        0 <= r.created_at,
        chrono_millis_in_range(r.created_at),
        exists|u: Seq<char>| is_uuid_v4_text(u) && r.token@ == session_token_for(u),
        is_session_token(r.token@),
        is_uuid_v4_text(r.id@),
{
    let now = now_millis();
    let token = new_session_token();
    let id = new_uuid_string();
    build_session_row(data, id, token, now)
}

/// The row stored for a new account, with the creation time as both
/// timestamps.
pub open spec fn account_row_for(data: CreateAccount, id: String, now: i64) -> Account {
    Account {
        id,
        user_id: data.user_id,
        account_id: data.account_id,
        provider_id: data.provider_id,
        access_token: data.access_token,
        refresh_token: data.refresh_token,
        access_token_expires_at: data.access_token_expires_at,
        refresh_token_expires_at: data.refresh_token_expires_at,
        scope: data.scope,
        id_token: data.id_token,
        password: data.password,
        created_at: now,
        updated_at: now,
    }
}

/// Builds the row of a new account from its parts.
pub fn build_account_row(data: &CreateAccount, id: String, now: i64) -> (r: Account)
    ensures
        r == account_row_for(*data, id, now),
{
    Account {
        id,
        user_id: data.user_id.clone(),
        account_id: data.account_id.clone(),
        provider_id: data.provider_id.clone(),
        access_token: data.access_token.clone(),
        refresh_token: data.refresh_token.clone(),
        access_token_expires_at: data.access_token_expires_at,
        refresh_token_expires_at: data.refresh_token_expires_at,
        scope: data.scope.clone(),
        id_token: data.id_token.clone(),
        password: data.password.clone(),
        created_at: now,
        updated_at: now,
    }
}

/// The row to insert for a new account: a fresh random id and the current
/// time.
pub fn create_account_to_model(data: &CreateAccount) -> (r: Account)
    ensures
        r == account_row_for(*data, r.id, r.created_at),
        0 <= r.created_at,
        chrono_millis_in_range(r.created_at),
        is_uuid_v4_text(r.id@),
{
    let now = now_millis();
    let id = new_uuid_string();
    build_account_row(data, id, now)
}

/// The row stored for a new verification token, with the creation time as
/// both timestamps.
pub open spec fn verification_row_for(data: CreateVerification, id: String, now: i64) -> Verification {
    Verification {
        id,
        identifier: data.identifier,
        value: data.value,
        expires_at: data.expires_at,
        created_at: now,
        updated_at: now,
    }
}

/// Builds the row of a new verification token from its parts.
pub fn build_verification_row(data: &CreateVerification, id: String, now: i64) -> (r: Verification)
    ensures
        r == verification_row_for(*data, id, now),
{
    Verification {
        id,
        identifier: data.identifier.clone(),
        value: data.value.clone(),
        expires_at: data.expires_at,
        created_at: now,
        updated_at: now,
    }
}

/// The row to insert for a new verification token: a fresh random id and
/// the current time.
pub fn create_verification_to_model(data: &CreateVerification) -> (r: Verification)
    ensures
        r == verification_row_for(*data, r.id, r.created_at),
        0 <= r.created_at,
        chrono_millis_in_range(r.created_at),
        is_uuid_v4_text(r.id@),
{
    let now = now_millis();
    let id = new_uuid_string();
    build_verification_row(data, id, now)
}


// ---- rows read back as records ----

/// The record a stored user reads as, given its metadata value: timestamps
/// pass through `readable_millis`, every other field is copied.
pub open spec fn user_record_of(row: User, metadata: serde_json::Value) -> UserRecord {
    UserRecord {
        id: row.id,
        name: row.name,
        email: row.email,
        email_verified: row.email_verified,
        image: row.image,
        created_at: readable_millis(row.created_at),
        updated_at: readable_millis(row.updated_at),
        username: row.username,
        display_username: row.display_username,
        two_factor_enabled: row.two_factor_enabled,
        role: row.role,
        banned: row.banned,
        ban_reason: row.ban_reason,
        ban_expires: readable_opt_millis(row.ban_expires),
        metadata,
    }
}

/// Reads a stored user back. Its metadata is the stored JSON text when that
/// parses, else an empty JSON object.
pub fn user_from_row(row: User) -> (r: UserRecord)
    ensures
        r == user_record_of(row, stored_metadata_value(row.metadata)),
{
    let metadata = metadata_value(&row.metadata);
    UserRecord {
        id: row.id,
        name: row.name,
        email: row.email,
        email_verified: row.email_verified,
        image: row.image,
        created_at: timestamp_or_epoch(row.created_at),
        updated_at: timestamp_or_epoch(row.updated_at),
        username: row.username,
        display_username: row.display_username,
        two_factor_enabled: row.two_factor_enabled,
        role: row.role,
        banned: row.banned,
        ban_reason: row.ban_reason,
        ban_expires: optional_timestamp_or_epoch(row.ban_expires),
        metadata,
    }
}

/// The record a stored session reads as.
pub open spec fn session_record_of(row: Session) -> SessionRecord {
    SessionRecord {
        id: row.id,
        expires_at: readable_millis(row.expires_at),
        token: row.token,
        created_at: readable_millis(row.created_at),
        updated_at: readable_millis(row.updated_at),
        ip_address: row.ip_address,
        user_agent: row.user_agent,
        user_id: row.user_id,
        impersonated_by: row.impersonated_by,
        active_organization_id: row.active_organization_id,
        active: row.active,
    }
}

/// Reads a stored session back.
pub fn session_from_row(row: Session) -> (r: SessionRecord)
    ensures
        r == session_record_of(row),
{
    SessionRecord {
        id: row.id,
        expires_at: timestamp_or_epoch(row.expires_at),
        token: row.token,
        created_at: timestamp_or_epoch(row.created_at),
        updated_at: timestamp_or_epoch(row.updated_at),
        ip_address: row.ip_address,
        user_agent: row.user_agent,
        user_id: row.user_id,
        impersonated_by: row.impersonated_by,
        active_organization_id: row.active_organization_id,
        active: row.active,
    }
}

/// The record a stored account reads as.
pub open spec fn account_record_of(row: Account) -> AccountRecord {
    AccountRecord {
        id: row.id,
        user_id: row.user_id,
        account_id: row.account_id,
        provider_id: row.provider_id,
        access_token: row.access_token,
        refresh_token: row.refresh_token,
        id_token: row.id_token,
        access_token_expires_at: readable_opt_millis(row.access_token_expires_at),
        refresh_token_expires_at: readable_opt_millis(row.refresh_token_expires_at),
        scope: row.scope,
        password: row.password,
        created_at: readable_millis(row.created_at),
        updated_at: readable_millis(row.updated_at),
    }
}

/// Reads a stored account back.
pub fn account_from_row(row: Account) -> (r: AccountRecord)
    ensures
        r == account_record_of(row),
{
    AccountRecord {
        id: row.id,
        user_id: row.user_id,
        account_id: row.account_id,
        provider_id: row.provider_id,
        access_token: row.access_token,
        refresh_token: row.refresh_token,
        id_token: row.id_token,
        access_token_expires_at: optional_timestamp_or_epoch(row.access_token_expires_at),
        refresh_token_expires_at: optional_timestamp_or_epoch(row.refresh_token_expires_at),
        scope: row.scope,
        password: row.password,
        created_at: timestamp_or_epoch(row.created_at),
        updated_at: timestamp_or_epoch(row.updated_at),
    }
}

/// The record a stored verification token reads as.
pub open spec fn verification_record_of(row: Verification) -> VerificationRecord {
    VerificationRecord {
        id: row.id,
        identifier: row.identifier,
        value: row.value,
        expires_at: readable_millis(row.expires_at),
        created_at: readable_millis(row.created_at),
        updated_at: readable_millis(row.updated_at),
    }
}

/// Reads a stored verification token back.
pub fn verification_from_row(row: Verification) -> (r: VerificationRecord)
    ensures
        r == verification_record_of(row),
{
    VerificationRecord {
        id: row.id,
        identifier: row.identifier,
        value: row.value,
        expires_at: timestamp_or_epoch(row.expires_at),
        created_at: timestamp_or_epoch(row.created_at),
        updated_at: timestamp_or_epoch(row.updated_at),
    }
}

// ---- laws: what creation stores and what reading gives back ----

/// A new user row carries the requested name, email, image, username,
/// display name and role; its email is verified exactly when the request
/// says so; it starts unbanned, without ban reason or expiry and without
/// two-factor authentication; it keeps the id and metadata text it was
/// given; both timestamps are the creation time.
pub proof fn lemma_created_user_row(data: CreateUser, id: String, metadata: Option<String>, now: i64)
    ensures
        ({
            let r = user_row_for(data, id, metadata, now);
            &&& r.id == id
            &&& r.name == data.name
            &&& r.email == data.email
            &&& r.image == data.image
            &&& r.username == data.username
            &&& r.display_username == data.display_username
            &&& r.role == data.role
            &&& r.email_verified == (data.email_verified == Some(true))
            &&& !r.banned
            &&& r.ban_reason is None
            &&& r.ban_expires is None
            &&& !r.two_factor_enabled
            &&& r.metadata == metadata
            &&& r.created_at == now
            &&& r.updated_at == now
        }),
{
}

/// A new session row carries every field of the request: the user, the
/// expiry, the client address and agent, the impersonating admin and the
/// active organization; it is active, keeps the id and token it was given,
/// and both timestamps are the creation time.
pub proof fn lemma_created_session_row(data: CreateSession, id: String, token: String, now: i64)
    ensures
        ({
            let r = session_row_for(data, id, token, now);
            &&& r.id == id
            &&& r.token == token
            &&& r.user_id == data.user_id
            &&& r.expires_at == data.expires_at
            &&& r.ip_address == data.ip_address
            &&& r.user_agent == data.user_agent
            &&& r.impersonated_by == data.impersonated_by
            &&& r.active_organization_id == data.active_organization_id
            &&& r.active
            &&& r.created_at == now
            &&& r.updated_at == now
        }),
{
}

/// A new account row carries every field of the request: owner, provider
/// and provider account, every token and token expiry, the scope and the
/// password; it keeps the id it was given, and both timestamps are the
/// creation time.
pub proof fn lemma_created_account_row(data: CreateAccount, id: String, now: i64)
    ensures
        ({
            let r = account_row_for(data, id, now);
            &&& r.id == id
            &&& r.user_id == data.user_id
            &&& r.account_id == data.account_id
            &&& r.provider_id == data.provider_id
            &&& r.access_token == data.access_token
            &&& r.refresh_token == data.refresh_token
            &&& r.id_token == data.id_token
            &&& r.access_token_expires_at == data.access_token_expires_at
            &&& r.refresh_token_expires_at == data.refresh_token_expires_at
            &&& r.scope == data.scope
            &&& r.password == data.password
            &&& r.created_at == now
            &&& r.updated_at == now
        }),
{
}

/// A new verification row carries the requested identifier, value and
/// expiry; it keeps the id it was given, and both timestamps are the
/// creation time.
pub proof fn lemma_created_verification_row(data: CreateVerification, id: String, now: i64)
    ensures
        ({
            let r = verification_row_for(data, id, now);
            &&& r.id == id
            &&& r.identifier == data.identifier
            &&& r.value == data.value
            &&& r.expires_at == data.expires_at
            &&& r.created_at == now
            &&& r.updated_at == now
        }),
{
}

/// An instant chrono can represent reads back as itself, and an optional
/// one as itself too.
pub proof fn lemma_representable_millis_read_back(m: i64)
    requires
        chrono_millis_in_range(m),
    ensures
        readable_millis(m) == m,
        readable_opt_millis(Some(m)) == Some(m),
        readable_opt_millis(None) == None::<i64>,
{
}

/// A stored user reads back with every field it holds: the same id, name,
/// email, image, username, display name, role, email verification, ban,
/// ban reason and two-factor setting; its timestamps read as themselves
/// when chrono can represent them.
pub proof fn lemma_user_reads_back(row: User, metadata: serde_json::Value)
    ensures
        ({
            let r = user_record_of(row, metadata);
            &&& r.id == row.id
            &&& r.name == row.name
            &&& r.email == row.email
            &&& r.image == row.image
            &&& r.username == row.username
            &&& r.display_username == row.display_username
            &&& r.role == row.role
            &&& r.email_verified == row.email_verified
            &&& r.banned == row.banned
            &&& r.ban_reason == row.ban_reason
            &&& r.two_factor_enabled == row.two_factor_enabled
            &&& r.metadata == metadata
            &&& (chrono_millis_in_range(row.created_at) ==> r.created_at == row.created_at)
            &&& (chrono_millis_in_range(row.updated_at) ==> r.updated_at == row.updated_at)
            &&& (row.ban_expires is None ==> r.ban_expires is None)
            &&& (row.ban_expires matches Some(t) ==> (chrono_millis_in_range(t)
                ==> r.ban_expires == Some(t)))
        }),
{
}

/// A stored session reads back with every field it holds: id, token,
/// owner, client address and agent, impersonating admin, active
/// organization and activity; its timestamps read as themselves when chrono
/// can represent them.
pub proof fn lemma_session_reads_back(row: Session)
    ensures
        ({
            let r = session_record_of(row);
            &&& r.id == row.id
            &&& r.token == row.token
            &&& r.user_id == row.user_id
            &&& r.ip_address == row.ip_address
            &&& r.user_agent == row.user_agent
            &&& r.impersonated_by == row.impersonated_by
            &&& r.active_organization_id == row.active_organization_id
            &&& r.active == row.active
            &&& (chrono_millis_in_range(row.expires_at) ==> r.expires_at == row.expires_at)
            &&& (chrono_millis_in_range(row.created_at) ==> r.created_at == row.created_at)
            &&& (chrono_millis_in_range(row.updated_at) ==> r.updated_at == row.updated_at)
        }),
{
}

/// A stored account reads back with every field it holds: id, owner,
/// provider and provider account, every token, the scope and the password;
/// its timestamps and token expiries read as themselves when chrono can
/// represent them.
pub proof fn lemma_account_reads_back(row: Account)
    ensures
        ({
            let r = account_record_of(row);
            &&& r.id == row.id
            &&& r.user_id == row.user_id
            &&& r.account_id == row.account_id
            &&& r.provider_id == row.provider_id
            &&& r.access_token == row.access_token
            &&& r.refresh_token == row.refresh_token
            &&& r.id_token == row.id_token
            &&& r.scope == row.scope
            &&& r.password == row.password
            &&& (row.access_token_expires_at is None ==> r.access_token_expires_at is None)
            &&& (row.access_token_expires_at matches Some(t) ==> (chrono_millis_in_range(t)
                ==> r.access_token_expires_at == Some(t)))
            &&& (row.refresh_token_expires_at is None ==> r.refresh_token_expires_at is None)
            &&& (row.refresh_token_expires_at matches Some(t) ==> (chrono_millis_in_range(t)
                ==> r.refresh_token_expires_at == Some(t)))
            &&& (chrono_millis_in_range(row.created_at) ==> r.created_at == row.created_at)
            &&& (chrono_millis_in_range(row.updated_at) ==> r.updated_at == row.updated_at)
        }),
{
}

/// A stored verification token reads back with its id, identifier and
/// value; its timestamps read as themselves when chrono can represent them.
pub proof fn lemma_verification_reads_back(row: Verification)
    ensures
        ({
            let r = verification_record_of(row);
            &&& r.id == row.id
            &&& r.identifier == row.identifier
            &&& r.value == row.value
            &&& (chrono_millis_in_range(row.expires_at) ==> r.expires_at == row.expires_at)
            &&& (chrono_millis_in_range(row.created_at) ==> r.created_at == row.created_at)
            &&& (chrono_millis_in_range(row.updated_at) ==> r.updated_at == row.updated_at)
        }),
{
}

} // verus!
