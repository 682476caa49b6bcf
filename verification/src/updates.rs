use vstd::prelude::*;

use crate::clock::now_millis;
use crate::json::{json_text, json_text_of};
use crate::models::{Account, Session, User};
use crate::records::{UpdateAccount, UpdateUser};

verus! {

/// A requested value when there is one, else the current one.
pub open spec fn replaced<A>(requested: Option<A>, current: A) -> A {
    match requested {
        Some(v) => v,
        None => current,
    }
}

/// A requested optional field: a given value replaces the stored one,
/// an absent one keeps it.
pub open spec fn replaced_opt<A>(requested: Option<A>, current: Option<A>) -> Option<A> {
    if requested is Some {
        requested
    } else {
        current
    }
}

// ---- users ----

/// A user after an update, given the JSON text of the new metadata (`Some`
/// when the update carries metadata) and the time of the update. Lifting a
/// ban (`banned` set to false) also drops the ban reason and expiry, unless
/// the same update gives new ones.
pub open spec fn updated_user(u: User, upd: UpdateUser, metadata: Option<Option<String>>, now: i64) -> User {
    let lifted = upd.banned == Some(false);
    User {
        email: replaced_opt(upd.email, u.email),
        name: replaced_opt(upd.name, u.name),
        image: replaced_opt(upd.image, u.image),
        email_verified: replaced(upd.email_verified, u.email_verified),
        username: replaced_opt(upd.username, u.username),
        display_username: replaced_opt(upd.display_username, u.display_username),
        role: replaced_opt(upd.role, u.role),
        banned: replaced(upd.banned, u.banned),
        ban_reason: if upd.ban_reason is Some {
            upd.ban_reason
        } else if lifted {
            None
        } else {
            u.ban_reason
        },
        ban_expires: if upd.ban_expires is Some {
            upd.ban_expires
        } else if lifted {
            None
        } else {
            u.ban_expires
        },
        two_factor_enabled: replaced(upd.two_factor_enabled, u.two_factor_enabled),
        metadata: replaced(metadata, u.metadata),
        updated_at: now,
        ..u
    }
}

fn take_if_given<A>(requested: Option<A>, current: Option<A>) -> (r: Option<A>)
    ensures
        r == replaced_opt(requested, current),
{
    match requested {
        Some(v) => Some(v),
        None => current,
    }
}

/// Merges an update into a stored user (see `updated_user`). The update's
/// own metadata value is not read: its JSON text comes in `metadata`.
pub fn merge_user_update(user: User, update: UpdateUser, metadata: Option<Option<String>>, now: i64) -> (r: User)
    ensures
        r == updated_user(user, update, metadata, now),
{
    let mut user = user;
    let UpdateUser {
        email,
        name,
        image,
        email_verified,
        username,
        display_username,
        role,
        banned,
        ban_reason,
        ban_expires,
        two_factor_enabled,
        metadata: _,
    } = update;
    user.email = take_if_given(email, user.email);
    user.name = take_if_given(name, user.name);
    user.image = take_if_given(image, user.image);
    if let Some(v) = email_verified {
        user.email_verified = v;
    }
    user.username = take_if_given(username, user.username);
    user.display_username = take_if_given(display_username, user.display_username);
    user.role = take_if_given(role, user.role);
    if let Some(b) = banned {
        user.banned = b;
        if !b {
            user.ban_reason = None;
            user.ban_expires = None;
        }
    }
    if let Some(reason) = ban_reason {
        user.ban_reason = Some(reason);
    }
    if let Some(expires) = ban_expires {
        user.ban_expires = Some(expires);
    }
    if let Some(v) = two_factor_enabled {
        user.two_factor_enabled = v;
    }
    if let Some(text) = metadata {
        user.metadata = text;
    }
    user.updated_at = now;
    user
}

/// Applies an update to a stored user at the current time, serializing new
/// metadata to JSON text. Whatever the clock and the serializer gave, the
/// result is the merge of the update at the result's own update time; the
/// metadata is only replaced when the update carries metadata.
pub fn apply_user_update(user: User, update: UpdateUser) -> (r: User)
    ensures
        r == updated_user(
            user,
            update,
            if update.metadata is Some { Some(r.metadata) } else { None },
            r.updated_at,
        ),
        update.metadata matches Some(v) ==> (r.metadata matches Some(t) && t@ == json_text_of(v)),
{
    let metadata = match &update.metadata {
        Some(v) => Some(json_text(v)),
        None => None,
    };
    let now = now_millis();
    merge_user_update(user, update, metadata, now)
}

/// Applying the same user update twice gives the same user as applying it
/// once.
pub proof fn lemma_user_update_idempotent(
    u: User,
    upd: UpdateUser,
    metadata: Option<Option<String>>,
    now: i64,
)
    ensures
        updated_user(updated_user(u, upd, metadata, now), upd, metadata, now) == updated_user(
            u,
            upd,
            metadata,
            now,
        ),
{
}

/// An update never changes who the user is or when it was created.
pub proof fn lemma_user_update_keeps_identity(
    u: User,
    upd: UpdateUser,
    metadata: Option<Option<String>>,
    now: i64,
)
    ensures
        updated_user(u, upd, metadata, now).id == u.id,
        updated_user(u, upd, metadata, now).created_at == u.created_at,
        updated_user(u, upd, metadata, now).updated_at == now,
{
}

/// An update that asks for nothing only moves the update time.
pub proof fn lemma_empty_user_update(u: User, upd: UpdateUser, now: i64)
    requires
        upd.email is None,
        upd.name is None,
        upd.image is None,
        upd.email_verified is None,
        upd.username is None,
        upd.display_username is None,
        upd.role is None,
        upd.banned is None,
        upd.ban_reason is None,
        upd.ban_expires is None,
        upd.two_factor_enabled is None,
        upd.metadata is None,
    ensures
        updated_user(u, upd, None, now) == (User { updated_at: now, ..u }),
{
}

/// Lifting a ban without naming a new reason or expiry leaves the user
/// unbanned with neither.
pub proof fn lemma_lifting_ban_clears_it(
    u: User,
    upd: UpdateUser,
    metadata: Option<Option<String>>,
    now: i64,
)
    requires
        upd.banned == Some(false),
        upd.ban_reason is None,
        upd.ban_expires is None,
    ensures
        !updated_user(u, upd, metadata, now).banned,
        updated_user(u, upd, metadata, now).ban_reason is None,
        updated_user(u, upd, metadata, now).ban_expires is None,
{
}

/// What a user update does to each field: a field the update gives takes
/// the given value, a field it leaves out keeps the stored value. The ban
/// reason and expiry are the exception: left out of an update that lifts
/// the ban, they are cleared. The metadata takes the new text exactly when
/// there is one; the id and creation time never change, and the update
/// time becomes the time of the update.
pub proof fn lemma_user_update_fields(
    u: User,
    upd: UpdateUser,
    metadata: Option<Option<String>>,
    now: i64,
)
    ensures
        ({
            let r = updated_user(u, upd, metadata, now);
            &&& (upd.email matches Some(v) ==> r.email == Some(v))
            &&& (upd.email is None ==> r.email == u.email)
            &&& (upd.name matches Some(v) ==> r.name == Some(v))
            &&& (upd.name is None ==> r.name == u.name)
            &&& (upd.image matches Some(v) ==> r.image == Some(v))
            &&& (upd.image is None ==> r.image == u.image)
            &&& (upd.username matches Some(v) ==> r.username == Some(v))
            &&& (upd.username is None ==> r.username == u.username)
            &&& (upd.display_username matches Some(v) ==> r.display_username == Some(v))
            &&& (upd.display_username is None ==> r.display_username == u.display_username)
            &&& (upd.role matches Some(v) ==> r.role == Some(v))
            &&& (upd.role is None ==> r.role == u.role)
            &&& (upd.email_verified matches Some(b) ==> r.email_verified == b)
            &&& (upd.email_verified is None ==> r.email_verified == u.email_verified)
            &&& (upd.banned matches Some(b) ==> r.banned == b)
            &&& (upd.banned is None ==> r.banned == u.banned)
            &&& (upd.two_factor_enabled matches Some(b) ==> r.two_factor_enabled == b)
            &&& (upd.two_factor_enabled is None ==> r.two_factor_enabled == u.two_factor_enabled)
            &&& (upd.ban_reason matches Some(v) ==> r.ban_reason == Some(v))
            &&& (upd.ban_reason is None && upd.banned == Some(false) ==> r.ban_reason is None)
            &&& (upd.ban_reason is None && upd.banned != Some(false) ==> r.ban_reason
                == u.ban_reason)
            &&& (upd.ban_expires matches Some(t) ==> r.ban_expires == Some(t))
            &&& (upd.ban_expires is None && upd.banned == Some(false) ==> r.ban_expires is None)
            &&& (upd.ban_expires is None && upd.banned != Some(false) ==> r.ban_expires
                == u.ban_expires)
            &&& (metadata matches Some(t) ==> r.metadata == t)
            &&& (metadata is None ==> r.metadata == u.metadata)
            &&& r.id == u.id
            &&& r.created_at == u.created_at
            &&& r.updated_at == now
        }),
{
}

// ---- accounts ----

/// An account after an update made at `now`.
pub open spec fn updated_account(a: Account, upd: UpdateAccount, now: i64) -> Account {
    Account {
        access_token: replaced_opt(upd.access_token, a.access_token),
        refresh_token: replaced_opt(upd.refresh_token, a.refresh_token),
        id_token: replaced_opt(upd.id_token, a.id_token),
        access_token_expires_at: replaced_opt(upd.access_token_expires_at, a.access_token_expires_at),
        refresh_token_expires_at: replaced_opt(
            upd.refresh_token_expires_at,
            a.refresh_token_expires_at,
        ),
        scope: replaced_opt(upd.scope, a.scope),
        password: replaced_opt(upd.password, a.password),
        updated_at: now,
        ..a
    }
}

/// Merges an update into a stored account (see `updated_account`).
pub fn merge_account_update(account: Account, update: UpdateAccount, now: i64) -> (r: Account)
    ensures
        r == updated_account(account, update, now),
{
    let mut account = account;
    account.access_token = take_if_given(update.access_token, account.access_token);
    account.refresh_token = take_if_given(update.refresh_token, account.refresh_token);
    account.id_token = take_if_given(update.id_token, account.id_token);
    account.access_token_expires_at = take_if_given(
        update.access_token_expires_at,
        account.access_token_expires_at,
    );
    account.refresh_token_expires_at = take_if_given(
        update.refresh_token_expires_at,
        account.refresh_token_expires_at,
    );
    account.scope = take_if_given(update.scope, account.scope);
    account.password = take_if_given(update.password, account.password);
    account.updated_at = now;
    account
}

/// Applies an update to a stored account at the current time.
pub fn apply_account_update(account: Account, update: UpdateAccount) -> (r: Account)
    ensures
        r == updated_account(account, update, r.updated_at),
{
    let now = now_millis();
    merge_account_update(account, update, now)
}

/// Applying the same account update twice gives the same account as
/// applying it once.
pub proof fn lemma_account_update_idempotent(a: Account, upd: UpdateAccount, now: i64)
    ensures
        updated_account(updated_account(a, upd, now), upd, now) == updated_account(a, upd, now),
{
}

/// An account update never changes the account's identity, its owner or
/// its provider.
pub proof fn lemma_account_update_keeps_identity(a: Account, upd: UpdateAccount, now: i64)
    ensures
        updated_account(a, upd, now).id == a.id,
        updated_account(a, upd, now).user_id == a.user_id,
        updated_account(a, upd, now).account_id == a.account_id,
        updated_account(a, upd, now).provider_id == a.provider_id,
        updated_account(a, upd, now).created_at == a.created_at,
{
}

/// What an account update does to each field: every token, expiry, scope
/// and password the update gives replaces the stored one, and every one it
/// leaves out keeps the stored value. The account's identity, owner,
/// provider and creation time never change; the update time becomes the
/// time of the update.
pub proof fn lemma_account_update_fields(a: Account, upd: UpdateAccount, now: i64)
    ensures
        ({
            let r = updated_account(a, upd, now);
            &&& (upd.access_token matches Some(v) ==> r.access_token == Some(v))
            &&& (upd.access_token is None ==> r.access_token == a.access_token)
            &&& (upd.refresh_token matches Some(v) ==> r.refresh_token == Some(v))
            &&& (upd.refresh_token is None ==> r.refresh_token == a.refresh_token)
            &&& (upd.id_token matches Some(v) ==> r.id_token == Some(v))
            &&& (upd.id_token is None ==> r.id_token == a.id_token)
            &&& (upd.access_token_expires_at matches Some(t) ==> r.access_token_expires_at
                == Some(t))
            &&& (upd.access_token_expires_at is None ==> r.access_token_expires_at
                == a.access_token_expires_at)
            &&& (upd.refresh_token_expires_at matches Some(t) ==> r.refresh_token_expires_at
                == Some(t))
            &&& (upd.refresh_token_expires_at is None ==> r.refresh_token_expires_at
                == a.refresh_token_expires_at)
            &&& (upd.scope matches Some(v) ==> r.scope == Some(v))
            &&& (upd.scope is None ==> r.scope == a.scope)
            &&& (upd.password matches Some(v) ==> r.password == Some(v))
            &&& (upd.password is None ==> r.password == a.password)
            &&& r.id == a.id
            &&& r.user_id == a.user_id
            &&& r.account_id == a.account_id
            &&& r.provider_id == a.provider_id
            &&& r.created_at == a.created_at
            &&& r.updated_at == now
        }),
{
}

// ---- sessions ----

/// A session whose expiry was moved at `now`.
pub open spec fn session_with_expiry(s: Session, expires_at: i64, now: i64) -> Session {
    Session { expires_at, updated_at: now, ..s }
}

/// Moves a session's expiry, stamping the current time.
pub fn renew_session(session: Session, expires_at: i64) -> (r: Session)
    ensures
        r == session_with_expiry(session, expires_at, r.updated_at),
{
    let now = now_millis();
    let mut session = session;
    session.expires_at = expires_at;
    session.updated_at = now;
    session
}

/// A session whose active organization was set (or cleared) at `now`.
pub open spec fn session_with_organization(s: Session, organization_id: Option<String>, now: i64) -> Session {
    Session { active_organization_id: organization_id, updated_at: now, ..s }
}

/// Sets or clears a session's active organization, stamping the current
/// time.
pub fn switch_session_organization(session: Session, organization_id: Option<&str>) -> (r: Session)
    ensures
        r.active_organization_id matches Some(o) ==> organization_id matches Some(given) && o@
            == given@,
        r.active_organization_id is None ==> organization_id is None,
        r == session_with_organization(session, r.active_organization_id, r.updated_at),
{
    let now = now_millis();
    let organization = match organization_id {
        Some(o) => Some(String::from_str(o)),
        None => None,
    };
    let mut session = session;
    session.active_organization_id = organization;
    session.updated_at = now;
    session
}

/// Moving a session's expiry changes only its expiry and update time;
/// switching its organization changes only the organization and update
/// time. Every other field of the session stays as stored.
pub proof fn lemma_session_changes_fields(
    s: Session,
    expires_at: i64,
    organization_id: Option<String>,
    now: i64,
)
    ensures
        ({
            let r = session_with_expiry(s, expires_at, now);
            &&& r.expires_at == expires_at
            &&& r.updated_at == now
            &&& r.id == s.id
            &&& r.user_id == s.user_id
            &&& r.token == s.token
            &&& r.ip_address == s.ip_address
            &&& r.user_agent == s.user_agent
            &&& r.impersonated_by == s.impersonated_by
            &&& r.active_organization_id == s.active_organization_id
            &&& r.active == s.active
            &&& r.created_at == s.created_at
        }),
        ({
            let r = session_with_organization(s, organization_id, now);
            &&& r.active_organization_id == organization_id
            &&& r.updated_at == now
            &&& r.id == s.id
            &&& r.user_id == s.user_id
            &&& r.token == s.token
            &&& r.expires_at == s.expires_at
            &&& r.ip_address == s.ip_address
            &&& r.user_agent == s.user_agent
            &&& r.impersonated_by == s.impersonated_by
            &&& r.active == s.active
            &&& r.created_at == s.created_at
        }),
{
}

} // verus!
