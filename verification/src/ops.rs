use vstd::prelude::*;

use crate::clock::{chrono_millis_in_range, readable_millis};
use crate::conversions::{
    account_from_row, account_record_of, session_from_row, session_record_of, session_row_for,
    user_from_row, user_record_of, user_row_for, verification_from_row, verification_record_of,
};
use crate::error::AuthError;
use crate::json::{empty_json_object_value, json_text_of, stored_metadata_value};
use crate::models::{Account, Session, User, Verification};
use crate::records::{
    AccountRecord, CreateSession, CreateUser, SessionRecord, UpdateAccount, UpdateUser, UserRecord,
    VerificationRecord,
};
use crate::updates::{
    apply_account_update, apply_user_update, renew_session, session_with_expiry,
    session_with_organization, switch_session_organization, updated_account, updated_user,
};

verus! {

// The adapter talks to the database in turns: it asks for rows, decides,
// writes, and reads back. The functions here are those decisions; each
// takes what the database answered (its error as the message text) and
// says what comes next.

/// The outcome of a database call: a refused call becomes a database
/// error carrying the database's message.
pub fn db_outcome<T>(answered: Result<T, String>) -> (r: Result<T, AuthError>)
    ensures
        answered matches Ok(v) ==> r == Ok::<T, AuthError>(v),
        answered matches Err(e) ==> r == Err::<T, AuthError>(AuthError::Database(e)),
{
    match answered {
        Ok(v) => Ok(v),
        Err(e) => Err(AuthError::Database(e)),
    }
}

// ---- reading back what was written ----

/// A user read back after a write, as the framework sees it.
pub fn fetched_user(found: Result<User, String>) -> (r: Result<UserRecord, AuthError>)
    ensures
        found matches Ok(row) ==> r == Ok::<UserRecord, AuthError>(
            user_record_of(row, stored_metadata_value(row.metadata)),
        ),
        found matches Err(e) ==> r == Err::<UserRecord, AuthError>(AuthError::Database(e)),
{
    match found {
        Ok(row) => Ok(user_from_row(row)),
        Err(e) => Err(AuthError::Database(e)),
    }
}

/// A session read back after a write.
pub fn fetched_session(found: Result<Session, String>) -> (r: Result<SessionRecord, AuthError>)
    ensures
        found matches Ok(row) ==> r == Ok::<SessionRecord, AuthError>(session_record_of(row)),
        found matches Err(e) ==> r == Err::<SessionRecord, AuthError>(AuthError::Database(e)),
{
    match found {
        Ok(row) => Ok(session_from_row(row)),
        Err(e) => Err(AuthError::Database(e)),
    }
}

/// An account read back after a write.
pub fn fetched_account(found: Result<Account, String>) -> (r: Result<AccountRecord, AuthError>)
    ensures
        found matches Ok(row) ==> r == Ok::<AccountRecord, AuthError>(account_record_of(row)),
        found matches Err(e) ==> r == Err::<AccountRecord, AuthError>(AuthError::Database(e)),
{
    match found {
        Ok(row) => Ok(account_from_row(row)),
        Err(e) => Err(AuthError::Database(e)),
    }
}

/// A verification token read back after a write.
pub fn fetched_verification(found: Result<Verification, String>) -> (r: Result<
    VerificationRecord,
    AuthError,
>)
    ensures
        found matches Ok(row) ==> r == Ok::<VerificationRecord, AuthError>(
            verification_record_of(row),
        ),
        found matches Err(e) ==> r == Err::<VerificationRecord, AuthError>(AuthError::Database(e)),
{
    match found {
        Ok(row) => Ok(verification_from_row(row)),
        Err(e) => Err(AuthError::Database(e)),
    }
}

// ---- lookups ----

/// A user looked up by id or email. A failed lookup, whatever the reason,
/// means there is no such user.
pub fn user_or_none(found: Result<User, String>) -> (r: Option<UserRecord>)
    ensures
        found matches Ok(row) ==> r == Some(user_record_of(row, stored_metadata_value(row.metadata))),
        found is Err ==> r is None,
{
    match found {
        Ok(row) => Some(user_from_row(row)),
        Err(_) => None,
    }
}

/// The session a lookup found, if any.
pub fn session_lookup(found: Result<Option<Session>, String>) -> (r: Result<
    Option<SessionRecord>,
    AuthError,
>)
    ensures
        found matches Ok(Some(row)) ==> r == Ok::<Option<SessionRecord>, AuthError>(
            Some(session_record_of(row)),
        ),
        found matches Ok(None) ==> r == Ok::<Option<SessionRecord>, AuthError>(None),
        found matches Err(e) ==> r == Err::<Option<SessionRecord>, AuthError>(
            AuthError::Database(e),
        ),
{
    match found {
        Ok(Some(row)) => Ok(Some(session_from_row(row))),
        Ok(None) => Ok(None),
        Err(e) => Err(AuthError::Database(e)),
    }
}

/// The account a lookup found, if any.
pub fn account_lookup(found: Result<Option<Account>, String>) -> (r: Result<
    Option<AccountRecord>,
    AuthError,
>)
    ensures
        found matches Ok(Some(row)) ==> r == Ok::<Option<AccountRecord>, AuthError>(
            Some(account_record_of(row)),
        ),
        found matches Ok(None) ==> r == Ok::<Option<AccountRecord>, AuthError>(None),
        found matches Err(e) ==> r == Err::<Option<AccountRecord>, AuthError>(
            AuthError::Database(e),
        ),
{
    match found {
        Ok(Some(row)) => Ok(Some(account_from_row(row))),
        Ok(None) => Ok(None),
        Err(e) => Err(AuthError::Database(e)),
    }
}

/// The verification token a lookup found, if any.
pub fn verification_lookup(found: Result<Option<Verification>, String>) -> (r: Result<
    Option<VerificationRecord>,
    AuthError,
>)
    ensures
        found matches Ok(Some(row)) ==> r == Ok::<Option<VerificationRecord>, AuthError>(
            Some(verification_record_of(row)),
        ),
        found matches Ok(None) ==> r == Ok::<Option<VerificationRecord>, AuthError>(None),
        found matches Err(e) ==> r == Err::<Option<VerificationRecord>, AuthError>(
            AuthError::Database(e),
        ),
{
    match found {
        Ok(Some(row)) => Ok(Some(verification_from_row(row))),
        Ok(None) => Ok(None),
        Err(e) => Err(AuthError::Database(e)),
    }
}

/// The sessions a listing found, read back in the order they came.
pub fn session_list(found: Result<Vec<Session>, String>) -> (r: Result<
    Vec<SessionRecord>,
    AuthError,
>)
    ensures
        found matches Ok(rows) ==> r matches Ok(recs) && recs@ == rows@.map_values(
            |row: Session| session_record_of(row),
        ),
        found matches Err(e) ==> r == Err::<Vec<SessionRecord>, AuthError>(AuthError::Database(e)),
{
    match found {
        Ok(rows) => {
            let ghost all = rows@;
            let mut rows = rows;
            let mut recs: Vec<SessionRecord> = Vec::new();
            while rows.len() > 0
                invariant
                    recs.len() + rows.len() == all.len(),
                    recs@ == all.subrange(0, recs.len() as int).map_values(
                        |row: Session| session_record_of(row),
                    ),
                    rows@ == all.subrange(recs.len() as int, all.len() as int),
                decreases rows.len(),
            {
                let row = rows.remove(0);
                proof {
                    assert(row == all[recs.len() as int]);
                }
                recs.push(session_from_row(row));
                assert(recs@ =~= all.subrange(0, recs.len() as int).map_values(
                    |row: Session| session_record_of(row),
                ));
            }
            assert(all.subrange(0, all.len() as int) =~= all);
            Ok(recs)
        },
        Err(e) => Err(AuthError::Database(e)),
    }
}

/// The accounts a listing found, read back in the order they came.
pub fn account_list(found: Result<Vec<Account>, String>) -> (r: Result<
    Vec<AccountRecord>,
    AuthError,
>)
    ensures
        found matches Ok(rows) ==> r matches Ok(recs) && recs@ == rows@.map_values(
            |row: Account| account_record_of(row),
        ),
        found matches Err(e) ==> r == Err::<Vec<AccountRecord>, AuthError>(AuthError::Database(e)),
{
    match found {
        Ok(rows) => {
            let ghost all = rows@;
            let mut rows = rows;
            let mut recs: Vec<AccountRecord> = Vec::new();
            while rows.len() > 0
                invariant
                    recs.len() + rows.len() == all.len(),
                    recs@ == all.subrange(0, recs.len() as int).map_values(
                        |row: Account| account_record_of(row),
                    ),
                    rows@ == all.subrange(recs.len() as int, all.len() as int),
                decreases rows.len(),
            {
                let row = rows.remove(0);
                proof {
                    assert(row == all[recs.len() as int]);
                }
                recs.push(account_from_row(row));
                assert(recs@ =~= all.subrange(0, recs.len() as int).map_values(
                    |row: Account| account_record_of(row),
                ));
            }
            assert(all.subrange(0, all.len() as int) =~= all);
            Ok(recs)
        },
        Err(e) => Err(AuthError::Database(e)),
    }
}


// ---- changes and removals of one record ----

/// The user to write back for an update: the stored user with the update
/// applied. A user that cannot be fetched is reported as not found.
pub fn user_for_update(found: Result<User, String>, update: UpdateUser) -> (r: Result<User, AuthError>)
    ensures
        found matches Ok(row) ==> r matches Ok(u) && u == updated_user(
            row,
            update,
            if update.metadata is Some { Some(u.metadata) } else { None },
            u.updated_at,
        ) && (update.metadata matches Some(v) ==> (u.metadata matches Some(t) && t@
            == json_text_of(v))),
        found is Err ==> r == Err::<User, AuthError>(AuthError::UserNotFound),
{
    match found {
        Ok(row) => Ok(apply_user_update(row, update)),
        Err(_) => Err(AuthError::UserNotFound),
    }
}

/// The user to remove. A user that cannot be fetched is reported as not
/// found.
pub fn user_for_removal(found: Result<User, String>) -> (r: Result<User, AuthError>)
    ensures
        found matches Ok(row) ==> r == Ok::<User, AuthError>(row),
        found is Err ==> r == Err::<User, AuthError>(AuthError::UserNotFound),
{
    match found {
        Ok(row) => Ok(row),
        Err(_) => Err(AuthError::UserNotFound),
    }
}

/// The text reported when the account with the given id is missing.
pub open spec fn account_missing_text(id: Seq<char>) -> Seq<char> {
    "account "@ + id + " not found"@
}

/// The error for a missing account: `"account <id> not found"`.
pub fn account_not_found(id: &str) -> (r: AuthError)
    ensures
        r matches AuthError::NotFound(text) && text@ == account_missing_text(id@),
{
    let text = String::from_str("account ").concat(id).concat(" not found");
    AuthError::NotFound(text)
}

/// The account to write back for an update: the stored account with the
/// update applied. An account that cannot be fetched is reported as not
/// found, naming its id.
pub fn account_for_update(id: &str, found: Result<Account, String>, update: UpdateAccount) -> (r:
    Result<Account, AuthError>)
    ensures
        found matches Ok(row) ==> r matches Ok(a) && a == updated_account(row, update, a.updated_at),
        found is Err ==> (r matches Err(AuthError::NotFound(text)) && text@
            == account_missing_text(id@)),
{
    match found {
        Ok(row) => Ok(apply_account_update(row, update)),
        Err(_) => Err(account_not_found(id)),
    }
}

/// The account to remove. An account that cannot be fetched is reported as
/// not found, naming its id.
pub fn account_for_removal(id: &str, found: Result<Account, String>) -> (r: Result<
    Account,
    AuthError,
>)
    ensures
        found matches Ok(row) ==> r == Ok::<Account, AuthError>(row),
        found is Err ==> (r matches Err(AuthError::NotFound(text)) && text@
            == account_missing_text(id@)),
{
    match found {
        Ok(row) => Ok(row),
        Err(_) => Err(account_not_found(id)),
    }
}

/// The session to write back when its expiry moves. A session that cannot
/// be fetched is reported as not found.
pub fn session_for_renewal(found: Result<Session, String>, expires_at: i64) -> (r: Result<
    Session,
    AuthError,
>)
    ensures
        found matches Ok(row) ==> r matches Ok(s) && s == session_with_expiry(
            row,
            expires_at,
            s.updated_at,
        ),
        found is Err ==> r == Err::<Session, AuthError>(AuthError::SessionNotFound),
{
    match found {
        Ok(row) => Ok(renew_session(row, expires_at)),
        Err(_) => Err(AuthError::SessionNotFound),
    }
}

/// The session to write back when its active organization changes. A
/// session that cannot be fetched is reported as not found.
pub fn session_for_organization(found: Result<Session, String>, organization_id: Option<&str>) -> (r:
    Result<Session, AuthError>)
    ensures
        found matches Ok(row) ==> r matches Ok(s) && s == session_with_organization(
            row,
            s.active_organization_id,
            s.updated_at,
        ) && (s.active_organization_id matches Some(o) ==> organization_id matches Some(given)
            && o@ == given@) && (s.active_organization_id is None ==> organization_id is None),
        found is Err ==> r == Err::<Session, AuthError>(AuthError::SessionNotFound),
{
    match found {
        Ok(row) => Ok(switch_session_organization(row, organization_id)),
        Err(_) => Err(AuthError::SessionNotFound),
    }
}

/// The record to remove when removing by key is allowed to find nothing:
/// a failed lookup means there is nothing to remove.
pub fn removal_target<T>(found: Result<T, String>) -> (r: Option<T>)
    ensures
        found matches Ok(row) ==> r == Some(row),
        found is Err ==> r is None,
{
    match found {
        Ok(row) => Some(row),
        Err(_) => None,
    }
}

// ---- consuming a verification token ----

/// What consuming a verification token does once the token was looked up.
pub enum ConsumeStep {
    /// The token exists: remove every row with its identifier and value,
    /// then hand back the token found.
    RemoveMatching(VerificationRecord),
    /// Nothing to consume: hand back nothing.
    NothingFound,
}

/// Consuming removes the matching tokens only when the lookup found one;
/// what it hands back is what the lookup found.
pub fn consume_after_lookup(found: Option<VerificationRecord>) -> (r: ConsumeStep)
    ensures
        found matches Some(v) ==> r == ConsumeStep::RemoveMatching(v),
        found is None ==> r == ConsumeStep::NothingFound,
{
    match found {
        Some(v) => ConsumeStep::RemoveMatching(v),
        None => ConsumeStep::NothingFound,
    }
}

// ---- removing every row a query matched ----

/// Removes, one after the other, every row that a query matched. The
/// adapter asks for the next row, removes it from the database, and
/// confirms; a failed removal ends the operation with the database's
/// error. Once every row is confirmed, the operation reports how many it
/// removed.
pub struct RemovalPlan<T> {
    rows: Vec<T>,
    removed: usize,
}

impl<T> RemovalPlan<T> {
    #[verifier::type_invariant]
    spec fn inv(self) -> bool {
        self.removed <= self.rows.len()
    }

    /// The rows to remove, in the order they will be removed.
    pub closed spec fn targets(self) -> Seq<T> {
        self.rows@
    }

    /// How many rows have been confirmed removed.
    pub closed spec fn removed_count(self) -> nat {
        self.removed as nat
    }

    /// A plan to remove the given rows, none removed yet.
    pub fn new(rows: Vec<T>) -> (r: Self)
        ensures
            r.targets() == rows@,
            r.removed_count() == 0,
    {
        RemovalPlan { rows, removed: 0 }
    }

    /// The next row to remove, or `None` once all are removed.
    pub fn next_target(&self) -> (r: Option<&T>)
        ensures
            self.removed_count() <= self.targets().len(),
            self.removed_count() < self.targets().len() ==> r == Some(
                &self.targets()[self.removed_count() as int],
            ),
            self.removed_count() == self.targets().len() ==> r is None,
    {
        proof {
            use_type_invariant(self);
        }
        if self.removed < self.rows.len() {
            Some(&self.rows[self.removed])
        } else {
            None
        }
    }

    /// Records that the row `next_target` handed out was removed.
    pub fn confirm_removed(&mut self)
        requires
            old(self).removed_count() < old(self).targets().len(),
        ensures
            final(self).targets() == old(self).targets(),
            final(self).removed_count() == old(self).removed_count() + 1,
    {
        proof {
            use_type_invariant(&*self);
        }
        self.removed = self.removed + 1;
    }

    /// The outcome of a removal attempt: a refused removal ends the plan
    /// with a database error; an accepted one is confirmed.
    pub fn record(&mut self, outcome: Result<(), String>) -> (r: Result<(), AuthError>)
        requires
            old(self).removed_count() < old(self).targets().len(),
        ensures
            final(self).targets() == old(self).targets(),
            outcome is Ok ==> r is Ok && final(self).removed_count() == old(self).removed_count()
                + 1,
            outcome matches Err(e) ==> r == Err::<(), AuthError>(AuthError::Database(e))
                && final(self).removed_count() == old(self).removed_count(),
    {
        match outcome {
            Ok(()) => {
                self.confirm_removed();
                Ok(())
            },
            Err(e) => Err(AuthError::Database(e)),
        }
    }

    /// How many rows were removed: once the plan is complete, every row the
    /// query matched.
    pub fn removed(&self) -> (r: usize)
        ensures
            r == self.removed_count(),
            self.removed_count() <= self.targets().len(),
    {
        proof {
            use_type_invariant(self);
        }
        self.removed
    }
}


// ---- what a write reads back as ----

/// A user created from a request reads back with the requested id, email,
/// name, username, display name, image and role; its email counts as
/// verified only when the request says so; it is neither banned nor using
/// two-factor authentication; its metadata is its stored text parsed, or the
/// empty JSON object when the request carried none.
pub proof fn lemma_created_user_reads_back(
    data: CreateUser,
    id: String,
    metadata_text: Option<String>,
    now: i64,
)
    ensures
        ({
            let rec = user_record_of(
                user_row_for(data, id, metadata_text, now),
                stored_metadata_value(metadata_text),
            );
            &&& rec.id == id
            &&& rec.email == data.email
            &&& rec.name == data.name
            &&& rec.username == data.username
            &&& rec.display_username == data.display_username
            &&& rec.image == data.image
            &&& rec.role == data.role
            &&& rec.email_verified == (data.email_verified == Some(true))
            &&& !rec.banned
            &&& rec.ban_reason is None
            &&& !rec.two_factor_enabled
            &&& rec.created_at == rec.updated_at
            &&& metadata_text is None ==> rec.metadata == empty_json_object_value()
        }),
{
}

/// An update that carries no metadata leaves the metadata a user reads back
/// with as it was; one that asks for nothing changes only the update time
/// the user reads back with.
pub proof fn lemma_user_update_reads_back(u: User, upd: UpdateUser, now: i64)
    requires
        upd.metadata is None,
    ensures
        ({
            let after = updated_user(u, upd, None, now);
            user_record_of(after, stored_metadata_value(after.metadata)).metadata
                == user_record_of(u, stored_metadata_value(u.metadata)).metadata
        }),
        ({
            let after = updated_user(u, upd, None, now);
            (upd.email is None && upd.name is None && upd.image is None
                && upd.email_verified is None && upd.username is None
                && upd.display_username is None && upd.role is None && upd.banned is None
                && upd.ban_reason is None && upd.ban_expires is None
                && upd.two_factor_enabled is None) ==> user_record_of(
                after,
                stored_metadata_value(after.metadata),
            ) == (UserRecord {
                updated_at: readable_millis(now),
                ..user_record_of(u, stored_metadata_value(u.metadata))
            })
        }),
{
}

/// A session created from a request reads back active, with its token, the
/// requesting user and the requested client details.
pub proof fn lemma_created_session_reads_back(
    data: CreateSession,
    id: String,
    token: String,
    now: i64,
)
    ensures
        ({
            let rec = session_record_of(session_row_for(data, id, token, now));
            &&& rec.active
            &&& rec.token == token
            &&& rec.user_id == data.user_id
            &&& rec.ip_address == data.ip_address
            &&& rec.user_agent == data.user_agent
            &&& rec.expires_at == readable_millis(data.expires_at)
            &&& rec.created_at == rec.updated_at
        }),
{
}

/// A session whose expiry was moved to an instant the clock can represent
/// reads back with exactly that expiry, and keeps its id, token, owner and
/// activity.
pub proof fn lemma_renewed_expiry_reads_back(s: Session, expires_at: i64, now: i64)
    requires
        chrono_millis_in_range(expires_at),
    ensures
        session_record_of(session_with_expiry(s, expires_at, now)).expires_at == expires_at,
        session_with_expiry(s, expires_at, now).id == s.id,
        session_with_expiry(s, expires_at, now).token == s.token,
        session_with_expiry(s, expires_at, now).user_id == s.user_id,
        session_with_expiry(s, expires_at, now).active == s.active,
{
}

/// Switching a session's organization keeps its id, token, owner, expiry
/// and activity.
pub proof fn lemma_organization_switch_keeps_session(
    s: Session,
    organization_id: Option<String>,
    now: i64,
)
    ensures
        session_with_organization(s, organization_id, now).id == s.id,
        session_with_organization(s, organization_id, now).token == s.token,
        session_with_organization(s, organization_id, now).user_id == s.user_id,
        session_with_organization(s, organization_id, now).expires_at == s.expires_at,
        session_with_organization(s, organization_id, now).active == s.active,
        session_with_organization(s, organization_id, now).active_organization_id
            == organization_id,
{
}

} // verus!
