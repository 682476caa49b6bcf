use better_auth_toasty::clock::timestamp_or_epoch;
use better_auth_toasty::conversions::{
    account_from_row, create_account_to_model, create_session_to_model, create_user_to_model,
    create_verification_to_model, session_from_row, user_from_row, verification_from_row,
};
use better_auth_toasty::error::AuthError;
use better_auth_toasty::ids::{new_session_token, remove_hyphens, session_token_from_uuid};
use better_auth_toasty::json::metadata_value;
use better_auth_toasty::models::{Account, Session, User, Verification};
use better_auth_toasty::ops::{
    account_for_removal, account_for_update, account_list, account_lookup, account_not_found,
    consume_after_lookup, fetched_account, fetched_session, fetched_user, fetched_verification,
    removal_target, session_for_organization, session_for_renewal, session_list, session_lookup,
    user_for_removal, user_for_update, user_or_none, verification_lookup, db_outcome,
    ConsumeStep, RemovalPlan,
};
use better_auth_toasty::records::{
    CreateAccount, CreateSession, CreateUser, CreateVerification, UpdateAccount, UpdateUser,
};
use better_auth_toasty::updates::{
    apply_account_update, apply_user_update, merge_account_update, merge_user_update,
};

const JAN_2024: i64 = 1_704_067_200_000;

fn is_hyphenated_uuid(s: &str) -> bool {
    let chars: Vec<char> = s.chars().collect();
    chars.len() == 36
        && chars.iter().enumerate().all(|(i, c)| {
            if i == 8 || i == 13 || i == 18 || i == 23 {
                *c == '-'
            } else {
                c.is_ascii_hexdigit() && !c.is_ascii_uppercase()
            }
        })
}

fn sample_user() -> User {
    User {
        id: "u1".to_string(),
        name: Some("Dave".to_string()),
        email: Some("dave@example.com".to_string()),
        email_verified: false,
        image: None,
        username: None,
        display_username: None,
        role: Some("user".to_string()),
        banned: true,
        ban_reason: Some("spam".to_string()),
        ban_expires: Some(JAN_2024 + 1000),
        two_factor_enabled: false,
        metadata: None,
        created_at: JAN_2024,
        updated_at: JAN_2024,
    }
}

fn sample_session() -> Session {
    Session {
        id: "s1".to_string(),
        user_id: "u1".to_string(),
        token: "session_abc".to_string(),
        expires_at: JAN_2024 + 3_600_000,
        ip_address: Some("127.0.0.1".to_string()),
        user_agent: Some("test-agent".to_string()),
        impersonated_by: None,
        active_organization_id: None,
        active: true,
        created_at: JAN_2024,
        updated_at: JAN_2024,
    }
}

fn sample_account(id: &str, provider: &str) -> Account {
    Account {
        id: id.to_string(),
        user_id: "u1".to_string(),
        account_id: format!("{}-id", provider),
        provider_id: provider.to_string(),
        access_token: Some("old_token".to_string()),
        refresh_token: None,
        access_token_expires_at: None,
        refresh_token_expires_at: None,
        scope: None,
        id_token: None,
        password: None,
        created_at: JAN_2024,
        updated_at: JAN_2024,
    }
}

fn no_user_changes() -> UpdateUser {
    UpdateUser::default()
}

// ---- ids and tokens ----

#[test]
fn hyphens_are_removed_in_order() {
    assert_eq!(remove_hyphens("a-b--c-"), "abc");
    assert_eq!(remove_hyphens("---"), "");
    assert_eq!(remove_hyphens("plain"), "plain");
    assert_eq!(remove_hyphens(""), "");
}

#[test]
fn session_token_is_prefix_and_uuid_digits() {
    let token = new_session_token();
    assert!(token.starts_with("session_"));
    assert_eq!(token.len(), 40);
    assert!(!token.contains('-'));
    assert!(token[8..].chars().all(|c| c.is_ascii_hexdigit() && !c.is_ascii_uppercase()));
    assert_ne!(new_session_token(), token);
}

// ---- creation ----

#[test]
fn created_user_keeps_requested_fields_and_defaults() {
    let create = CreateUser {
        id: Some("alice-id".to_string()),
        email: Some("alice@example.com".to_string()),
        name: Some("Alice".to_string()),
        image: None,
        email_verified: Some(true),
        password: Some("secret".to_string()),
        username: Some("alice".to_string()),
        display_username: None,
        role: Some("user".to_string()),
        metadata: None,
    };
    let row = create_user_to_model(&create);
    assert_eq!(row.id, "alice-id");
    assert_eq!(row.email.as_deref(), Some("alice@example.com"));
    assert_eq!(row.name.as_deref(), Some("Alice"));
    assert_eq!(row.username.as_deref(), Some("alice"));
    assert_eq!(row.role.as_deref(), Some("user"));
    assert!(row.email_verified);
    assert!(!row.banned);
    assert_eq!(row.ban_reason, None);
    assert_eq!(row.ban_expires, None);
    assert!(!row.two_factor_enabled);
    assert_eq!(row.metadata, None);
    assert_eq!(row.created_at, row.updated_at);
    assert!(row.created_at > JAN_2024);
}

#[test]
fn created_user_without_id_gets_a_uuid_and_unverified_email() {
    let create = CreateUser {
        id: None,
        email: None,
        name: None,
        image: None,
        email_verified: None,
        password: None,
        username: None,
        display_username: None,
        role: None,
        metadata: None,
    };
    let row = create_user_to_model(&create);
    assert!(is_hyphenated_uuid(&row.id));
    assert!(!row.email_verified);
}

#[test]
fn created_user_metadata_is_stored_as_json_text() {
    let mut map = serde_json::Map::new();
    map.insert("plan".to_string(), serde_json::Value::String("pro".to_string()));
    let value = serde_json::Value::Object(map);
    let create = CreateUser {
        id: None,
        email: None,
        name: None,
        image: None,
        email_verified: None,
        password: None,
        username: None,
        display_username: None,
        role: None,
        metadata: Some(value.clone()),
    };
    let row = create_user_to_model(&create);
    let text = row.metadata.clone().expect("metadata text");
    let back: serde_json::Value = serde_json::from_str(&text).unwrap();
    assert_eq!(back, value);
    let record = user_from_row(row);
    assert_eq!(record.metadata, value);
}

#[test]
fn created_session_is_active_with_fresh_token() {
    let create = CreateSession {
        user_id: "u1".to_string(),
        expires_at: JAN_2024 + 3_600_000,
        ip_address: Some("127.0.0.1".to_string()),
        user_agent: Some("test-agent".to_string()),
        impersonated_by: None,
        active_organization_id: None,
    };
    let row = create_session_to_model(&create);
    assert!(row.token.starts_with("session_"));
    assert_eq!(row.user_id, "u1");
    assert!(row.active);
    assert_eq!(row.expires_at, JAN_2024 + 3_600_000);
    assert_eq!(row.ip_address.as_deref(), Some("127.0.0.1"));
    assert_eq!(row.user_agent.as_deref(), Some("test-agent"));
    assert!(is_hyphenated_uuid(&row.id));
    assert_eq!(row.created_at, row.updated_at);
}

#[test]
fn created_account_keeps_tokens() {
    let create = CreateAccount {
        user_id: "u1".to_string(),
        account_id: "google-12345".to_string(),
        provider_id: "google".to_string(),
        access_token: Some("access_tok".to_string()),
        refresh_token: Some("refresh_tok".to_string()),
        id_token: None,
        access_token_expires_at: Some(JAN_2024),
        refresh_token_expires_at: None,
        scope: Some("openid profile email".to_string()),
        password: None,
    };
    let row = create_account_to_model(&create);
    assert_eq!(row.provider_id, "google");
    assert_eq!(row.account_id, "google-12345");
    assert_eq!(row.access_token.as_deref(), Some("access_tok"));
    assert_eq!(row.refresh_token.as_deref(), Some("refresh_tok"));
    assert_eq!(row.access_token_expires_at, Some(JAN_2024));
    assert_eq!(row.scope.as_deref(), Some("openid profile email"));
    assert!(is_hyphenated_uuid(&row.id));
}

#[test]
fn created_verification_keeps_identifier_and_value() {
    let create = CreateVerification {
        identifier: "alice@example.com".to_string(),
        value: "token-abc-123".to_string(),
        expires_at: JAN_2024,
    };
    let row = create_verification_to_model(&create);
    assert_eq!(row.identifier, "alice@example.com");
    assert_eq!(row.value, "token-abc-123");
    assert_eq!(row.expires_at, JAN_2024);
    assert!(is_hyphenated_uuid(&row.id));
}

// ---- reading rows back ----

#[test]
fn timestamps_outside_the_clock_range_read_as_epoch() {
    assert_eq!(timestamp_or_epoch(JAN_2024), JAN_2024);
    assert_eq!(timestamp_or_epoch(-1), -1);
    assert_eq!(timestamp_or_epoch(i64::MAX), 0);
    assert_eq!(timestamp_or_epoch(i64::MIN), 0);
}

#[test]
fn unreadable_metadata_reads_as_empty_object() {
    let empty = serde_json::Value::Object(serde_json::Map::new());
    assert_eq!(metadata_value(&None), empty);
    assert_eq!(metadata_value(&Some("not json".to_string())), empty);
    assert_eq!(metadata_value(&Some("[1,2]".to_string())), serde_json::from_str::<serde_json::Value>("[1,2]").unwrap());
}

#[test]
fn user_row_reads_back_field_for_field() {
    let mut row = sample_user();
    row.updated_at = i64::MAX;
    let record = user_from_row(row);
    assert_eq!(record.id, "u1");
    assert_eq!(record.email.as_deref(), Some("dave@example.com"));
    assert_eq!(record.created_at, JAN_2024);
    assert_eq!(record.updated_at, 0);
    assert_eq!(record.ban_expires, Some(JAN_2024 + 1000));
    assert_eq!(record.ban_reason.as_deref(), Some("spam"));
    assert!(record.banned);
}

#[test]
fn other_rows_read_back_field_for_field() {
    let s = session_from_row(sample_session());
    assert_eq!(s.token, "session_abc");
    assert_eq!(s.expires_at, JAN_2024 + 3_600_000);
    assert!(s.active);
    let a = account_from_row(sample_account("a1", "google"));
    assert_eq!(a.account_id, "google-id");
    assert_eq!(a.access_token.as_deref(), Some("old_token"));
    let v = verification_from_row(Verification {
        id: "v1".to_string(),
        identifier: "user@example.com".to_string(),
        value: "unique-token-456".to_string(),
        expires_at: i64::MIN,
        created_at: JAN_2024,
        updated_at: JAN_2024,
    });
    assert_eq!(v.identifier, "user@example.com");
    assert_eq!(v.expires_at, 0);
}

// ---- updates ----

#[test]
fn user_update_replaces_given_fields_only() {
    let update = UpdateUser {
        name: Some("David".to_string()),
        role: Some("admin".to_string()),
        email_verified: Some(true),
        ..Default::default()
    };
    let updated = merge_user_update(sample_user(), update, None, JAN_2024 + 5);
    assert_eq!(updated.name.as_deref(), Some("David"));
    assert_eq!(updated.role.as_deref(), Some("admin"));
    assert!(updated.email_verified);
    assert_eq!(updated.email.as_deref(), Some("dave@example.com"));
    assert!(updated.banned);
    assert_eq!(updated.ban_reason.as_deref(), Some("spam"));
    assert_eq!(updated.updated_at, JAN_2024 + 5);
    assert_eq!(updated.created_at, JAN_2024);
    assert_eq!(updated.id, "u1");
}

#[test]
fn lifting_a_ban_clears_reason_and_expiry() {
    let update = UpdateUser { banned: Some(false), ..Default::default() };
    let updated = merge_user_update(sample_user(), update, None, JAN_2024);
    assert!(!updated.banned);
    assert_eq!(updated.ban_reason, None);
    assert_eq!(updated.ban_expires, None);
}

#[test]
fn lifting_a_ban_with_a_new_reason_keeps_the_reason() {
    let update = UpdateUser {
        banned: Some(false),
        ban_reason: Some("appeal".to_string()),
        ..Default::default()
    };
    let updated = merge_user_update(sample_user(), update, None, JAN_2024);
    assert!(!updated.banned);
    assert_eq!(updated.ban_reason.as_deref(), Some("appeal"));
    assert_eq!(updated.ban_expires, None);
}

#[test]
fn banning_keeps_previous_reason() {
    let mut user = sample_user();
    user.banned = false;
    let update = UpdateUser { banned: Some(true), ..Default::default() };
    let updated = merge_user_update(user, update, None, JAN_2024);
    assert!(updated.banned);
    assert_eq!(updated.ban_reason.as_deref(), Some("spam"));
}

#[test]
fn user_update_twice_equals_once() {
    let make = || UpdateUser {
        email: Some("new@example.com".to_string()),
        banned: Some(false),
        two_factor_enabled: Some(true),
        ..Default::default()
    };
    let meta = Some(Some("{\"a\":1}".to_string()));
    let once = merge_user_update(sample_user(), make(), meta.clone(), JAN_2024 + 9);
    let twice = merge_user_update(once.clone(), make(), meta, JAN_2024 + 9);
    assert_eq!(once, twice);
    assert_eq!(once.metadata.as_deref(), Some("{\"a\":1}"));
}

#[test]
fn empty_user_update_only_moves_update_time() {
    let updated = merge_user_update(sample_user(), no_user_changes(), None, JAN_2024 + 7);
    let mut expected = sample_user();
    expected.updated_at = JAN_2024 + 7;
    assert_eq!(updated, expected);
}

#[test]
fn applied_user_update_serializes_metadata_and_stamps_time() {
    let update = UpdateUser {
        metadata: Some(serde_json::Value::Bool(true)),
        ..Default::default()
    };
    let updated = apply_user_update(sample_user(), update);
    assert_eq!(updated.metadata.as_deref(), Some("true"));
    assert!(updated.updated_at > JAN_2024);
    let untouched = apply_user_update(sample_user(), no_user_changes());
    assert_eq!(untouched.metadata, None);
}

#[test]
fn account_update_replaces_given_tokens() {
    let update = UpdateAccount {
        access_token: Some("new_token".to_string()),
        scope: Some("openid".to_string()),
        ..Default::default()
    };
    let updated = merge_account_update(sample_account("a1", "google"), update, JAN_2024 + 3);
    assert_eq!(updated.access_token.as_deref(), Some("new_token"));
    assert_eq!(updated.scope.as_deref(), Some("openid"));
    assert_eq!(updated.provider_id, "google");
    assert_eq!(updated.updated_at, JAN_2024 + 3);
    let again = merge_account_update(
        updated.clone(),
        UpdateAccount {
            access_token: Some("new_token".to_string()),
            scope: Some("openid".to_string()),
            ..Default::default()
        },
        JAN_2024 + 3,
    );
    assert_eq!(again, updated);
    let applied = apply_account_update(sample_account("a1", "google"), UpdateAccount::default());
    assert_eq!(applied.access_token.as_deref(), Some("old_token"));
    assert!(applied.updated_at > JAN_2024);
}

// ---- operation decisions ----

#[test]
fn missing_records_give_their_errors() {
    assert_eq!(user_for_update(Err("gone".to_string()), no_user_changes()), Err(AuthError::UserNotFound));
    assert_eq!(user_for_removal(Err("gone".to_string())), Err(AuthError::UserNotFound));
    assert_eq!(
        account_for_update("abc", Err("gone".to_string()), UpdateAccount::default()),
        Err(AuthError::NotFound("account abc not found".to_string()))
    );
    assert_eq!(
        account_for_removal("abc", Err("gone".to_string())),
        Err(AuthError::NotFound("account abc not found".to_string()))
    );
    assert_eq!(account_not_found("x"), AuthError::NotFound("account x not found".to_string()));
    assert_eq!(session_for_renewal(Err("gone".to_string()), 5), Err(AuthError::SessionNotFound));
    assert_eq!(session_for_organization(Err("gone".to_string()), None), Err(AuthError::SessionNotFound));
}

#[test]
fn found_records_are_changed_as_asked() {
    let u = user_for_update(
        Ok(sample_user()),
        UpdateUser { name: Some("David".to_string()), ..Default::default() },
    )
    .unwrap();
    assert_eq!(u.name.as_deref(), Some("David"));
    assert_eq!(user_for_removal(Ok(sample_user())), Ok(sample_user()));
    let s = session_for_renewal(Ok(sample_session()), JAN_2024 + 86_400_000).unwrap();
    assert_eq!(s.expires_at, JAN_2024 + 86_400_000);
    assert_eq!(s.token, "session_abc");
    let s = session_for_organization(Ok(sample_session()), Some("org-1")).unwrap();
    assert_eq!(s.active_organization_id.as_deref(), Some("org-1"));
    let s = session_for_organization(Ok(s), None).unwrap();
    assert_eq!(s.active_organization_id, None);
    let a = account_for_removal("a1", Ok(sample_account("a1", "test"))).unwrap();
    assert_eq!(a.provider_id, "test");
}

#[test]
fn failed_user_lookup_means_no_user() {
    assert!(user_or_none(Err("no rows".to_string())).is_none());
    let found = user_or_none(Ok(sample_user())).unwrap();
    assert_eq!(found.name.as_deref(), Some("Dave"));
}

#[test]
fn database_errors_pass_through() {
    assert_eq!(db_outcome(Ok(())), Ok(()));
    assert_eq!(db_outcome::<()>(Err("disk".to_string())), Err(AuthError::Database("disk".to_string())));
    assert!(matches!(fetched_user(Err("x".to_string())), Err(AuthError::Database(m)) if m == "x"));
    assert_eq!(fetched_session(Err("x".to_string())), Err(AuthError::Database("x".to_string())));
    assert_eq!(fetched_account(Err("x".to_string())), Err(AuthError::Database("x".to_string())));
    assert_eq!(fetched_verification(Err("x".to_string())), Err(AuthError::Database("x".to_string())));
    assert_eq!(session_lookup(Err("x".to_string())), Err(AuthError::Database("x".to_string())));
    assert_eq!(account_lookup(Ok(None)), Ok(None));
    assert_eq!(verification_lookup(Ok(None)), Ok(None));
    assert_eq!(session_list(Err("x".to_string())), Err(AuthError::Database("x".to_string())));
}

#[test]
fn lookups_read_rows_back() {
    let s = session_lookup(Ok(Some(sample_session()))).unwrap().unwrap();
    assert_eq!(s.token, "session_abc");
    let a = fetched_account(Ok(sample_account("a1", "google"))).unwrap();
    assert_eq!(a.id, "a1");
    let u = fetched_user(Ok(sample_user())).unwrap();
    assert_eq!(u.id, "u1");
}

#[test]
fn listings_keep_their_order() {
    let mut second = sample_session();
    second.id = "s2".to_string();
    let list = session_list(Ok(vec![sample_session(), second, sample_session()])).unwrap();
    let ids: Vec<&str> = list.iter().map(|s| s.id.as_str()).collect();
    assert_eq!(ids, vec!["s1", "s2", "s1"]);
    let accounts = account_list(Ok(vec![sample_account("a1", "google"), sample_account("a2", "github")])).unwrap();
    assert_eq!(accounts.len(), 2);
    assert_eq!(accounts[1].provider_id, "github");
    assert!(session_list(Ok(vec![])).unwrap().is_empty());
}

#[test]
fn removal_by_key_tolerates_missing_rows() {
    assert_eq!(removal_target::<Session>(Err("none".to_string())), None);
    assert_eq!(removal_target(Ok(sample_session())), Some(sample_session()));
}

#[test]
fn consuming_removes_only_when_found() {
    assert!(matches!(consume_after_lookup(None), ConsumeStep::NothingFound));
    let v = verification_lookup(Ok(Some(Verification {
        id: "v1".to_string(),
        identifier: "consume@example.com".to_string(),
        value: "consume-token".to_string(),
        expires_at: JAN_2024,
        created_at: JAN_2024,
        updated_at: JAN_2024,
    })))
    .unwrap()
    .unwrap();
    match consume_after_lookup(Some(v.clone())) {
        ConsumeStep::RemoveMatching(found) => assert_eq!(found, v),
        ConsumeStep::NothingFound => panic!("expected a removal"),
    }
}

#[test]
fn removal_plan_counts_every_removed_row() {
    let mut plan = RemovalPlan::new(vec!["a", "b", "c"]);
    let mut seen = Vec::new();
    while let Some(row) = plan.next_target() {
        seen.push(*row);
        plan.record(Ok(())).unwrap();
    }
    assert_eq!(seen, vec!["a", "b", "c"]);
    assert_eq!(plan.removed(), 3);
}

#[test]
fn removal_plan_stops_at_a_refused_removal() {
    let mut plan = RemovalPlan::new(vec![1, 2]);
    assert_eq!(plan.next_target(), Some(&1));
    plan.confirm_removed();
    assert_eq!(plan.record(Err("locked".to_string())), Err(AuthError::Database("locked".to_string())));
    assert_eq!(plan.removed(), 1);
    assert_eq!(plan.next_target(), Some(&2));
    let empty: RemovalPlan<u8> = RemovalPlan::new(vec![]);
    assert_eq!(empty.next_target(), None);
    assert_eq!(empty.removed(), 0);
}

#[test]
fn renewed_expiry_reads_back_exactly() {
    let new_expiry = JAN_2024 + 24 * 3_600_000;
    let renewed = session_for_renewal(Ok(sample_session()), new_expiry).unwrap();
    let read = fetched_session(Ok(renewed)).unwrap();
    assert_eq!(read.expires_at, new_expiry);
    assert_eq!(read.token, "session_abc");
    assert_eq!(read.id, "s1");
}

#[test]
fn created_user_reads_back_as_requested() {
    let create = CreateUser {
        id: Some("carol-id".to_string()),
        email: Some("carol@example.com".to_string()),
        name: Some("Carol".to_string()),
        image: None,
        email_verified: Some(false),
        password: None,
        username: None,
        display_username: None,
        role: None,
        metadata: None,
    };
    let read = fetched_user(Ok(create_user_to_model(&create))).unwrap();
    assert_eq!(read.id, "carol-id");
    assert_eq!(read.email.as_deref(), Some("carol@example.com"));
    assert_eq!(read.name.as_deref(), Some("Carol"));
    assert!(!read.email_verified);
    assert!(!read.banned);
    assert_eq!(read.created_at, read.updated_at);
    assert_eq!(read.metadata, serde_json::Value::Object(serde_json::Map::new()));
}

#[test]
fn clock_range_bounds_are_exact() {
    let min = -8_334_601_228_800_000i64;
    let max = 8_210_266_876_799_999i64;
    assert_eq!(timestamp_or_epoch(min), min);
    assert_eq!(timestamp_or_epoch(min - 1), 0);
    assert_eq!(timestamp_or_epoch(max), max);
    assert_eq!(timestamp_or_epoch(max + 1), 0);
}

#[test]
fn generated_ids_are_version_four() {
    for _ in 0..20 {
        let row = create_verification_to_model(&CreateVerification {
            identifier: "i".to_string(),
            value: "v".to_string(),
            expires_at: JAN_2024,
        });
        let chars: Vec<char> = row.id.chars().collect();
        assert_eq!(chars[14], '4');
        assert!(matches!(chars[19], '8' | '9' | 'a' | 'b'));
    }
}

#[test]
fn stored_metadata_reads_back_or_defaults() {
    let mut row = sample_user();
    row.metadata = Some("{\"theme\":\"dark\"}".to_string());
    let read = user_from_row(row.clone());
    assert_eq!(read.metadata, serde_json::from_str::<serde_json::Value>("{\"theme\":\"dark\"}").unwrap());
    row.metadata = Some("{broken".to_string());
    assert_eq!(user_from_row(row).metadata, serde_json::Value::Object(serde_json::Map::new()));
}

#[test]
fn session_token_is_built_from_a_uuid() {
    assert_eq!(
        session_token_from_uuid("67e55044-10b1-426f-9247-bb680e5fe0c8"),
        "session_67e5504410b1426f9247bb680e5fe0c8"
    );
    let token = new_session_token();
    let chars: Vec<char> = token.chars().collect();
    assert_eq!(chars[20], '4');
    assert!(matches!(chars[24], '8' | '9' | 'a' | 'b'));
}
