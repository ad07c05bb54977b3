use newtab_server::errors::ApiError;
use newtab_server::model::{
    EntityKind, FeedbackTimestamp, Link, Plan, Role, SubStatus, Subscription, SubscriptionUpdate,
    UpdateLinkRequest, User, UserMembership, UserSettings, UserSettingsRequest,
};
use newtab_server::store::Store;

fn user(id: &str, email: &str) -> User {
    User {
        id: id.to_string(),
        email: email.to_string(),
        created_at: 1000,
        auth_token: None,
    }
}

fn sub(id: &str, entity: &str) -> Subscription {
    Subscription {
        id: id.to_string(),
        entity_id: entity.to_string(),
        entity_type: EntityKind::User,
        plan_id: "pro-id".to_string(),
        status: SubStatus::Active,
        provider_subscription_id: "sub_prov".to_string(),
        current_period_end: 1893456000,
        created_at: 1000,
    }
}

fn link(id: &str, owner: &str) -> Link {
    Link {
        id: id.to_string(),
        title: "Title".to_string(),
        url: "https://example.com".to_string(),
        icon: None,
        order_index: 1,
        owner_type: EntityKind::User,
        owner_id: owner.to_string(),
        created_at: 1000,
        description: None,
        column_type: "left".to_string(),
    }
}

fn settings_blob(autosuggest: bool) -> UserSettingsRequest {
    UserSettingsRequest {
        search_history: true,
        autosuggest,
        jira_api: false,
        confluence_api: false,
        linear_api: false,
        new_tabs: true,
        metadata: false,
    }
}

#[test]
fn users_are_created_fetched_and_deleted() {
    let mut store = Store::new();
    store.create_user(user("u1", "a@x.com")).unwrap();
    assert_eq!(store.create_user(user("u1", "b@x.com")).unwrap_err(), ApiError::Conflict);
    let fetched = store.get_user("u1").unwrap();
    assert_eq!(fetched.email, "a@x.com");
    assert!(store.get_user("u2").is_none());
    let by_email = store.get_user_by_email("a@x.com").unwrap();
    assert_eq!(by_email.id, "u1");
    assert!(store.get_user_by_email("b@x.com").is_none());
    store.delete_user("u1").unwrap();
    assert_eq!(store.delete_user("u1").unwrap_err(), ApiError::NotFound);
}

#[test]
fn plans_are_found_by_id_and_provider_product() {
    let mut store = Store::new();
    store.plans.push(Plan {
        id: "pro-id".to_string(),
        name: "Pro".to_string(),
        max_pins: 100,
        features: vec![],
        created_at: 1,
        stripe_id: Some("prod_123".to_string()),
    });
    store.plans.push(Plan {
        id: "free-id".to_string(),
        name: "Free".to_string(),
        max_pins: 10,
        features: vec![],
        created_at: 1,
        stripe_id: None,
    });
    assert_eq!(store.get_plan("free-id").unwrap().name, "Free");
    assert!(store.get_plan("nope").is_none());
    assert_eq!(store.get_plan_by_stripe_id("prod_123").unwrap().id, "pro-id");
    assert!(store.get_plan_by_stripe_id("prod_999").is_none());
    assert_eq!(store.get_plans().len(), 2);
}

#[test]
fn one_subscription_row_per_entity() {
    let mut store = Store::new();
    store.create_subscription(sub("s1", "u1")).unwrap();
    assert_eq!(
        store.create_subscription(sub("s2", "u1")).unwrap_err(),
        ApiError::Conflict
    );
    assert_eq!(
        store.create_subscription(sub("s1", "u2")).unwrap_err(),
        ApiError::Conflict
    );
    let row = store.get_user_subscription("u1").unwrap();
    assert_eq!(row.id, "s1");
    assert!(store.get_user_subscription("u2").is_none());
}

#[test]
fn subscription_updates_are_partial() {
    let mut store = Store::new();
    store.create_subscription(sub("s1", "u1")).unwrap();
    store
        .update_subscription(
            "s1",
            &SubscriptionUpdate {
                plan_id: None,
                status: Some(SubStatus::Cancelling),
                provider_subscription_id: None,
                current_period_end: None,
            },
        )
        .unwrap();
    let row = store.get_user_subscription("u1").unwrap();
    assert_eq!(row.status, SubStatus::Cancelling);
    assert_eq!(row.plan_id, "pro-id");
    assert_eq!(row.provider_subscription_id, "sub_prov");
    assert_eq!(row.current_period_end, 1893456000);
    assert_eq!(
        store
            .update_subscription(
                "nope",
                &SubscriptionUpdate {
                    plan_id: None,
                    status: None,
                    provider_subscription_id: None,
                    current_period_end: None,
                },
            )
            .unwrap_err(),
        ApiError::NotFound
    );
}

#[test]
fn memberships_are_listed_updated_and_removed() {
    let mut store = Store::new();
    store.add_member(UserMembership {
        user_id: "u1".to_string(),
        entity_id: "u1".to_string(),
        entity_type: EntityKind::User,
        role: Role::Owner,
        created_at: 1,
    });
    store.add_member(UserMembership {
        user_id: "u2".to_string(),
        entity_id: "team".to_string(),
        entity_type: EntityKind::Team,
        role: Role::Owner,
        created_at: 1,
    });
    assert_eq!(store.get_user_memberships("u1").len(), 1);
    assert_eq!(store.get_user_memberships("u3").len(), 0);
    let updated = store.update_member_role("u1", "u1", Role::Owner).unwrap();
    assert_eq!(updated.user_id, "u1");
    assert_eq!(
        store.update_member_role("u3", "u1", Role::Owner).unwrap_err(),
        ApiError::NotFound
    );
    store.remove_member("u1", "u1").unwrap();
    assert_eq!(store.remove_member("u1", "u1").unwrap_err(), ApiError::NotFound);
    assert_eq!(store.memberships.len(), 1);
}

#[test]
fn settings_rows_are_unique_per_user() {
    let mut store = Store::new();
    store
        .create_user_settings(UserSettings {
            user_id: "u1".to_string(),
            settings_blob: settings_blob(true),
            created_at: 1,
        })
        .unwrap();
    assert_eq!(
        store
            .create_user_settings(UserSettings {
                user_id: "u1".to_string(),
                settings_blob: settings_blob(false),
                created_at: 2,
            })
            .unwrap_err(),
        ApiError::Conflict
    );
    assert!(store.get_user_settings("u1").unwrap().settings_blob.autosuggest);
    store.update_user_settings("u1", settings_blob(false)).unwrap();
    assert!(!store.get_user_settings("u1").unwrap().settings_blob.autosuggest);
    assert_eq!(
        store.update_user_settings("u2", settings_blob(false)).unwrap_err(),
        ApiError::NotFound
    );
    store.delete_user_settings("u1").unwrap();
    assert_eq!(store.delete_user_settings("u1").unwrap_err(), ApiError::NotFound);
}

#[test]
fn links_are_scoped_to_their_owner() {
    let mut store = Store::new();
    store.create_link(link("l1", "u1")).unwrap();
    store.create_link(link("l2", "u1")).unwrap();
    store.create_link(link("l3", "u2")).unwrap();
    assert_eq!(store.create_link(link("l1", "u9")).unwrap_err(), ApiError::Conflict);
    assert_eq!(store.get_links("u1", EntityKind::User).len(), 2);
    assert_eq!(store.get_links("u2", EntityKind::User).len(), 1);
    assert!(store.get_link("l1", "u1").is_some());
    assert!(store.get_link("l1", "u2").is_none());
    store
        .update_link(&UpdateLinkRequest {
            id: "l1".to_string(),
            url: None,
            description: Some("desc".to_string()),
            title: Some("New title".to_string()),
            icon: None,
            column_type: None,
        })
        .unwrap();
    let l1 = store.get_link("l1", "u1").unwrap();
    assert_eq!(l1.title, "New title");
    assert_eq!(l1.description.as_deref(), Some("desc"));
    assert_eq!(l1.url, "https://example.com");
    store.delete_link("l1").unwrap();
    assert_eq!(store.delete_link("l1").unwrap_err(), ApiError::NotFound);
}

#[test]
fn feedback_is_throttled_for_a_day() {
    let mut store = Store::new();
    let now: i64 = 1_700_000_000;
    // No record yet: allowed.
    assert!(store.check_feedback_timestamp("u1", now));
    store.create_feedback_timestamp("u1", now);
    // Within 24 hours: throttled, record kept.
    assert!(!store.check_feedback_timestamp("u1", now + 3600));
    assert_eq!(store.feedback_timestamps.len(), 1);
    // After 24 hours: allowed again, stale record dropped.
    assert!(store.check_feedback_timestamp("u1", now + 86400));
    assert!(store.feedback_timestamps.is_empty());
}

#[test]
fn stale_feedback_of_other_users_is_kept() {
    let mut store = Store::new();
    store.feedback_timestamps.push(FeedbackTimestamp {
        user_id: "u2".to_string(),
        created_at: 0,
    });
    assert!(store.check_feedback_timestamp("u1", 1_700_000_000));
    assert_eq!(store.feedback_timestamps.len(), 1);
}
