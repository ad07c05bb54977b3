use newtab_server::engine::{cancel, webhook_subscription_deleted, StoreEffect, WebhookEventKind};
use newtab_server::errors::ApiError;
use newtab_server::model::{EntityKind, Role, SubStatus, Subscription, User, UserMembership};
use newtab_server::provider::{
    ProviderCustomer, ProviderObservation, ProviderStatus, ProviderSubscription,
};
use newtab_server::store::Store;

fn base_store() -> Store {
    let mut store = Store::new();
    store.users.push(User {
        id: "u1".to_string(),
        email: "a@x.com".to_string(),
        created_at: 1000,
        auth_token: None,
    });
    store
}

fn local_sub(status: SubStatus) -> Subscription {
    Subscription {
        id: "sub-local-1".to_string(),
        entity_id: "u1".to_string(),
        entity_type: EntityKind::User,
        plan_id: "pro-id".to_string(),
        status,
        provider_subscription_id: "sub_prov_1".to_string(),
        current_period_end: 1893456000,
        created_at: 1000,
    }
}

fn membership(entity_id: &str) -> UserMembership {
    UserMembership {
        user_id: "u1".to_string(),
        entity_id: entity_id.to_string(),
        entity_type: EntityKind::User,
        role: Role::Owner,
        created_at: 1000,
    }
}

fn obs(status: ProviderStatus) -> ProviderObservation {
    ProviderObservation {
        customer: Some(ProviderCustomer {
            id: "cus_1".to_string(),
            email: Some("a@x.com".to_string()),
        }),
        subscription: Some(ProviderSubscription {
            id: "sub_prov_1".to_string(),
            status,
            cancel_at_period_end: false,
            current_period_end: 1893456000,
            product_id: Some("prod_123".to_string()),
        }),
    }
}

#[test]
fn cancel_inactive_provider_subscription_is_unauthorized() {
    // The provider is authoritative: a local row marked active does not
    // override a provider subscription that is not active.
    let mut store = base_store();
    store.subscriptions.push(local_sub(SubStatus::Active));
    let err = cancel(
        &mut store,
        "u1",
        "a@x.com",
        &obs(ProviderStatus::Other),
        true,
        1700000000,
    )
    .unwrap_err();
    assert_eq!(err, ApiError::Unauthorized);
    assert_eq!(store.subscriptions[0].status, SubStatus::Active);
}

#[test]
fn cancel_without_local_row_is_not_found() {
    // Local existence is a precondition, even with an active provider
    // subscription.
    let mut store = base_store();
    let err = cancel(
        &mut store,
        "u1",
        "a@x.com",
        &obs(ProviderStatus::Active),
        true,
        1700000000,
    )
    .unwrap_err();
    assert_eq!(err, ApiError::NotFound);
}

#[test]
fn cancel_missing_customer_is_unauthorized() {
    let mut store = base_store();
    store.subscriptions.push(local_sub(SubStatus::Active));
    let o = ProviderObservation { customer: None, subscription: None };
    let err = cancel(&mut store, "u1", "a@x.com", &o, true, 1700000000).unwrap_err();
    assert_eq!(err, ApiError::Unauthorized);
}

#[test]
fn cancel_unknown_user_is_not_found() {
    let mut store = Store::new();
    let err = cancel(
        &mut store,
        "u1",
        "a@x.com",
        &obs(ProviderStatus::Active),
        true,
        1700000000,
    )
    .unwrap_err();
    assert_eq!(err, ApiError::NotFound);
}

#[test]
fn cancel_empty_identity_is_bad_request() {
    let mut store = base_store();
    let err = cancel(
        &mut store,
        "",
        "a@x.com",
        &obs(ProviderStatus::Active),
        true,
        1700000000,
    )
    .unwrap_err();
    assert_eq!(err, ApiError::BadRequest);
}

#[test]
fn cancel_closes_row_and_removes_every_membership() {
    // After a successful cancel: status cancelled, provider id cleared,
    // period end now, zero memberships across all entities.
    let mut store = base_store();
    store.subscriptions.push(local_sub(SubStatus::Active));
    store.memberships.push(membership("u1"));
    store.memberships.push(membership("team-9"));
    let now = 1700000000;
    let effects = cancel(
        &mut store,
        "u1",
        "a@x.com",
        &obs(ProviderStatus::Active),
        true,
        now,
    )
    .unwrap();
    assert_eq!(effects.len(), 2);
    assert!(matches!(effects[0], StoreEffect::UpdateSubscription { .. }));
    assert!(matches!(effects[1], StoreEffect::RemoveMembershipsForUser { .. }));
    let row = &store.subscriptions[0];
    assert_eq!(row.status, SubStatus::Cancelled);
    assert_eq!(row.provider_subscription_id, "");
    assert_eq!(row.current_period_end, now);
    assert!(store.memberships.is_empty());
}

#[test]
fn cancel_reports_provider_failure_as_internal() {
    let mut store = base_store();
    store.subscriptions.push(local_sub(SubStatus::Active));
    let err = cancel(
        &mut store,
        "u1",
        "a@x.com",
        &obs(ProviderStatus::Active),
        false,
        1700000000,
    )
    .unwrap_err();
    assert_eq!(err, ApiError::Internal);
    assert_eq!(store.subscriptions[0].status, SubStatus::Active);
}

#[test]
fn webhook_rejects_other_event_kinds() {
    // A mis-configured webhook is a client error and writes nothing.
    let mut store = base_store();
    store.subscriptions.push(local_sub(SubStatus::Active));
    let err = webhook_subscription_deleted(
        &mut store,
        WebhookEventKind::Other,
        &Some("a@x.com".to_string()),
        1700000000,
    )
    .unwrap_err();
    assert_eq!(err, ApiError::BadRequest);
    assert_eq!(store.subscriptions[0].status, SubStatus::Active);
}

#[test]
fn webhook_unknown_customer_email_is_not_found() {
    let mut store = base_store();
    store.subscriptions.push(local_sub(SubStatus::Active));
    let err = webhook_subscription_deleted(
        &mut store,
        WebhookEventKind::SubscriptionDeleted,
        &Some("nobody@x.com".to_string()),
        1700000000,
    )
    .unwrap_err();
    assert_eq!(err, ApiError::NotFound);
    assert_eq!(store.subscriptions[0].status, SubStatus::Active);
}

#[test]
fn webhook_missing_email_is_not_found() {
    let mut store = base_store();
    let err = webhook_subscription_deleted(
        &mut store,
        WebhookEventKind::SubscriptionDeleted,
        &None,
        1700000000,
    )
    .unwrap_err();
    assert_eq!(err, ApiError::NotFound);
}

#[test]
fn webhook_closes_subscription_but_keeps_memberships() {
    let mut store = base_store();
    store.subscriptions.push(local_sub(SubStatus::Active));
    store.memberships.push(membership("u1"));
    let now = 1700000000;
    let effects = webhook_subscription_deleted(
        &mut store,
        WebhookEventKind::SubscriptionDeleted,
        &Some("a@x.com".to_string()),
        now,
    )
    .unwrap();
    assert_eq!(effects.len(), 1);
    let row = &store.subscriptions[0];
    assert_eq!(row.status, SubStatus::Cancelled);
    assert_eq!(row.provider_subscription_id, "");
    assert_eq!(row.current_period_end, now);
    // The webhook path deliberately performs no membership cleanup.
    assert_eq!(store.memberships.len(), 1);
}

#[test]
fn webhook_without_local_subscription_is_internal() {
    let mut store = base_store();
    let err = webhook_subscription_deleted(
        &mut store,
        WebhookEventKind::SubscriptionDeleted,
        &Some("a@x.com".to_string()),
        1700000000,
    )
    .unwrap_err();
    assert_eq!(err, ApiError::Internal);
}
