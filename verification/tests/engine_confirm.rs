use newtab_server::engine::{confirm, StoreEffect};
use newtab_server::errors::ApiError;
use newtab_server::model::{
    EntityKind, Plan, Role, SubStatus, Subscription, User, UserMembership,
};
use newtab_server::provider::{
    ProviderCustomer, ProviderObservation, ProviderStatus, ProviderSubscription,
};
use newtab_server::store::Store;

fn user_u1() -> User {
    User {
        id: "u1".to_string(),
        email: "a@x.com".to_string(),
        created_at: 1000,
        auth_token: None,
    }
}

fn pro_plan() -> Plan {
    Plan {
        id: "pro-id".to_string(),
        name: "Pro".to_string(),
        max_pins: 100,
        features: vec!["suggestions".to_string()],
        created_at: 500,
        stripe_id: Some("prod_123".to_string()),
    }
}

fn store_with_user_and_plan() -> Store {
    let mut store = Store::new();
    store.users.push(user_u1());
    store.plans.push(pro_plan());
    store
}

fn active_obs(cancel_at_period_end: bool) -> ProviderObservation {
    ProviderObservation {
        customer: Some(ProviderCustomer {
            id: "cus_1".to_string(),
            email: Some("a@x.com".to_string()),
        }),
        subscription: Some(ProviderSubscription {
            id: "sub_prov_1".to_string(),
            status: ProviderStatus::Active,
            cancel_at_period_end,
            current_period_end: 1893456000,
            product_id: Some("prod_123".to_string()),
        }),
    }
}

#[test]
fn confirm_no_customer_returns_free_plan_and_writes_nothing() {
    // Scenario: user u1, email a@x.com, has no provider customer.
    let mut store = store_with_user_and_plan();
    let obs = ProviderObservation { customer: None, subscription: None };
    let (resp, effects) = confirm(
        &mut store,
        "u1",
        &obs,
        "free-id",
        "sub-local-1".to_string(),
        1700000000,
    )
    .unwrap();
    assert_eq!(resp.plan_id, "free-id");
    assert_eq!(resp.current_period_end, 0);
    assert!(effects.is_empty());
    assert!(store.subscriptions.is_empty());
    assert!(store.memberships.is_empty());
}

#[test]
fn confirm_no_subscription_returns_free_plan() {
    let mut store = store_with_user_and_plan();
    let obs = ProviderObservation {
        customer: Some(ProviderCustomer {
            id: "cus_1".to_string(),
            email: Some("a@x.com".to_string()),
        }),
        subscription: None,
    };
    let (resp, effects) = confirm(
        &mut store,
        "u1",
        &obs,
        "free-id",
        "sub-local-1".to_string(),
        1700000000,
    )
    .unwrap();
    assert_eq!(resp.plan_id, "free-id");
    assert_eq!(resp.current_period_end, 0);
    assert!(effects.is_empty());
    assert!(store.subscriptions.is_empty());
}

#[test]
fn confirm_elapsed_period_counts_as_inactive() {
    let mut store = store_with_user_and_plan();
    let mut obs = active_obs(false);
    obs.subscription.as_mut().unwrap().current_period_end = 1000;
    let (resp, effects) = confirm(
        &mut store,
        "u1",
        &obs,
        "free-id",
        "sub-local-1".to_string(),
        1700000000,
    )
    .unwrap();
    assert_eq!(resp.plan_id, "free-id");
    assert_eq!(resp.current_period_end, 0);
    assert!(effects.is_empty());
    assert!(store.subscriptions.is_empty());
}

#[test]
fn confirm_active_subscription_creates_row_and_membership() {
    // Scenario: active, non-cancelling provider subscription for prod_123
    // mapped to the Pro plan with period end 1893456000.
    let mut store = store_with_user_and_plan();
    let obs = active_obs(false);
    let (resp, effects) = confirm(
        &mut store,
        "u1",
        &obs,
        "free-id",
        "sub-local-1".to_string(),
        1700000000,
    )
    .unwrap();
    assert_eq!(resp.plan_id, "pro-id");
    assert_eq!(resp.current_period_end, 1893456000);
    assert_eq!(effects.len(), 2);
    assert!(matches!(effects[0], StoreEffect::CreateSubscription(_)));
    assert!(matches!(effects[1], StoreEffect::AddMembership(_)));
    assert_eq!(store.subscriptions.len(), 1);
    let row = &store.subscriptions[0];
    assert_eq!(row.id, "sub-local-1");
    assert_eq!(row.entity_id, "u1");
    assert_eq!(row.entity_type, EntityKind::User);
    assert_eq!(row.plan_id, "pro-id");
    assert_eq!(row.status, SubStatus::Active);
    assert_eq!(row.provider_subscription_id, "sub_prov_1");
    assert_eq!(row.current_period_end, 1893456000);
    assert_eq!(store.memberships.len(), 1);
    assert_eq!(store.memberships[0].user_id, "u1");
    assert_eq!(store.memberships[0].entity_id, "u1");
    assert_eq!(store.memberships[0].role, Role::Owner);
}

#[test]
fn confirm_twice_writes_once() {
    // Idempotency: the second pass with unchanged provider state leaves one
    // row and performs no write.
    let mut store = store_with_user_and_plan();
    let obs = active_obs(false);
    let now = 1700000000;
    let (resp1, effects1) = confirm(
        &mut store,
        "u1",
        &obs,
        "free-id",
        "sub-local-1".to_string(),
        now,
    )
    .unwrap();
    assert_eq!(effects1.len(), 2);
    let (resp2, effects2) = confirm(
        &mut store,
        "u1",
        &obs,
        "free-id",
        "sub-local-2".to_string(),
        now,
    )
    .unwrap();
    assert_eq!(resp2.plan_id, resp1.plan_id);
    assert_eq!(resp2.current_period_end, resp1.current_period_end);
    assert!(effects2.is_empty());
    assert_eq!(store.subscriptions.len(), 1);
    assert_eq!(store.memberships.len(), 1);
}

#[test]
fn confirm_repairs_missing_membership_without_duplicating() {
    // Self-healing: the subscription row exists but no membership does.
    let mut store = store_with_user_and_plan();
    store.subscriptions.push(Subscription {
        id: "sub-local-1".to_string(),
        entity_id: "u1".to_string(),
        entity_type: EntityKind::User,
        plan_id: "pro-id".to_string(),
        status: SubStatus::Active,
        provider_subscription_id: "sub_prov_1".to_string(),
        current_period_end: 1893456000,
        created_at: 1000,
    });
    let obs = active_obs(false);
    let now = 1700000000;
    let (_, effects1) = confirm(
        &mut store,
        "u1",
        &obs,
        "free-id",
        "sub-local-9".to_string(),
        now,
    )
    .unwrap();
    assert_eq!(effects1.len(), 1);
    assert!(matches!(effects1[0], StoreEffect::AddMembership(_)));
    assert_eq!(store.memberships.len(), 1);
    let (_, effects2) = confirm(
        &mut store,
        "u1",
        &obs,
        "free-id",
        "sub-local-8".to_string(),
        now,
    )
    .unwrap();
    assert!(effects2.is_empty());
    assert_eq!(store.memberships.len(), 1);
    assert_eq!(store.subscriptions.len(), 1);
}

#[test]
fn confirm_marks_cancelling_subscription() {
    let mut store = store_with_user_and_plan();
    store.subscriptions.push(Subscription {
        id: "sub-local-1".to_string(),
        entity_id: "u1".to_string(),
        entity_type: EntityKind::User,
        plan_id: "pro-id".to_string(),
        status: SubStatus::Active,
        provider_subscription_id: "sub_prov_1".to_string(),
        current_period_end: 1893456000,
        created_at: 1000,
    });
    store.memberships.push(UserMembership {
        user_id: "u1".to_string(),
        entity_id: "u1".to_string(),
        entity_type: EntityKind::User,
        role: Role::Owner,
        created_at: 1000,
    });
    let obs = active_obs(true);
    let (resp, effects) = confirm(
        &mut store,
        "u1",
        &obs,
        "free-id",
        "sub-local-9".to_string(),
        1700000000,
    )
    .unwrap();
    assert_eq!(resp.plan_id, "pro-id");
    assert_eq!(effects.len(), 1);
    assert!(matches!(effects[0], StoreEffect::UpdateSubscription { .. }));
    assert_eq!(store.subscriptions[0].status, SubStatus::Cancelling);
}

#[test]
fn confirm_updates_row_when_plan_changed() {
    let mut store = store_with_user_and_plan();
    store.subscriptions.push(Subscription {
        id: "sub-local-1".to_string(),
        entity_id: "u1".to_string(),
        entity_type: EntityKind::User,
        plan_id: "old-plan-id".to_string(),
        status: SubStatus::Active,
        provider_subscription_id: "sub_prov_0".to_string(),
        current_period_end: 1700000500,
        created_at: 1000,
    });
    store.memberships.push(UserMembership {
        user_id: "u1".to_string(),
        entity_id: "u1".to_string(),
        entity_type: EntityKind::User,
        role: Role::Owner,
        created_at: 1000,
    });
    let obs = active_obs(false);
    let (resp, effects) = confirm(
        &mut store,
        "u1",
        &obs,
        "free-id",
        "sub-local-9".to_string(),
        1700000000,
    )
    .unwrap();
    assert_eq!(resp.plan_id, "pro-id");
    assert_eq!(effects.len(), 1);
    match &effects[0] {
        StoreEffect::UpdateSubscription { id, updates } => {
            assert_eq!(id, "sub-local-1");
            assert_eq!(updates.plan_id.as_deref(), Some("pro-id"));
            assert_eq!(updates.status, Some(SubStatus::Active));
            assert_eq!(updates.provider_subscription_id.as_deref(), Some("sub_prov_1"));
            assert_eq!(updates.current_period_end, Some(1893456000));
        }
        other => panic!("unexpected effect: {other:?}"),
    }
    let row = &store.subscriptions[0];
    assert_eq!(row.plan_id, "pro-id");
    assert_eq!(row.provider_subscription_id, "sub_prov_1");
    assert_eq!(row.current_period_end, 1893456000);
}

#[test]
fn confirm_unknown_user_is_not_found() {
    let mut store = Store::new();
    store.plans.push(pro_plan());
    let obs = active_obs(false);
    let err = confirm(
        &mut store,
        "u1",
        &obs,
        "free-id",
        "sub-local-1".to_string(),
        1700000000,
    )
    .unwrap_err();
    assert_eq!(err, ApiError::NotFound);
    assert!(store.subscriptions.is_empty());
}

#[test]
fn confirm_unmapped_product_is_internal_error() {
    // The catalog being out of sync with the provider is a server error,
    // never a silent default.
    let mut store = Store::new();
    store.users.push(user_u1());
    let obs = active_obs(false);
    let err = confirm(
        &mut store,
        "u1",
        &obs,
        "free-id",
        "sub-local-1".to_string(),
        1700000000,
    )
    .unwrap_err();
    assert_eq!(err, ApiError::Internal);
    assert!(store.subscriptions.is_empty());
}
