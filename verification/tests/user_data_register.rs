use newtab_server::engine::{register_user, user_data, StoreEffect};
use newtab_server::errors::ApiError;
use newtab_server::model::{EntityKind, Link, Plan, User, UserSettings, UserSettingsRequest};
use newtab_server::provider::{
    ProviderCustomer, ProviderObservation, ProviderStatus, ProviderSubscription,
};
use newtab_server::settings::{default_settings, disable_premium_features};
use newtab_server::store::Store;

fn plans() -> Vec<Plan> {
    vec![
        Plan {
            id: "free-id".to_string(),
            name: "Free".to_string(),
            max_pins: 10,
            features: vec![],
            created_at: 1,
            stripe_id: None,
        },
        Plan {
            id: "pro-id".to_string(),
            name: "Pro".to_string(),
            max_pins: 100,
            features: vec![],
            created_at: 1,
            stripe_id: Some("prod_123".to_string()),
        },
    ]
}

fn no_provider() -> ProviderObservation {
    ProviderObservation { customer: None, subscription: None }
}

fn active_provider() -> ProviderObservation {
    ProviderObservation {
        customer: Some(ProviderCustomer {
            id: "cus_1".to_string(),
            email: Some("a@x.com".to_string()),
        }),
        subscription: Some(ProviderSubscription {
            id: "sub_prov_1".to_string(),
            status: ProviderStatus::Active,
            cancel_at_period_end: false,
            current_period_end: 1893456000,
            product_id: Some("prod_123".to_string()),
        }),
    }
}

#[test]
fn premium_settings_flip_off() {
    let mut blob = UserSettingsRequest {
        search_history: true,
        autosuggest: true,
        jira_api: true,
        confluence_api: true,
        linear_api: true,
        new_tabs: true,
        metadata: true,
    };
    disable_premium_features(&mut blob);
    assert!(blob.search_history);
    assert!(blob.new_tabs);
    assert!(!blob.autosuggest);
    assert!(!blob.jira_api);
    assert!(!blob.confluence_api);
    assert!(!blob.linear_api);
    assert!(!blob.metadata);
}

#[test]
fn registration_creates_user_and_default_settings() {
    let mut store = Store::new();
    let (user, effects) = register_user(&mut store, "u1", "a@x.com", 1000).unwrap();
    assert_eq!(user.id, "u1");
    assert_eq!(user.email, "a@x.com");
    assert_eq!(effects.len(), 2);
    assert!(matches!(effects[0], StoreEffect::CreateUser(_)));
    assert!(matches!(effects[1], StoreEffect::CreateSettings(_)));
    assert_eq!(store.users.len(), 1);
    let settings = store.get_user_settings("u1").unwrap();
    assert_eq!(settings.settings_blob, default_settings());
    // A second registration with the same id is a duplicate create.
    assert_eq!(
        register_user(&mut store, "u1", "b@x.com", 2000).unwrap_err(),
        ApiError::Conflict
    );
    assert_eq!(store.users.len(), 1);
}

#[test]
fn user_data_self_heals_a_missing_user() {
    let mut store = Store::new();
    store.plans = plans();
    let (res, effects) = user_data(&mut store, "u1", "a@x.com", &no_provider(), "free-id", 1000);
    let (resp, plan_name) = res.unwrap();
    assert_eq!(resp.user.id, "u1");
    assert_eq!(plan_name, "Free");
    let sub = resp.subscription.unwrap();
    assert_eq!(sub.plan_id, "free-id");
    assert_eq!(sub.current_period_end, 0);
    assert_eq!(resp.plan.unwrap().id, "free-id");
    // The fresh user got the default settings row (premium already off).
    assert!(resp.settings.is_some());
    assert!(store.get_user("u1").is_some());
    assert!(store.get_user_settings("u1").is_some());
    assert_eq!(effects.len(), 3);
    assert!(matches!(effects[0], StoreEffect::CreateUser(_)));
    assert!(matches!(effects[1], StoreEffect::CreateSettings(_)));
    assert!(matches!(effects[2], StoreEffect::UpdateSettings { .. }));
}

#[test]
fn user_data_disables_premium_settings_when_subscription_lapsed() {
    let mut store = Store::new();
    store.plans = plans();
    store.users.push(User {
        id: "u1".to_string(),
        email: "a@x.com".to_string(),
        created_at: 1,
        auth_token: None,
    });
    store.settings.push(UserSettings {
        user_id: "u1".to_string(),
        settings_blob: UserSettingsRequest {
            search_history: true,
            autosuggest: true,
            jira_api: true,
            confluence_api: false,
            linear_api: false,
            new_tabs: true,
            metadata: true,
        },
        created_at: 1,
    });
    let (res, effects) = user_data(&mut store, "u1", "a@x.com", &no_provider(), "free-id", 1000);
    let (resp, _) = res.unwrap();
    let blob = resp.settings.unwrap().settings_blob;
    assert!(blob.search_history);
    assert!(!blob.autosuggest);
    assert!(!blob.jira_api);
    assert!(!blob.metadata);
    // The store row was force-updated too.
    let stored = store.get_user_settings("u1").unwrap().settings_blob;
    assert!(!stored.autosuggest);
    assert!(stored.search_history);
    assert_eq!(effects.len(), 1);
    assert!(matches!(effects[0], StoreEffect::UpdateSettings { .. }));
}

#[test]
fn user_data_resolves_the_paid_plan_and_keeps_settings() {
    let mut store = Store::new();
    store.plans = plans();
    store.users.push(User {
        id: "u1".to_string(),
        email: "a@x.com".to_string(),
        created_at: 1,
        auth_token: None,
    });
    store.settings.push(UserSettings {
        user_id: "u1".to_string(),
        settings_blob: UserSettingsRequest {
            search_history: false,
            autosuggest: true,
            jira_api: false,
            confluence_api: false,
            linear_api: false,
            new_tabs: false,
            metadata: true,
        },
        created_at: 1,
    });
    store.links.push(Link {
        id: "l1".to_string(),
        title: "t".to_string(),
        url: "https://example.com".to_string(),
        icon: None,
        order_index: 0,
        owner_type: EntityKind::User,
        owner_id: "u1".to_string(),
        created_at: 1,
        description: None,
        column_type: "left".to_string(),
    });
    let now = 1700000000;
    let (res, effects) = user_data(&mut store, "u1", "a@x.com", &active_provider(), "free-id", now);
    let (resp, plan_name) = res.unwrap();
    assert_eq!(plan_name, "Pro");
    let sub = resp.subscription.unwrap();
    assert_eq!(sub.plan_id, "pro-id");
    assert_eq!(sub.current_period_end, 1893456000);
    assert_eq!(resp.plan.unwrap().id, "pro-id");
    // An active subscription leaves the premium settings alone.
    assert!(resp.settings.unwrap().settings_blob.autosuggest);
    assert_eq!(resp.links.len(), 1);
    assert!(effects.is_empty());
}

#[test]
fn user_data_creates_default_settings_for_existing_user() {
    let mut store = Store::new();
    store.plans = plans();
    store.users.push(User {
        id: "u1".to_string(),
        email: "a@x.com".to_string(),
        created_at: 1,
        auth_token: None,
    });
    let (res, effects) = user_data(&mut store, "u1", "a@x.com", &no_provider(), "free-id", 1000);
    let (resp, _) = res.unwrap();
    assert_eq!(resp.settings.unwrap().settings_blob, default_settings());
    assert!(store.get_user_settings("u1").is_some());
    assert_eq!(effects.len(), 2);
    assert!(matches!(effects[0], StoreEffect::CreateSettings(_)));
    assert!(matches!(effects[1], StoreEffect::UpdateSettings { .. }));
}

#[test]
fn user_data_without_free_plan_row_is_internal() {
    let mut store = Store::new();
    let (res, _) = user_data(&mut store, "u1", "a@x.com", &no_provider(), "free-id", 1000);
    assert_eq!(res.unwrap_err(), ApiError::Internal);
    // The self-healed user row stays even though the request failed.
    assert!(store.get_user("u1").is_some());
}
