use vstd::prelude::*;

verus! {

// ---------------------------------------------------------------------------
// Enumerations
// ---------------------------------------------------------------------------

/// The kind of billable entity a subscription or membership is attached to.
/// Only `User` is exercised today; the schema anticipates team billing.
#[derive(Clone, Copy, Debug, PartialEq, Eq, Structural)]
pub enum EntityKind {
    User,
    Team,
}

/// Local subscription lifecycle status. A row is never hard-deleted; it is
/// closed by moving to `Cancelled`.
#[derive(Clone, Copy, Debug, PartialEq, Eq, Structural)]
pub enum SubStatus {
    Active,
    Cancelling,
    Cancelled,
}

/// Role a membership grants over an entity.
#[derive(Clone, Copy, Debug, PartialEq, Eq, Structural)]
pub enum Role {
    Owner,
}

// ---------------------------------------------------------------------------
// Store rows
// ---------------------------------------------------------------------------

/// Identity anchor; created on first authenticated contact or registration.
/// Timestamps throughout the library are seconds since the Unix epoch.
#[derive(Debug)]
pub struct User {
    pub id: String,
    pub email: String,
    pub created_at: i64,
    /// Never persisted; carries a freshly minted token in responses.
    pub auth_token: Option<String>,
}

pub struct UserModel {
    pub id: Seq<char>,
    pub email: Seq<char>,
    pub created_at: i64,
    pub auth_token: Option<Seq<char>>,
}

impl View for User {
    type V = UserModel;

    open spec fn view(&self) -> UserModel {
        UserModel {
            id: self.id@,
            email: self.email@,
            created_at: self.created_at,
            auth_token: self.auth_token.deep_view(),
        }
    }
}

impl DeepView for User {
    type V = UserModel;

    open spec fn deep_view(&self) -> UserModel {
        self.view()
    }
}

/// Catalog row for a pricing tier. `stripe_id` is the join key to the payment
/// provider's product id.
#[derive(Debug)]
pub struct Plan {
    pub id: String,
    pub name: String,
    pub max_pins: i32,
    pub features: Vec<String>,
    pub created_at: i64,
    pub stripe_id: Option<String>,
}

pub struct PlanModel {
    pub id: Seq<char>,
    pub name: Seq<char>,
    pub max_pins: i32,
    pub features: Seq<Seq<char>>,
    pub created_at: i64,
    pub stripe_id: Option<Seq<char>>,
}

impl View for Plan {
    type V = PlanModel;

    open spec fn view(&self) -> PlanModel {
        PlanModel {
            id: self.id@,
            name: self.name@,
            max_pins: self.max_pins,
            features: self.features.deep_view(),
            created_at: self.created_at,
            stripe_id: self.stripe_id.deep_view(),
        }
    }
}

impl DeepView for Plan {
    type V = PlanModel;

    open spec fn deep_view(&self) -> PlanModel {
        self.view()
    }
}

/// Local billing state for one `(entity_id, entity_type)` pair. The store
/// invariant keeps at most one row per pair.
#[derive(Debug)]
pub struct Subscription {
    pub id: String,
    pub entity_id: String,
    pub entity_type: EntityKind,
    pub plan_id: String,
    pub status: SubStatus,
    pub provider_subscription_id: String,
    pub current_period_end: i64,
    pub created_at: i64,
}

pub struct SubscriptionModel {
    pub id: Seq<char>,
    pub entity_id: Seq<char>,
    pub entity_type: EntityKind,
    pub plan_id: Seq<char>,
    pub status: SubStatus,
    pub provider_subscription_id: Seq<char>,
    pub current_period_end: i64,
    pub created_at: i64,
}

impl View for Subscription {
    type V = SubscriptionModel;

    open spec fn view(&self) -> SubscriptionModel {
        SubscriptionModel {
            id: self.id@,
            entity_id: self.entity_id@,
            entity_type: self.entity_type,
            plan_id: self.plan_id@,
            status: self.status,
            provider_subscription_id: self.provider_subscription_id@,
            current_period_end: self.current_period_end,
            created_at: self.created_at,
        }
    }
}

impl DeepView for Subscription {
    type V = SubscriptionModel;

    open spec fn deep_view(&self) -> SubscriptionModel {
        self.view()
    }
}

/// Derived authorization record granting a user a role over a billing entity.
#[derive(Debug)]
pub struct UserMembership {
    pub user_id: String,
    pub entity_id: String,
    pub entity_type: EntityKind,
    pub role: Role,
    pub created_at: i64,
}

pub struct UserMembershipModel {
    pub user_id: Seq<char>,
    pub entity_id: Seq<char>,
    pub entity_type: EntityKind,
    pub role: Role,
    pub created_at: i64,
}

impl View for UserMembership {
    type V = UserMembershipModel;

    open spec fn view(&self) -> UserMembershipModel {
        UserMembershipModel {
            user_id: self.user_id@,
            entity_id: self.entity_id@,
            entity_type: self.entity_type,
            role: self.role,
            created_at: self.created_at,
        }
    }
}

impl DeepView for UserMembership {
    type V = UserMembershipModel;

    open spec fn deep_view(&self) -> UserMembershipModel {
        self.view()
    }
}

/// The per-user settings flags. The premium ones are force-disabled when the
/// user's subscription lapses.
#[derive(Clone, Copy, Debug, PartialEq, Eq, Structural)]
pub struct UserSettingsRequest {
    pub search_history: bool,
    pub autosuggest: bool,
    pub jira_api: bool,
    pub confluence_api: bool,
    pub linear_api: bool,
    pub new_tabs: bool,
    pub metadata: bool,
}

/// One settings row per user.
#[derive(Debug)]
pub struct UserSettings {
    pub user_id: String,
    pub settings_blob: UserSettingsRequest,
    pub created_at: i64,
}

pub struct UserSettingsModel {
    pub user_id: Seq<char>,
    pub settings_blob: UserSettingsRequest,
    pub created_at: i64,
}

impl View for UserSettings {
    type V = UserSettingsModel;

    open spec fn view(&self) -> UserSettingsModel {
        UserSettingsModel {
            user_id: self.user_id@,
            settings_blob: self.settings_blob,
            created_at: self.created_at,
        }
    }
}

impl DeepView for UserSettings {
    type V = UserSettingsModel;

    open spec fn deep_view(&self) -> UserSettingsModel {
        self.view()
    }
}

/// A bookmark. User content, independent of billing.
#[derive(Debug)]
pub struct Link {
    pub id: String,
    pub title: String,
    pub url: String,
    pub icon: Option<String>,
    pub order_index: i32,
    pub owner_type: EntityKind,
    pub owner_id: String,
    pub created_at: i64,
    pub description: Option<String>,
    pub column_type: String,
}

pub struct LinkModel {
    pub id: Seq<char>,
    pub title: Seq<char>,
    pub url: Seq<char>,
    pub icon: Option<Seq<char>>,
    pub order_index: i32,
    pub owner_type: EntityKind,
    pub owner_id: Seq<char>,
    pub created_at: i64,
    pub description: Option<Seq<char>>,
    pub column_type: Seq<char>,
}

impl View for Link {
    type V = LinkModel;

    open spec fn view(&self) -> LinkModel {
        LinkModel {
            id: self.id@,
            title: self.title@,
            url: self.url@,
            icon: self.icon.deep_view(),
            order_index: self.order_index,
            owner_type: self.owner_type,
            owner_id: self.owner_id@,
            created_at: self.created_at,
            description: self.description.deep_view(),
            column_type: self.column_type@,
        }
    }
}

impl DeepView for Link {
    type V = LinkModel;

    open spec fn deep_view(&self) -> LinkModel {
        self.view()
    }
}

/// Throttle record: when a user last sent feedback.
#[derive(Debug)]
pub struct FeedbackTimestamp {
    pub user_id: String,
    pub created_at: i64,
}

pub struct FeedbackTimestampModel {
    pub user_id: Seq<char>,
    pub created_at: i64,
}

impl View for FeedbackTimestamp {
    type V = FeedbackTimestampModel;

    open spec fn view(&self) -> FeedbackTimestampModel {
        FeedbackTimestampModel { user_id: self.user_id@, created_at: self.created_at }
    }
}

impl DeepView for FeedbackTimestamp {
    type V = FeedbackTimestampModel;

    open spec fn deep_view(&self) -> FeedbackTimestampModel {
        self.view()
    }
}

// ---------------------------------------------------------------------------
// Request / response shapes
// ---------------------------------------------------------------------------

/// What the confirm endpoint returns: the resolved plan and the provider's
/// period end as epoch seconds (0 on the free path).
#[derive(Debug)]
pub struct SubscriptionResponse {
    pub plan_id: String,
    pub current_period_end: i64,
}

pub struct SubscriptionResponseModel {
    pub plan_id: Seq<char>,
    pub current_period_end: i64,
}

impl View for SubscriptionResponse {
    type V = SubscriptionResponseModel;

    open spec fn view(&self) -> SubscriptionResponseModel {
        SubscriptionResponseModel {
            plan_id: self.plan_id@,
            current_period_end: self.current_period_end,
        }
    }
}

impl DeepView for SubscriptionResponse {
    type V = SubscriptionResponseModel;

    open spec fn deep_view(&self) -> SubscriptionResponseModel {
        self.view()
    }
}

#[derive(Clone, Debug)]
pub struct CreateUserRequest {
    pub user_id: String,
    pub email: String,
}

#[derive(Clone, Debug)]
pub struct CreateLinkRequest {
    pub url: String,
    pub description: Option<String>,
    pub title: Option<String>,
    pub next_order_index: i32,
    pub owner_type: EntityKind,
    pub owner_id: String,
    pub column_type: String,
}

#[derive(Clone, Debug)]
pub struct UpdateLinkRequest {
    pub id: String,
    pub url: Option<String>,
    pub description: Option<String>,
    pub title: Option<String>,
    pub icon: Option<String>,
    pub column_type: Option<String>,
}

pub struct UpdateLinkRequestModel {
    pub id: Seq<char>,
    pub url: Option<Seq<char>>,
    pub description: Option<Seq<char>>,
    pub title: Option<Seq<char>>,
    pub icon: Option<Seq<char>>,
    pub column_type: Option<Seq<char>>,
}

impl View for UpdateLinkRequest {
    type V = UpdateLinkRequestModel;

    open spec fn view(&self) -> UpdateLinkRequestModel {
        UpdateLinkRequestModel {
            id: self.id@,
            url: self.url.deep_view(),
            description: self.description.deep_view(),
            title: self.title.deep_view(),
            icon: self.icon.deep_view(),
            column_type: self.column_type.deep_view(),
        }
    }
}

/// The fields of a link row that an update request replaces, when present.
pub open spec fn spec_apply_link_update(l: LinkModel, u: UpdateLinkRequestModel) -> LinkModel {
    LinkModel {
        url: if u.url is Some {
            u.url->Some_0
        } else {
            l.url
        },
        description: if u.description is Some {
            u.description
        } else {
            l.description
        },
        title: if u.title is Some {
            u.title->Some_0
        } else {
            l.title
        },
        icon: if u.icon is Some {
            u.icon
        } else {
            l.icon
        },
        column_type: if u.column_type is Some {
            u.column_type->Some_0
        } else {
            l.column_type
        },
        ..l
    }
}

/// Partial update of a subscription row: each field is replaced only when
/// present, so an update never clobbers fields it does not name.
#[derive(Clone, Debug)]
pub struct SubscriptionUpdate {
    pub plan_id: Option<String>,
    pub status: Option<SubStatus>,
    pub provider_subscription_id: Option<String>,
    pub current_period_end: Option<i64>,
}

pub struct SubscriptionUpdateModel {
    pub plan_id: Option<Seq<char>>,
    pub status: Option<SubStatus>,
    pub provider_subscription_id: Option<Seq<char>>,
    pub current_period_end: Option<i64>,
}

impl View for SubscriptionUpdate {
    type V = SubscriptionUpdateModel;

    open spec fn view(&self) -> SubscriptionUpdateModel {
        SubscriptionUpdateModel {
            plan_id: self.plan_id.deep_view(),
            status: self.status,
            provider_subscription_id: self.provider_subscription_id.deep_view(),
            current_period_end: self.current_period_end,
        }
    }
}

/// The subscription row an update request produces.
pub open spec fn spec_apply_sub_update(
    s: SubscriptionModel,
    u: SubscriptionUpdateModel,
) -> SubscriptionModel {
    SubscriptionModel {
        plan_id: if u.plan_id is Some {
            u.plan_id->Some_0
        } else {
            s.plan_id
        },
        status: if u.status is Some {
            u.status->Some_0
        } else {
            s.status
        },
        provider_subscription_id: if u.provider_subscription_id is Some {
            u.provider_subscription_id->Some_0
        } else {
            s.provider_subscription_id
        },
        current_period_end: if u.current_period_end is Some {
            u.current_period_end->Some_0
        } else {
            s.current_period_end
        },
        ..s
    }
}

/// Page metadata fetched for a link.
#[derive(Clone, Debug)]
pub struct Metadata {
    pub title: Option<String>,
    pub description: Option<String>,
    pub favicon: Option<String>,
    pub mime_type: Option<String>,
}

/// Cancellation feedback a user may attach to a cancel request. The reason is
/// carried as plain text and converted to the provider's enumeration at the
/// call site.
#[derive(Clone, Debug)]
pub struct FeedbackRequest {
    pub reasons: Option<String>,
    pub feedback_comment: Option<String>,
}

#[derive(Clone, Debug)]
pub struct StagingLoginRequest {
    pub password: String,
}

/// The aggregate the user-data endpoint returns: the user (carrying a fresh
/// token), the resolved subscription and plan, the settings row, and the
/// user's links.
#[derive(Debug)]
pub struct UserDataResponse {
    pub user: User,
    pub subscription: Option<SubscriptionResponse>,
    pub plan: Option<Plan>,
    pub settings: Option<UserSettings>,
    pub links: Vec<Link>,
}

pub struct UserDataResponseModel {
    pub user: UserModel,
    pub subscription: Option<SubscriptionResponseModel>,
    pub plan: Option<PlanModel>,
    pub settings: Option<UserSettingsModel>,
    pub links: Seq<LinkModel>,
}

impl View for UserDataResponse {
    type V = UserDataResponseModel;

    open spec fn view(&self) -> UserDataResponseModel {
        UserDataResponseModel {
            user: self.user@,
            subscription: self.subscription.deep_view(),
            plan: self.plan.deep_view(),
            settings: self.settings.deep_view(),
            links: self.links.deep_view(),
        }
    }
}

/// Identity resolved from a validated token, attached to each request.
#[derive(Clone, Debug)]
pub struct UserContext {
    pub user_id: String,
    pub email: String,
}

pub struct UserContextModel {
    pub user_id: Seq<char>,
    pub email: Seq<char>,
}

impl View for UserContext {
    type V = UserContextModel;

    open spec fn view(&self) -> UserContextModel {
        UserContextModel { user_id: self.user_id@, email: self.email@ }
    }
}

// ---------------------------------------------------------------------------
// Search-suggestion shapes
// ---------------------------------------------------------------------------

/// One suggested query.
#[derive(Clone, Debug)]
pub struct Suggestion {
    pub query: String,
}

/// Echo of the query a suggestion response answers.
#[derive(Clone, Debug)]
pub struct Query {
    pub original: String,
}

/// The shape of the suggestion provider's answer.
#[derive(Clone, Debug)]
pub struct SuggestResponse {
    pub response_type: String,
    pub query: Query,
    pub results: Vec<Suggestion>,
}

#[derive(Clone, Debug)]
pub struct SuggestionResponse {
    pub suggestions: Vec<Suggestion>,
}

// ---------------------------------------------------------------------------
// Cloning
//
// The row types are cloned by hand so that each clone carries a contract: the
// copy has the same view as the original. (A derived clone would say nothing.)
// ---------------------------------------------------------------------------

/// Clone an optional string, keeping its view.
pub fn clone_opt_string(o: &Option<String>) -> (r: Option<String>)
    ensures
        r.deep_view() == o.deep_view(),
{
    match o {
        Some(s) => Some(s.clone()),
        None => None,
    }
}

/// Clone a vector of strings, keeping its view.
pub fn clone_string_vec(v: &Vec<String>) -> (r: Vec<String>)
    ensures
        r.deep_view() == v.deep_view(),
{
    let mut out: Vec<String> = Vec::new();
    let n = v.len();
    let mut i: usize = 0;
    while i < n
        invariant
            n == v.len(),
            i <= n,
            out.len() == i,
            forall|j: int| 0 <= j < i ==> out.deep_view()[j] == v.deep_view()[j],
        decreases n - i,
    {
        out.push(v[i].clone());
        i = i + 1;
    }
    proof {
        assert(out.deep_view() =~= v.deep_view());
    }
    out
}

impl Clone for User {
    fn clone(&self) -> (r: Self)
        ensures
            r@ == self@,
    {
        User {
            id: self.id.clone(),
            email: self.email.clone(),
            created_at: self.created_at,
            auth_token: clone_opt_string(&self.auth_token),
        }
    }
}

impl Clone for Plan {
    fn clone(&self) -> (r: Self)
        ensures
            r@ == self@,
    {
        Plan {
            id: self.id.clone(),
            name: self.name.clone(),
            max_pins: self.max_pins,
            features: clone_string_vec(&self.features),
            created_at: self.created_at,
            stripe_id: clone_opt_string(&self.stripe_id),
        }
    }
}

impl Clone for Subscription {
    fn clone(&self) -> (r: Self)
        ensures
            r@ == self@,
    {
        Subscription {
            id: self.id.clone(),
            entity_id: self.entity_id.clone(),
            entity_type: self.entity_type,
            plan_id: self.plan_id.clone(),
            status: self.status,
            provider_subscription_id: self.provider_subscription_id.clone(),
            current_period_end: self.current_period_end,
            created_at: self.created_at,
        }
    }
}

impl Clone for UserMembership {
    fn clone(&self) -> (r: Self)
        ensures
            r@ == self@,
    {
        UserMembership {
            user_id: self.user_id.clone(),
            entity_id: self.entity_id.clone(),
            entity_type: self.entity_type,
            role: self.role,
            created_at: self.created_at,
        }
    }
}

impl Clone for UserSettings {
    fn clone(&self) -> (r: Self)
        ensures
            r@ == self@,
    {
        UserSettings {
            user_id: self.user_id.clone(),
            settings_blob: self.settings_blob,
            created_at: self.created_at,
        }
    }
}

impl Clone for Link {
    fn clone(&self) -> (r: Self)
        ensures
            r@ == self@,
    {
        Link {
            id: self.id.clone(),
            title: self.title.clone(),
            url: self.url.clone(),
            icon: clone_opt_string(&self.icon),
            order_index: self.order_index,
            owner_type: self.owner_type,
            owner_id: self.owner_id.clone(),
            created_at: self.created_at,
            description: clone_opt_string(&self.description),
            column_type: self.column_type.clone(),
        }
    }
}

impl Clone for FeedbackTimestamp {
    fn clone(&self) -> (r: Self)
        ensures
            r@ == self@,
    {
        FeedbackTimestamp { user_id: self.user_id.clone(), created_at: self.created_at }
    }
}

impl Clone for SubscriptionResponse {
    fn clone(&self) -> (r: Self)
        ensures
            r@ == self@,
    {
        SubscriptionResponse {
            plan_id: self.plan_id.clone(),
            current_period_end: self.current_period_end,
        }
    }
}

} // verus!
