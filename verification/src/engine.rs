use vstd::prelude::*;
use crate::errors::ApiError;
use crate::model::{
    User, UserModel, Subscription, SubscriptionModel, UserMembership, UserMembershipModel,
    UserSettings, UserSettingsModel, UserSettingsRequest, EntityKind, SubStatus, Role,
    SubscriptionResponse, SubscriptionResponseModel, SubscriptionUpdate, SubscriptionUpdateModel,
    spec_apply_sub_update, Plan, PlanModel, UserDataResponse, UserDataResponseModel,
};

use crate::provider::{
    ProviderObservation, ProviderObservationModel, ProviderSubscriptionModel, ProviderState,
    ProviderStatus, spec_classify, spec_free_state, classify_provider,
};
use crate::store::{
    Store, StoreModel, find_user, find_user_by_email, find_plan, find_plan_by_stripe, find_sub,
    find_sub_idx, find_sub_by_id, find_sub_by_id_idx, find_settings, find_settings_idx,
    memberships_of, links_of, spec_remove_memberships_of_user, lemma_first_match_idx,
};
use crate::settings::{spec_default_settings, spec_disable_premium, default_settings,
    disable_premium_features};
use crate::str_eq;

verus! {

broadcast use crate::lemma_vec_deep_view_len, crate::lemma_vec_deep_view_index;

// ---------------------------------------------------------------------------
// Store effects
//
// Reconciliation runs against the in-memory store and reports the writes it
// performed, so a persistence layer can replay exactly those writes against
// its own backend.
// ---------------------------------------------------------------------------

#[derive(Debug)]
pub enum StoreEffect {
    CreateUser(User),
    CreateSubscription(Subscription),
    UpdateSubscription { id: String, updates: SubscriptionUpdate },
    AddMembership(UserMembership),
    RemoveMembershipsForUser { user_id: String },
    CreateSettings(UserSettings),
    UpdateSettings { user_id: String, settings_blob: UserSettingsRequest },
}

pub enum StoreEffectModel {
    CreateUser(UserModel),
    CreateSubscription(SubscriptionModel),
    UpdateSubscription { id: Seq<char>, updates: SubscriptionUpdateModel },
    AddMembership(UserMembershipModel),
    RemoveMembershipsForUser { user_id: Seq<char> },
    CreateSettings(UserSettingsModel),
    UpdateSettings { user_id: Seq<char>, settings_blob: UserSettingsRequest },
}

impl View for StoreEffect {
    type V = StoreEffectModel;

    open spec fn view(&self) -> StoreEffectModel {
        match self {
            StoreEffect::CreateUser(u) => StoreEffectModel::CreateUser(u@),
            StoreEffect::CreateSubscription(s) => StoreEffectModel::CreateSubscription(s@),
            StoreEffect::UpdateSubscription { id, updates } => StoreEffectModel::UpdateSubscription {
                id: id@,
                updates: updates@,
            },
            StoreEffect::AddMembership(m) => StoreEffectModel::AddMembership(m@),
            StoreEffect::RemoveMembershipsForUser { user_id } => StoreEffectModel::RemoveMembershipsForUser {
                user_id: user_id@,
            },
            StoreEffect::CreateSettings(s) => StoreEffectModel::CreateSettings(s@),
            StoreEffect::UpdateSettings { user_id, settings_blob } => StoreEffectModel::UpdateSettings {
                user_id: user_id@,
                settings_blob: *settings_blob,
            },
        }
    }
}

impl DeepView for StoreEffect {
    type V = StoreEffectModel;

    open spec fn deep_view(&self) -> StoreEffectModel {
        self.view()
    }
}

// ---------------------------------------------------------------------------
// Confirm
// ---------------------------------------------------------------------------

/// The local status a provider state converges to.
pub open spec fn spec_target_status(state: ProviderState) -> SubStatus {
    if state is ActiveCancelling {
        SubStatus::Cancelling
    } else {
        SubStatus::Active
    }
}

/// The dirty-check: an existing row is written only when the plan changed,
/// the status does not match the target, or the provider is cancelling and
/// the row does not say so yet. A no-op reconciliation must not write.
pub open spec fn spec_should_update(
    sub: SubscriptionModel,
    plan_id: Seq<char>,
    state: ProviderState,
) -> bool {
    ||| sub.plan_id != plan_id
    ||| sub.status != spec_target_status(state)
    ||| (state is ActiveCancelling && !(sub.status is Cancelling))
}

/// The row Confirm creates when the user has no local subscription yet.
pub open spec fn spec_new_subscription(
    user_id: Seq<char>,
    plan_id: Seq<char>,
    psub: ProviderSubscriptionModel,
    state: ProviderState,
    fresh_sub_id: Seq<char>,
    now: i64,
) -> SubscriptionModel {
    SubscriptionModel {
        id: fresh_sub_id,
        entity_id: user_id,
        entity_type: EntityKind::User,
        plan_id: plan_id,
        status: spec_target_status(state),
        provider_subscription_id: psub.id,
        current_period_end: psub.current_period_end,
        created_at: now,
    }
}

/// The partial update Confirm applies when the dirty-check fires.
pub open spec fn spec_confirm_update(
    plan_id: Seq<char>,
    psub: ProviderSubscriptionModel,
    state: ProviderState,
) -> SubscriptionUpdateModel {
    SubscriptionUpdateModel {
        plan_id: Some(plan_id),
        status: Some(spec_target_status(state)),
        provider_subscription_id: Some(psub.id),
        current_period_end: Some(psub.current_period_end),
    }
}

/// The owner membership Confirm grants a user over their own entity.
pub open spec fn spec_new_membership(user_id: Seq<char>, now: i64) -> UserMembershipModel {
    UserMembershipModel {
        user_id: user_id,
        entity_id: user_id,
        entity_type: EntityKind::User,
        role: Role::Owner,
        created_at: now,
    }
}

/// Everything one Confirm pass yields: the response (or error), the store it
/// leaves behind, and the writes it performed.
pub struct ConfirmOutcome {
    pub res: Result<SubscriptionResponseModel, ApiError>,
    pub store: StoreModel,
    pub effects: Seq<StoreEffectModel>,
}

/// The functional model of Confirm. Free-plan states answer without writing.
/// Active states resolve the plan through the catalog, converge the local
/// subscription row (dirty-checked), and repair the owner membership.
pub open spec fn spec_confirm(
    m: StoreModel,
    user_id: Seq<char>,
    obs: ProviderObservationModel,
    free_plan_id: Seq<char>,
    fresh_sub_id: Seq<char>,
    now: i64,
) -> ConfirmOutcome {
    let state = spec_classify(obs, now);
    if spec_free_state(state) {
        ConfirmOutcome {
            res: Ok(
                SubscriptionResponseModel { plan_id: free_plan_id, current_period_end: 0 },
            ),
            store: m,
            effects: Seq::empty(),
        }
    } else {
        let psub = obs.subscription->Some_0;
        if psub.product_id is None {
            ConfirmOutcome { res: Err(ApiError::Internal), store: m, effects: Seq::empty() }
        } else if find_user(m.users, user_id) is None {
            ConfirmOutcome { res: Err(ApiError::NotFound), store: m, effects: Seq::empty() }
        } else if find_plan_by_stripe(m.plans, psub.product_id->Some_0) is None {
            ConfirmOutcome { res: Err(ApiError::Internal), store: m, effects: Seq::empty() }
        } else {
            let plan = find_plan_by_stripe(m.plans, psub.product_id->Some_0)->Some_0;
            let sub_step: (StoreModel, Seq<StoreEffectModel>) = match find_sub(
                m.subscriptions,
                user_id,
            ) {
                Some(sub) => if spec_should_update(sub, plan.id, state) {
                    (
                        StoreModel {
                            subscriptions: m.subscriptions.update(
                                find_sub_idx(m.subscriptions, user_id),
                                spec_apply_sub_update(sub, spec_confirm_update(plan.id, psub, state)),
                            ),
                            ..m
                        },
                        seq![
                            StoreEffectModel::UpdateSubscription {
                                id: sub.id,
                                updates: spec_confirm_update(plan.id, psub, state),
                            },
                        ],
                    )
                } else {
                    (m, Seq::empty())
                },
                None => (
                    StoreModel {
                        subscriptions: m.subscriptions.push(
                            spec_new_subscription(user_id, plan.id, psub, state, fresh_sub_id, now),
                        ),
                        ..m
                    },
                    seq![
                        StoreEffectModel::CreateSubscription(
                            spec_new_subscription(user_id, plan.id, psub, state, fresh_sub_id, now),
                        ),
                    ],
                ),
            };
            let m1 = sub_step.0;
            let mem_step: (StoreModel, Seq<StoreEffectModel>) = if memberships_of(
                m1.memberships,
                user_id,
            ).len() == 0 {
                (
                    StoreModel { memberships: m1.memberships.push(spec_new_membership(user_id, now)), ..m1 },
                    seq![StoreEffectModel::AddMembership(spec_new_membership(user_id, now))],
                )
            } else {
                (m1, Seq::empty())
            };
            ConfirmOutcome {
                res: Ok(
                    SubscriptionResponseModel {
                        plan_id: plan.id,
                        current_period_end: psub.current_period_end,
                    },
                ),
                store: mem_step.0,
                effects: sub_step.1 + mem_step.1,
            }
        }
    }
}

/// Result of a confirm/cancel call, reduced to views for the contracts.
pub open spec fn res_model(r: Result<SubscriptionResponse, ApiError>) -> Result<
    SubscriptionResponseModel,
    ApiError,
> {
    match r {
        Ok(resp) => Ok(resp@),
        Err(e) => Err(e),
    }
}

/// In a well-formed store, the id of the user's subscription row finds that
/// same row first.
proof fn lemma_user_sub_row_id(m: StoreModel, user_id: Seq<char>)
    requires
        m.wf(),
        0 <= find_sub_idx(m.subscriptions, user_id) < m.subscriptions.len(),
    ensures
        find_sub_by_id_idx(
            m.subscriptions,
            m.subscriptions[find_sub_idx(m.subscriptions, user_id)].id,
        ) == find_sub_idx(m.subscriptions, user_id),
{
    let subs = m.subscriptions;
    let k = find_sub_idx(subs, user_id);
    let id = subs[k].id;
    let pid = |s: SubscriptionModel| s.id == id;
    lemma_first_match_idx(subs, pid);
    let k2 = find_sub_by_id_idx(subs, id);
    assert(pid(subs[k]));
    if k2 < k {
        assert(pid(subs[k2]));
        assert(false);
    }
    if k2 > k {
        assert(!pid(subs[k]));
        assert(false);
    }
}

/// Confirm: resolve the provider's view of this user and converge the store
/// to it.
///
/// On the free-plan states the configured free plan id and a zero period end
/// come back and the store is untouched. On the active states the catalog
/// resolves the provider product, the user's subscription row is created or
/// dirty-check-updated, and a missing owner membership is repaired. The
/// returned effects are exactly the writes performed, in order.
pub fn confirm(
    store: &mut Store,
    user_id: &str,
    obs: &ProviderObservation,
    free_plan_id: &str,
    fresh_sub_id: String,
    now: i64,
) -> (r: Result<(SubscriptionResponse, Vec<StoreEffect>), ApiError>)
    requires
        old(store)@.wf(),
        find_sub_by_id(old(store)@.subscriptions, fresh_sub_id@) is None,
    ensures
        final(store)@.wf(),
        ({
            let outcome = spec_confirm(
                old(store)@,
                user_id@,
                obs@,
                free_plan_id@,
                fresh_sub_id@,
                now,
            );
            &&& final(store)@ == outcome.store
            &&& match r {
                Ok((resp, effects)) => outcome.res == Ok::<SubscriptionResponseModel, ApiError>(
                    resp@,
                ) && effects.deep_view() == outcome.effects,
                Err(e) => outcome.res == Err::<SubscriptionResponseModel, ApiError>(e),
            }
        }),
        spec_free_state(spec_classify(obs@, now)) ==> final(store)@ == old(store)@ && (match r {
            Ok((resp, effects)) => resp@.plan_id == free_plan_id@ && resp@.current_period_end == 0
                && effects@.len() == 0,
            Err(_) => false,
        }),
{
    let state = classify_provider(obs, now);
    let is_free = match state {
        ProviderState::NoCustomer => true,
        ProviderState::NoSubscription => true,
        ProviderState::Inactive => true,
        ProviderState::ActiveCancelling => false,
        ProviderState::ActiveCurrent => false,
    };
    if is_free {
        return Ok(
            (
                SubscriptionResponse { plan_id: free_plan_id.to_owned(), current_period_end: 0 },
                Vec::new(),
            ),
        );
    }
    let psub = match &obs.subscription {
        Some(p) => p,
        None => {
            proof {
                assert(false);
            }
            return Err(ApiError::Internal);
        },
    };
    let product_id = match &psub.product_id {
        Some(p) => p,
        None => {
            return Err(ApiError::Internal);
        },
    };
    if store.get_user(user_id).is_none() {
        return Err(ApiError::NotFound);
    }
    let plan = match store.get_plan_by_stripe_id(product_id.as_str()) {
        Some(p) => p,
        None => {
            return Err(ApiError::Internal);
        },
    };
    let is_canceling = state == ProviderState::ActiveCancelling;
    let target = if is_canceling {
        SubStatus::Cancelling
    } else {
        SubStatus::Active
    };
    let mut effects: Vec<StoreEffect> = Vec::new();
    match store.get_user_subscription(user_id) {
        Some(sub) => {
            let should_update = !str_eq(sub.plan_id.as_str(), plan.id.as_str()) || sub.status
                != target || (is_canceling && sub.status != SubStatus::Cancelling);
            if should_update {
                let updates = SubscriptionUpdate {
                    plan_id: Some(plan.id.clone()),
                    status: Some(target),
                    provider_subscription_id: Some(psub.id.clone()),
                    current_period_end: Some(psub.current_period_end),
                };
                proof {
                    lemma_user_sub_row_id(old(store)@, user_id@);
                }
                match store.update_subscription(sub.id.as_str(), &updates) {
                    Ok(()) => {},
                    Err(_) => {
                        proof {
                            assert(false);
                        }
                        return Err(ApiError::Internal);
                    },
                }
                effects.push(StoreEffect::UpdateSubscription { id: sub.id, updates: updates });
            }
        },
        None => {
            let sub_row = Subscription {
                id: fresh_sub_id,
                entity_id: user_id.to_owned(),
                entity_type: EntityKind::User,
                plan_id: plan.id.clone(),
                status: target,
                provider_subscription_id: psub.id.clone(),
                current_period_end: psub.current_period_end,
                created_at: now,
            };
            let effect_row = sub_row.clone();
            match store.create_subscription(sub_row) {
                Ok(()) => {},
                Err(_) => {
                    proof {
                        assert(false);
                    }
                    return Err(ApiError::Internal);
                },
            }
            effects.push(StoreEffect::CreateSubscription(effect_row));
        },
    }
    let memberships = store.get_user_memberships(user_id);
    if memberships.len() == 0 {
        let membership = UserMembership {
            user_id: user_id.to_owned(),
            entity_id: user_id.to_owned(),
            entity_type: EntityKind::User,
            role: Role::Owner,
            created_at: now,
        };
        let effect_row = membership.clone();
        store.add_member(membership);
        effects.push(StoreEffect::AddMembership(effect_row));
    }
    proof {
        assert(effects.deep_view() =~= spec_confirm(
            old(store)@,
            user_id@,
            obs@,
            free_plan_id@,
            fresh_sub_id@,
            now,
        ).effects);
    }
    Ok(
        (
            SubscriptionResponse {
                plan_id: plan.id,
                current_period_end: psub.current_period_end,
            },
            effects,
        ),
    )
}

// ---------------------------------------------------------------------------
// Laws of Confirm
// ---------------------------------------------------------------------------

/// Confirm keeps the store well-formed: keys stay unique and the one-row-per
/// entity invariant holds, provided the id given for a created row is fresh.
pub proof fn lemma_confirm_preserves_wf(
    m: StoreModel,
    user_id: Seq<char>,
    obs: ProviderObservationModel,
    free_plan_id: Seq<char>,
    fresh_sub_id: Seq<char>,
    now: i64,
)
    requires
        m.wf(),
        find_sub_by_id(m.subscriptions, fresh_sub_id) is None,
    ensures
        spec_confirm(m, user_id, obs, free_plan_id, fresh_sub_id, now).store.wf(),
{
    let state = spec_classify(obs, now);
    let outcome = spec_confirm(m, user_id, obs, free_plan_id, fresh_sub_id, now);
    if !spec_free_state(state) && outcome.res is Ok {
        let psub = obs.subscription->Some_0;
        let plan = find_plan_by_stripe(m.plans, psub.product_id->Some_0)->Some_0;
        match find_sub(m.subscriptions, user_id) {
            Some(sub) => {
                if spec_should_update(sub, plan.id, state) {
                    let k = find_sub_idx(m.subscriptions, user_id);
                    let subs = m.subscriptions;
                    let nsubs = outcome.store.subscriptions;
                    assert forall|a: int| 0 <= a < nsubs.len() implies (#[trigger] nsubs[a]).id
                        == subs[a].id && nsubs[a].entity_id == subs[a].entity_id
                        && nsubs[a].entity_type == subs[a].entity_type by {}
                }
            },
            None => {
                let subs = m.subscriptions;
                let x = spec_new_subscription(user_id, plan.id, psub, state, fresh_sub_id, now);
                let pid = |s: SubscriptionModel| s.id == fresh_sub_id;
                let entity_id = user_id;
                let entity_type = EntityKind::User;
                let pp = |s: SubscriptionModel| s.entity_id == entity_id && s.entity_type
                    == entity_type;
                lemma_first_match_idx(subs, pid);
                lemma_first_match_idx(subs, pp);
                assert forall|a: int, b: int|
                    0 <= a < b < subs.push(x).len() implies ((#[trigger] subs.push(x)[a]).id != (
                #[trigger] subs.push(x)[b]).id && !(subs.push(x)[a].entity_id == subs.push(
                    x,
                )[b].entity_id && subs.push(x)[a].entity_type == subs.push(
                    x,
                )[b].entity_type)) by {
                    if b == subs.len() {
                        assert(!pid(subs[a]));
                        assert(!pp(subs[a]));
                    }
                }
            },
        }
    }
}

/// Confirm is idempotent: a second pass over the store the first pass left,
/// with the provider state unchanged, returns the same answer, leaves the
/// store as it is, and performs no write. With a well-formed store, a
/// successful pass on an active provider state leaves exactly one
/// subscription row for the user: this one, and well-formedness admits no
/// other.
pub proof fn lemma_confirm_idempotent(
    m: StoreModel,
    user_id: Seq<char>,
    obs: ProviderObservationModel,
    free_plan_id: Seq<char>,
    fresh_sub_id1: Seq<char>,
    fresh_sub_id2: Seq<char>,
    now: i64,
)
    requires
        m.wf(),
        find_sub_by_id(m.subscriptions, fresh_sub_id1) is None,
    ensures
        ({
            let o1 = spec_confirm(m, user_id, obs, free_plan_id, fresh_sub_id1, now);
            let o2 = spec_confirm(o1.store, user_id, obs, free_plan_id, fresh_sub_id2, now);
            &&& o2.store == o1.store
            &&& o2.res == o1.res
            &&& o2.effects.len() == 0
            &&& o1.store.wf()
            &&& (!spec_free_state(spec_classify(obs, now)) && o1.res is Ok ==> find_sub(
                o1.store.subscriptions,
                user_id,
            ) is Some)
        }),
{
    lemma_confirm_preserves_wf(m, user_id, obs, free_plan_id, fresh_sub_id1, now);
    let state = spec_classify(obs, now);
    let o1 = spec_confirm(m, user_id, obs, free_plan_id, fresh_sub_id1, now);
    if !spec_free_state(state) && o1.res is Ok {
        let psub = obs.subscription->Some_0;
        let plan = find_plan_by_stripe(m.plans, psub.product_id->Some_0)->Some_0;
        // The subscription row the first pass leaves is converged, so the
        // dirty-check does not fire again.
        match find_sub(m.subscriptions, user_id) {
            Some(sub) => {
                if spec_should_update(sub, plan.id, state) {
                    let k = find_sub_idx(m.subscriptions, user_id);
                    lemma_find_sub_update_same_entity(
                        m.subscriptions,
                        k,
                        spec_apply_sub_update(sub, spec_confirm_update(plan.id, psub, state)),
                        user_id,
                    );
                }
            },
            None => {
                lemma_find_sub_push_fresh(
                    m.subscriptions,
                    spec_new_subscription(user_id, plan.id, psub, state, fresh_sub_id1, now),
                    user_id,
                );
            },
        }
        // The membership repaired by the first pass is still there.
        if memberships_of(m.memberships, user_id).len() == 0 {
            crate::store::lemma_filter_push(
                m.memberships,
                |mm: UserMembershipModel| mm.user_id == user_id,
                spec_new_membership(user_id, now),
            );
            assert(memberships_of(o1.store.memberships, user_id).len() == 1);
        }
    }
}

/// Confirm self-heals a lost membership: when the user's subscription row
/// exists but no membership does, a single successful pass creates exactly
/// one membership row, and a second pass creates no duplicate.
pub proof fn lemma_confirm_self_heals(
    m: StoreModel,
    user_id: Seq<char>,
    obs: ProviderObservationModel,
    free_plan_id: Seq<char>,
    fresh_sub_id1: Seq<char>,
    fresh_sub_id2: Seq<char>,
    now: i64,
)
    requires
        m.wf(),
        find_sub_by_id(m.subscriptions, fresh_sub_id1) is None,
        memberships_of(m.memberships, user_id).len() == 0,
        !spec_free_state(spec_classify(obs, now)),
        spec_confirm(m, user_id, obs, free_plan_id, fresh_sub_id1, now).res is Ok,
    ensures
        ({
            let o1 = spec_confirm(m, user_id, obs, free_plan_id, fresh_sub_id1, now);
            let o2 = spec_confirm(o1.store, user_id, obs, free_plan_id, fresh_sub_id2, now);
            &&& memberships_of(o1.store.memberships, user_id).len() == 1
            &&& o2.store.memberships == o1.store.memberships
        }),
{
    lemma_confirm_idempotent(m, user_id, obs, free_plan_id, fresh_sub_id1, fresh_sub_id2, now);
    crate::store::lemma_filter_push(
        m.memberships,
        |mm: UserMembershipModel| mm.user_id == user_id,
        spec_new_membership(user_id, now),
    );
}

// ---------------------------------------------------------------------------
// Cancel
// ---------------------------------------------------------------------------

/// Cancel's precondition chain, checked in strict order and short-circuiting
/// on the first failure. Local existence is a precondition by design; the
/// provider is authoritative on whether the subscription is still active.
pub open spec fn spec_cancel_check(
    m: StoreModel,
    user_id: Seq<char>,
    email: Seq<char>,
    obs: ProviderObservationModel,
) -> Result<SubscriptionModel, ApiError> {
    if email.len() == 0 || user_id.len() == 0 {
        Err(ApiError::BadRequest)
    } else if find_user(m.users, user_id) is None {
        Err(ApiError::NotFound)
    } else if find_sub(m.subscriptions, user_id) is None {
        Err(ApiError::NotFound)
    } else if obs.customer is None {
        Err(ApiError::Unauthorized)
    } else if obs.subscription is None {
        Err(ApiError::Unauthorized)
    } else if !(obs.subscription->Some_0.status is Active) {
        Err(ApiError::Unauthorized)
    } else {
        Ok(find_sub(m.subscriptions, user_id)->Some_0)
    }
}

/// The update a successful cancellation writes locally: the row is closed,
/// the provider id cleared, and the period end set to now. Locally the
/// cancellation is immediate even though the provider keeps access until
/// period end — an intentional simplification.
pub open spec fn spec_cancel_update(now: i64) -> SubscriptionUpdateModel {
    SubscriptionUpdateModel {
        plan_id: None,
        status: Some(SubStatus::Cancelled),
        provider_subscription_id: Some(Seq::empty()),
        current_period_end: Some(now),
    }
}

pub struct CancelOutcome {
    pub res: Result<(), ApiError>,
    pub store: StoreModel,
    pub effects: Seq<StoreEffectModel>,
}

/// The functional model of Cancel: the precondition chain, the provider's
/// cancel call (whose success the caller reports), the local close, and the
/// removal of every membership of the user across all entities — a broader
/// cleanup than the grant scope, preserved deliberately.
pub open spec fn spec_cancel(
    m: StoreModel,
    user_id: Seq<char>,
    email: Seq<char>,
    obs: ProviderObservationModel,
    provider_cancel_ok: bool,
    now: i64,
) -> CancelOutcome {
    match spec_cancel_check(m, user_id, email, obs) {
        Err(e) => CancelOutcome { res: Err(e), store: m, effects: Seq::empty() },
        Ok(sub) => if !provider_cancel_ok {
            CancelOutcome { res: Err(ApiError::Internal), store: m, effects: Seq::empty() }
        } else {
            let m1 = StoreModel {
                subscriptions: m.subscriptions.update(
                    find_sub_idx(m.subscriptions, user_id),
                    spec_apply_sub_update(sub, spec_cancel_update(now)),
                ),
                ..m
            };
            let m2 = StoreModel {
                memberships: spec_remove_memberships_of_user(m1.memberships, user_id),
                ..m1
            };
            CancelOutcome {
                res: Ok(()),
                store: m2,
                effects: seq![
                    StoreEffectModel::UpdateSubscription {
                        id: sub.id,
                        updates: spec_cancel_update(now),
                    },
                    StoreEffectModel::RemoveMembershipsForUser { user_id: user_id },
                ],
            }
        },
    }
}

/// Cancel's precondition chain against the live store and provider
/// observation; returns the local subscription row it found.
pub fn cancel_check(store: &Store, user_id: &str, email: &str, obs: &ProviderObservation) -> (r:
    Result<Subscription, ApiError>)
    ensures
        match r {
            Ok(sub) => spec_cancel_check(store@, user_id@, email@, obs@) == Ok::<
                SubscriptionModel,
                ApiError,
            >(sub@),
            Err(e) => spec_cancel_check(store@, user_id@, email@, obs@) == Err::<
                SubscriptionModel,
                ApiError,
            >(e),
        },
{
    if email.is_empty() || user_id.is_empty() {
        return Err(ApiError::BadRequest);
    }
    if store.get_user(user_id).is_none() {
        return Err(ApiError::NotFound);
    }
    let sub = match store.get_user_subscription(user_id) {
        Some(s) => s,
        None => {
            return Err(ApiError::NotFound);
        },
    };
    if obs.customer.is_none() {
        return Err(ApiError::Unauthorized);
    }
    let psub = match &obs.subscription {
        Some(p) => p,
        None => {
            return Err(ApiError::Unauthorized);
        },
    };
    if !(psub.status == ProviderStatus::Active) {
        return Err(ApiError::Unauthorized);
    }
    Ok(sub)
}

/// Cancel: run the precondition chain, then — provided the provider accepted
/// the cancellation, which the caller reports in `provider_cancel_ok` — close
/// the local row and remove every membership of the user.
pub fn cancel(
    store: &mut Store,
    user_id: &str,
    email: &str,
    obs: &ProviderObservation,
    provider_cancel_ok: bool,
    now: i64,
) -> (r: Result<Vec<StoreEffect>, ApiError>)
    requires
        old(store)@.wf(),
    ensures
        final(store)@.wf(),
        ({
            let outcome = spec_cancel(old(store)@, user_id@, email@, obs@, provider_cancel_ok, now);
            &&& final(store)@ == outcome.store
            &&& match r {
                Ok(effects) => outcome.res is Ok && effects.deep_view() == outcome.effects,
                Err(e) => outcome.res == Err::<(), ApiError>(e),
            }
        }),
        // The provider is authoritative: without an active provider
        // subscription the request is Unauthorized and nothing is written,
        // whatever the local row says.
        (email@.len() > 0 && user_id@.len() > 0 && find_user(old(store)@.users, user_id@) is Some
            && find_sub(old(store)@.subscriptions, user_id@) is Some && obs@.customer is Some && (
        obs@.subscription is None || !(obs@.subscription->Some_0.status is Active))) ==> r == Err::<
            Vec<StoreEffect>,
            ApiError,
        >(ApiError::Unauthorized) && final(store)@ == old(store)@,
        // Local existence is a precondition: without a local row the request
        // is NotFound and nothing is written, even if the provider side is
        // active.
        (email@.len() > 0 && user_id@.len() > 0 && find_user(old(store)@.users, user_id@) is Some
            && find_sub(old(store)@.subscriptions, user_id@) is None) ==> r == Err::<
            Vec<StoreEffect>,
            ApiError,
        >(ApiError::NotFound) && final(store)@ == old(store)@,
        // After a successful cancel: the row is closed with an empty provider
        // id and period end now, and no membership of the user remains.
        r is Ok ==> ({
            let sub = find_sub(final(store)@.subscriptions, user_id@);
            &&& sub is Some
            &&& sub->Some_0.status == SubStatus::Cancelled
            &&& sub->Some_0.provider_subscription_id == Seq::<char>::empty()
            &&& sub->Some_0.current_period_end == now
            &&& memberships_of(final(store)@.memberships, user_id@).len() == 0
        }),
{
    let sub = match cancel_check(store, user_id, email, obs) {
        Ok(s) => s,
        Err(e) => {
            return Err(e);
        },
    };
    if !provider_cancel_ok {
        return Err(ApiError::Internal);
    }
    let updates = SubscriptionUpdate {
        plan_id: None,
        status: Some(SubStatus::Cancelled),
        provider_subscription_id: Some(String::new()),
        current_period_end: Some(now),
    };
    proof {
        lemma_user_sub_row_id(old(store)@, user_id@);
    }
    match store.update_subscription(sub.id.as_str(), &updates) {
        Ok(()) => {},
        Err(_) => {
            proof {
                assert(false);
            }
            return Err(ApiError::Internal);
        },
    }
    store.remove_members_for_user(user_id);
    proof {
        let m = old(store)@;
        let k = find_sub_idx(m.subscriptions, user_id@);
        lemma_find_sub_update_same_entity(
            m.subscriptions,
            k,
            spec_apply_sub_update(m.subscriptions[k], spec_cancel_update(now)),
            user_id@,
        );
        lemma_memberships_of_removed(final(store)@.memberships, user_id@);
    }
    let mut effects: Vec<StoreEffect> = Vec::new();
    effects.push(StoreEffect::UpdateSubscription { id: sub.id, updates: updates });
    effects.push(StoreEffect::RemoveMembershipsForUser { user_id: user_id.to_owned() });
    proof {
        assert(effects.deep_view() =~= spec_cancel(
            old(store)@,
            user_id@,
            email@,
            obs@,
            provider_cancel_ok,
            now,
        ).effects);
    }
    Ok(effects)
}

/// The provider is authoritative over the local row: when every local
/// precondition of Cancel holds but the provider's subscription is absent or
/// not active, Cancel refuses with Unauthorized, writes nothing, and leaves
/// the store untouched — whatever status the local row carries.
pub proof fn lemma_cancel_provider_authoritative(
    m: StoreModel,
    user_id: Seq<char>,
    email: Seq<char>,
    obs: ProviderObservationModel,
    provider_cancel_ok: bool,
    now: i64,
)
    requires
        email.len() > 0,
        user_id.len() > 0,
        find_user(m.users, user_id) is Some,
        find_sub(m.subscriptions, user_id) is Some,
        obs.customer is Some,
        obs.subscription is None || !(obs.subscription->Some_0.status is Active),
    ensures
        ({
            let outcome = spec_cancel(m, user_id, email, obs, provider_cancel_ok, now);
            &&& outcome.res == Err::<(), ApiError>(ApiError::Unauthorized)
            &&& outcome.store == m
            &&& outcome.effects.len() == 0
        }),
{
}

/// Local existence is a precondition by design: without a local subscription
/// row Cancel refuses with NotFound and writes nothing, even when the
/// provider side is active.
pub proof fn lemma_cancel_requires_local_row(
    m: StoreModel,
    user_id: Seq<char>,
    email: Seq<char>,
    obs: ProviderObservationModel,
    provider_cancel_ok: bool,
    now: i64,
)
    requires
        email.len() > 0,
        user_id.len() > 0,
        find_user(m.users, user_id) is Some,
        find_sub(m.subscriptions, user_id) is None,
    ensures
        ({
            let outcome = spec_cancel(m, user_id, email, obs, provider_cancel_ok, now);
            &&& outcome.res == Err::<(), ApiError>(ApiError::NotFound)
            &&& outcome.store == m
            &&& outcome.effects.len() == 0
        }),
{
}

/// Updating a row without touching its entity fields does not move which row
/// a user's lookup finds.
proof fn lemma_find_sub_update_same_entity(
    subs: Seq<SubscriptionModel>,
    k: int,
    x: SubscriptionModel,
    user_id: Seq<char>,
)
    requires
        0 <= k < subs.len(),
        k == find_sub_idx(subs, user_id),
        x.entity_id == subs[k].entity_id,
        x.entity_type == subs[k].entity_type,
    ensures
        find_sub_idx(subs.update(k, x), user_id) == k,
{
    let entity_id = user_id;
    let entity_type = EntityKind::User;
    let p = |s: SubscriptionModel| s.entity_id == entity_id && s.entity_type == entity_type;
    lemma_first_match_idx(subs, p);
    lemma_first_match_idx(subs.update(k, x), p);
    let k2 = find_sub_idx(subs.update(k, x), user_id);
    assert(p(subs[k]));
    assert(p(subs.update(k, x)[k]));
    if k2 < k {
        assert(p(subs.update(k, x)[k2]));
        assert(subs.update(k, x)[k2] == subs[k2]);
        assert(false);
    }
    if k2 > k {
        assert(!p(subs.update(k, x)[k]));
        assert(false);
    }
}

/// Appending a fresh row for a user who had none makes it the row the user's
/// lookup finds.
proof fn lemma_find_sub_push_fresh(
    subs: Seq<SubscriptionModel>,
    x: SubscriptionModel,
    user_id: Seq<char>,
)
    requires
        find_sub(subs, user_id) is None,
        x.entity_id == user_id,
        x.entity_type == EntityKind::User,
    ensures
        find_sub_idx(subs.push(x), user_id) == subs.len(),
        find_sub(subs.push(x), user_id) == Some(x),
{
    let entity_id = user_id;
    let entity_type = EntityKind::User;
    let p = |s: SubscriptionModel| s.entity_id == entity_id && s.entity_type == entity_type;
    lemma_first_match_idx(subs, p);
    lemma_first_match_idx(subs.push(x), p);
    let k2 = find_sub_idx(subs.push(x), user_id);
    assert(p(subs.push(x)[subs.len() as int]));
    if k2 < subs.len() {
        assert(p(subs.push(x)[k2]));
        assert(subs.push(x)[k2] == subs[k2]);
        assert(false);
    }
}

/// After removing every membership of a user, the user has none left.
proof fn lemma_memberships_of_removed(ms: Seq<UserMembershipModel>, user_id: Seq<char>)
    requires
        forall|j: int| 0 <= j < ms.len() ==> (#[trigger] ms[j]).user_id != user_id,
    ensures
        memberships_of(ms, user_id).len() == 0,
    decreases ms.len(),
{
    reveal(Seq::filter);
    if ms.len() > 0 {
        lemma_memberships_of_removed(ms.drop_last(), user_id);
    }
}

// ---------------------------------------------------------------------------
// Webhook
// ---------------------------------------------------------------------------

/// What kind of event the provider posted to the webhook. Only subscription
/// deletion is handled; anything else means the webhook is misconfigured.
#[derive(Clone, Copy, Debug, PartialEq, Eq, Structural)]
pub enum WebhookEventKind {
    SubscriptionDeleted,
    Other,
}

pub struct WebhookOutcome {
    pub res: Result<(), ApiError>,
    pub store: StoreModel,
    pub effects: Seq<StoreEffectModel>,
}

/// The functional model of the provider-initiated deletion webhook: reject
/// any other event kind as a client error, resolve the customer's email to a
/// local user, and force the user's subscription row to cancelled. No
/// membership cleanup happens on this path — an asymmetry with Cancel kept
/// from the design.
pub open spec fn spec_webhook_deleted(
    m: StoreModel,
    kind: WebhookEventKind,
    customer_email: Option<Seq<char>>,
    now: i64,
) -> WebhookOutcome {
    if !(kind is SubscriptionDeleted) {
        WebhookOutcome { res: Err(ApiError::BadRequest), store: m, effects: Seq::empty() }
    } else {
        match customer_email {
            None => WebhookOutcome { res: Err(ApiError::NotFound), store: m, effects: Seq::empty() },
            Some(email) => match find_user_by_email(m.users, email) {
                None => WebhookOutcome {
                    res: Err(ApiError::NotFound),
                    store: m,
                    effects: Seq::empty(),
                },
                Some(user) => match find_sub(m.subscriptions, user.id) {
                    None => WebhookOutcome {
                        res: Err(ApiError::Internal),
                        store: m,
                        effects: Seq::empty(),
                    },
                    Some(sub) => WebhookOutcome {
                        res: Ok(()),
                        store: StoreModel {
                            subscriptions: m.subscriptions.update(
                                find_sub_idx(m.subscriptions, user.id),
                                spec_apply_sub_update(sub, spec_cancel_update(now)),
                            ),
                            ..m
                        },
                        effects: seq![
                            StoreEffectModel::UpdateSubscription {
                                id: sub.id,
                                updates: spec_cancel_update(now),
                            },
                        ],
                    },
                },
            },
        }
    }
}

/// Handle a provider "subscription deleted" event. `customer_email` is the
/// email the caller resolved for the event's customer id, or nothing when the
/// provider knows no email for it.
pub fn webhook_subscription_deleted(
    store: &mut Store,
    kind: WebhookEventKind,
    customer_email: &Option<String>,
    now: i64,
) -> (r: Result<Vec<StoreEffect>, ApiError>)
    requires
        old(store)@.wf(),
    ensures
        final(store)@.wf(),
        ({
            let outcome = spec_webhook_deleted(old(store)@, kind, customer_email.deep_view(), now);
            &&& final(store)@ == outcome.store
            &&& match r {
                Ok(effects) => outcome.res is Ok && effects.deep_view() == outcome.effects,
                Err(e) => outcome.res == Err::<(), ApiError>(e),
            }
        }),
        // Any other event kind is a client error, and nothing is written.
        !(kind is SubscriptionDeleted) ==> r == Err::<Vec<StoreEffect>, ApiError>(
            ApiError::BadRequest,
        ) && final(store)@ == old(store)@,
        // A deletion event for an unknown customer email is NotFound, and
        // nothing is written.
        (kind is SubscriptionDeleted && (customer_email.deep_view() is None
            || find_user_by_email(old(store)@.users, customer_email.deep_view()->Some_0) is None))
            ==> r == Err::<Vec<StoreEffect>, ApiError>(ApiError::NotFound) && final(store)@ == old(
            store,
        )@,
{
    if !(kind == WebhookEventKind::SubscriptionDeleted) {
        return Err(ApiError::BadRequest);
    }
    let email = match customer_email {
        Some(e) => e,
        None => {
            return Err(ApiError::NotFound);
        },
    };
    let user = match store.get_user_by_email(email.as_str()) {
        Some(u) => u,
        None => {
            return Err(ApiError::NotFound);
        },
    };
    let sub = match store.get_user_subscription(user.id.as_str()) {
        Some(s) => s,
        None => {
            return Err(ApiError::Internal);
        },
    };
    let updates = SubscriptionUpdate {
        plan_id: None,
        status: Some(SubStatus::Cancelled),
        provider_subscription_id: Some(String::new()),
        current_period_end: Some(now),
    };
    proof {
        lemma_user_sub_row_id(old(store)@, user@.id);
    }
    match store.update_subscription(sub.id.as_str(), &updates) {
        Ok(()) => {},
        Err(_) => {
            proof {
                assert(false);
            }
            return Err(ApiError::Internal);
        },
    }
    let mut effects: Vec<StoreEffect> = Vec::new();
    effects.push(StoreEffect::UpdateSubscription { id: sub.id, updates: updates });
    proof {
        assert(effects.deep_view() =~= spec_webhook_deleted(
            old(store)@,
            kind,
            customer_email.deep_view(),
            now,
        ).effects);
    }
    Ok(effects)
}

// ---------------------------------------------------------------------------
// Registration and default settings
// ---------------------------------------------------------------------------

/// Appending a settings row for a user who had none makes it the row the
/// user's lookup finds.
proof fn lemma_find_settings_push_fresh(
    ss: Seq<UserSettingsModel>,
    x: UserSettingsModel,
    user_id: Seq<char>,
)
    requires
        find_settings(ss, user_id) is None,
        x.user_id == user_id,
    ensures
        find_settings_idx(ss.push(x), user_id) == ss.len(),
        find_settings(ss.push(x), user_id) == Some(x),
{
    let p = |s: UserSettingsModel| s.user_id == user_id;
    lemma_first_match_idx(ss, p);
    lemma_first_match_idx(ss.push(x), p);
    let k2 = find_settings_idx(ss.push(x), user_id);
    assert(p(ss.push(x)[ss.len() as int]));
    if k2 < ss.len() {
        assert(p(ss.push(x)[k2]));
        assert(ss.push(x)[k2] == ss[k2]);
        assert(false);
    }
}

/// Make sure a user has a settings row: create the default one when none
/// exists, and report `Conflict` when one already does (the caller treats
/// that as "nothing to do").
pub fn ensure_default_settings(store: &mut Store, user_id: &str, now: i64) -> (r: Result<
    UserSettings,
    ApiError,
>)
    requires
        old(store)@.wf(),
    ensures
        final(store)@.wf(),
        match r {
            Ok(row) => {
                &&& find_settings(old(store)@.settings, user_id@) is None
                &&& row@ == (UserSettingsModel {
                    user_id: user_id@,
                    settings_blob: spec_default_settings(),
                    created_at: now,
                })
                &&& final(store)@ == (StoreModel {
                    settings: old(store)@.settings.push(row@),
                    ..old(store)@
                })
            },
            Err(e) => e == ApiError::Conflict && find_settings(
                old(store)@.settings,
                user_id@,
            ) is Some && final(store)@ == old(store)@,
        },
{
    if store.get_user_settings(user_id).is_some() {
        return Err(ApiError::Conflict);
    }
    let row = UserSettings {
        user_id: user_id.to_owned(),
        settings_blob: default_settings(),
        created_at: now,
    };
    let out = row.clone();
    match store.create_user_settings(row) {
        Ok(()) => Ok(out),
        Err(_) => {
            proof {
                assert(false);
            }
            Err(ApiError::Internal)
        },
    }
}

pub struct RegisterOutcome {
    pub res: Result<UserModel, ApiError>,
    pub store: StoreModel,
    pub effects: Seq<StoreEffectModel>,
}

/// The functional model of registration: create the user (a duplicate id is
/// a Conflict), then give them the default settings row unless one is
/// already there.
pub open spec fn spec_register_user(
    m: StoreModel,
    user_id: Seq<char>,
    email: Seq<char>,
    now: i64,
) -> RegisterOutcome {
    if find_user(m.users, user_id) is Some {
        RegisterOutcome { res: Err(ApiError::Conflict), store: m, effects: Seq::empty() }
    } else {
        let u = UserModel { id: user_id, email: email, created_at: now, auth_token: None };
        let m1 = StoreModel { users: m.users.push(u), ..m };
        if find_settings(m.settings, user_id) is None {
            let srow = UserSettingsModel {
                user_id: user_id,
                settings_blob: spec_default_settings(),
                created_at: now,
            };
            RegisterOutcome {
                res: Ok(u),
                store: StoreModel { settings: m1.settings.push(srow), ..m1 },
                effects: seq![
                    StoreEffectModel::CreateUser(u),
                    StoreEffectModel::CreateSettings(srow),
                ],
            }
        } else {
            RegisterOutcome {
                res: Ok(u),
                store: m1,
                effects: seq![StoreEffectModel::CreateUser(u)],
            }
        }
    }
}

/// Register a user: create the row (an already-taken id is a Conflict) and
/// the default settings row when none exists.
pub fn register_user(store: &mut Store, user_id: &str, email: &str, now: i64) -> (r: Result<
    (User, Vec<StoreEffect>),
    ApiError,
>)
    requires
        old(store)@.wf(),
    ensures
        final(store)@.wf(),
        ({
            let outcome = spec_register_user(old(store)@, user_id@, email@, now);
            &&& final(store)@ == outcome.store
            &&& match r {
                Ok((u, effects)) => outcome.res == Ok::<UserModel, ApiError>(u@)
                    && effects.deep_view() == outcome.effects,
                Err(e) => outcome.res == Err::<UserModel, ApiError>(e),
            }
        }),
{
    let user = User {
        id: user_id.to_owned(),
        email: email.to_owned(),
        created_at: now,
        auth_token: None,
    };
    let out_user = user.clone();
    match store.create_user(user) {
        Ok(()) => {},
        Err(err) => {
            return Err(err);
        },
    }
    let mut effects: Vec<StoreEffect> = Vec::new();
    let effect_user = out_user.clone();
    effects.push(StoreEffect::CreateUser(effect_user));
    match ensure_default_settings(store, user_id, now) {
        Ok(srow) => {
            effects.push(StoreEffect::CreateSettings(srow));
        },
        Err(_) => {},
    }
    proof {
        assert(effects.deep_view() =~= spec_register_user(
            old(store)@,
            user_id@,
            email@,
            now,
        ).effects);
    }
    Ok((out_user, effects))
}

// ---------------------------------------------------------------------------
// User data aggregate
// ---------------------------------------------------------------------------

/// Everything one user-data pass yields: the response and the plan name to
/// stamp into a fresh token (or the error), the store left behind, and the
/// writes performed. Writes that happened before a failure are reported with
/// the error.
pub struct UserDataOutcome {
    pub res: Result<(UserDataResponseModel, Seq<char>), ApiError>,
    pub store: StoreModel,
    pub effects: Seq<StoreEffectModel>,
}

/// The tail of the user-data pass: fetch the links, fall back to the free
/// plan when no paid plan was resolved, and assemble the response.
pub open spec fn spec_user_data_tail(
    m: StoreModel,
    eff: Seq<StoreEffectModel>,
    user: UserModel,
    settings: Option<UserSettingsModel>,
    paid: Option<PlanModel>,
    obs: ProviderObservationModel,
    free_plan_id: Seq<char>,
    user_id: Seq<char>,
) -> UserDataOutcome {
    let links = links_of(m.links, user_id, EntityKind::User);
    match paid {
        Some(plan) => UserDataOutcome {
            res: Ok(
                (
                    UserDataResponseModel {
                        user: user,
                        subscription: Some(
                            SubscriptionResponseModel {
                                plan_id: plan.id,
                                current_period_end: obs.subscription->Some_0.current_period_end,
                            },
                        ),
                        plan: Some(plan),
                        settings: settings,
                        links: links,
                    },
                    plan.name,
                ),
            ),
            store: m,
            effects: eff,
        },
        None => match find_plan(m.plans, free_plan_id) {
            None => UserDataOutcome { res: Err(ApiError::Internal), store: m, effects: eff },
            Some(free_plan) => UserDataOutcome {
                res: Ok(
                    (
                        UserDataResponseModel {
                            user: user,
                            subscription: Some(
                                SubscriptionResponseModel {
                                    plan_id: free_plan_id,
                                    current_period_end: 0,
                                },
                            ),
                            plan: Some(free_plan),
                            settings: settings,
                            links: links,
                        },
                        free_plan.name,
                    ),
                ),
                store: m,
                effects: eff,
            },
        },
    }
}

/// The functional model of the user-data aggregate: self-heal the user row
/// (with default settings for a fresh user), resolve the paid plan while the
/// provider reports an active subscription, self-heal the settings row,
/// force-disable the premium settings when the subscription has lapsed, and
/// assemble the response with the user's links and the resolved or free
/// plan.
pub open spec fn spec_user_data(
    m: StoreModel,
    user_id: Seq<char>,
    email: Seq<char>,
    obs: ProviderObservationModel,
    free_plan_id: Seq<char>,
    now: i64,
) -> UserDataOutcome {
    let state = spec_classify(obs, now);
    let active = !spec_free_state(state);
    let user_found = find_user(m.users, user_id) is Some;
    let user = if user_found {
        find_user(m.users, user_id)->Some_0
    } else {
        UserModel { id: user_id, email: email, created_at: now, auth_token: None }
    };
    let m_a0 = if user_found {
        m
    } else {
        StoreModel { users: m.users.push(user), ..m }
    };
    let eff_a0: Seq<StoreEffectModel> = if user_found {
        Seq::empty()
    } else {
        seq![StoreEffectModel::CreateUser(user)]
    };
    let orphan = find_settings(m.settings, user_id) is Some;
    let default_row = UserSettingsModel {
        user_id: user_id,
        settings_blob: spec_default_settings(),
        created_at: now,
    };
    let m_a = if user_found || orphan {
        m_a0
    } else {
        StoreModel { settings: m_a0.settings.push(default_row), ..m_a0 }
    };
    let eff_a = if user_found || orphan {
        eff_a0
    } else {
        eff_a0.push(StoreEffectModel::CreateSettings(default_row))
    };
    if active && obs.subscription->Some_0.product_id is None {
        UserDataOutcome { res: Err(ApiError::Internal), store: m_a, effects: eff_a }
    } else if active && find_plan_by_stripe(
        m.plans,
        obs.subscription->Some_0.product_id->Some_0,
    ) is None {
        UserDataOutcome { res: Err(ApiError::Internal), store: m_a, effects: eff_a }
    } else {
        let paid = if active {
            Some(find_plan_by_stripe(m.plans, obs.subscription->Some_0.product_id->Some_0)->Some_0)
        } else {
            None
        };
        let settings_c: Option<UserSettingsModel> = if user_found {
            if find_settings(m_a.settings, user_id) is Some {
                Some(find_settings(m_a.settings, user_id)->Some_0)
            } else {
                Some(default_row)
            }
        } else {
            if orphan {
                None
            } else {
                Some(default_row)
            }
        };
        let m_c = if user_found && find_settings(m_a.settings, user_id) is None {
            StoreModel { settings: m_a.settings.push(default_row), ..m_a }
        } else {
            m_a
        };
        let eff_c = if user_found && find_settings(m_a.settings, user_id) is None {
            eff_a.push(StoreEffectModel::CreateSettings(default_row))
        } else {
            eff_a
        };
        if !active && settings_c is Some {
            let row = settings_c->Some_0;
            let disabled = spec_disable_premium(row.settings_blob);
            let k = find_settings_idx(m_c.settings, user_id);
            let m_d = StoreModel {
                settings: m_c.settings.update(
                    k,
                    UserSettingsModel { settings_blob: disabled, ..m_c.settings[k] },
                ),
                ..m_c
            };
            let eff_d = eff_c.push(
                StoreEffectModel::UpdateSettings { user_id: user_id, settings_blob: disabled },
            );
            let srow_resp = UserSettingsModel { settings_blob: disabled, ..row };
            spec_user_data_tail(m_d, eff_d, user, Some(srow_resp), paid, obs, free_plan_id, user_id)
        } else {
            spec_user_data_tail(m_c, eff_c, user, settings_c, paid, obs, free_plan_id, user_id)
        }
    }
}

/// The user-data aggregate: self-heal the user and settings rows, resolve
/// the subscription against the provider, disable premium settings when the
/// subscription has lapsed, and return user, subscription, plan, settings
/// and links together with the plan name for a fresh token. Writes performed
/// before a failure are reported alongside the error.
pub fn user_data(
    store: &mut Store,
    user_id: &str,
    email: &str,
    obs: &ProviderObservation,
    free_plan_id: &str,
    now: i64,
) -> (r: (Result<(UserDataResponse, String), ApiError>, Vec<StoreEffect>))
    requires
        old(store)@.wf(),
    ensures
        final(store)@.wf(),
        ({
            let outcome = spec_user_data(old(store)@, user_id@, email@, obs@, free_plan_id@, now);
            &&& final(store)@ == outcome.store
            &&& r.1.deep_view() == outcome.effects
            &&& match r.0 {
                Ok((resp, plan_name)) => outcome.res == Ok::<
                    (UserDataResponseModel, Seq<char>),
                    ApiError,
                >((resp@, plan_name@)),
                Err(e) => outcome.res == Err::<(UserDataResponseModel, Seq<char>), ApiError>(e),
            }
        }),
{
    let state = classify_provider(obs, now);
    let active = match state {
        ProviderState::ActiveCancelling => true,
        ProviderState::ActiveCurrent => true,
        _ => false,
    };
    let mut effects: Vec<StoreEffect> = Vec::new();
    // Self-heal the user row; a fresh user gets the default settings at once.
    let user_found: bool;
    let mut new_user_settings: Option<UserSettings> = None;
    let user = match store.get_user(user_id) {
        Some(u) => {
            user_found = true;
            u
        },
        None => {
            user_found = false;
            let u = User {
                id: user_id.to_owned(),
                email: email.to_owned(),
                created_at: now,
                auth_token: None,
            };
            let out_u = u.clone();
            match store.create_user(u) {
                Ok(()) => {},
                Err(_) => {
                    proof {
                        assert(false);
                    }
                    return (Err(ApiError::Internal), effects);
                },
            }
            effects.push(StoreEffect::CreateUser(out_u.clone()));
            match ensure_default_settings(store, user_id, now) {
                Ok(srow) => {
                    new_user_settings = Some(srow.clone());
                    effects.push(StoreEffect::CreateSettings(srow));
                },
                Err(_) => {},
            }
            out_u
        },
    };
    // Resolve the paid plan while the provider reports an active
    // subscription.
    let mut paid_plan: Option<Plan> = None;
    if active {
        let psub = match &obs.subscription {
            Some(p) => p,
            None => {
                proof {
                    assert(false);
                }
                return (Err(ApiError::Internal), effects);
            },
        };
        let product_id = match &psub.product_id {
            Some(p) => p,
            None => {
                return (Err(ApiError::Internal), effects);
            },
        };
        match store.get_plan_by_stripe_id(product_id.as_str()) {
            Some(p) => {
                paid_plan = Some(p);
            },
            None => {
                return (Err(ApiError::Internal), effects);
            },
        }
    }
    // Self-heal the settings row of an existing user.
    let settings_c: Option<UserSettings> = if user_found {
        match store.get_user_settings(user_id) {
            Some(s) => Some(s),
            None => match ensure_default_settings(store, user_id, now) {
                Ok(srow) => {
                    let out_s = srow.clone();
                    effects.push(StoreEffect::CreateSettings(srow));
                    Some(out_s)
                },
                Err(_) => {
                    proof {
                        assert(false);
                    }
                    None
                },
            },
        }
    } else {
        new_user_settings
    };
    // A lapsed subscription force-disables the premium settings.
    let settings_resp: Option<UserSettings> = if !active {
        match settings_c {
            Some(mut row) => {
                disable_premium_features(&mut row.settings_blob);
                proof {
                    if !user_found && find_settings(old(store)@.settings, user_id@) is None {
                        lemma_find_settings_push_fresh(
                            old(store)@.settings,
                            UserSettingsModel {
                                user_id: user_id@,
                                settings_blob: spec_default_settings(),
                                created_at: now,
                            },
                            user_id@,
                        );
                    }
                    if user_found && find_settings(old(store)@.settings, user_id@) is None {
                        lemma_find_settings_push_fresh(
                            old(store)@.settings,
                            UserSettingsModel {
                                user_id: user_id@,
                                settings_blob: spec_default_settings(),
                                created_at: now,
                            },
                            user_id@,
                        );
                    }
                }
                match store.update_user_settings(user_id, row.settings_blob) {
                    Ok(()) => {},
                    Err(_) => {
                        proof {
                            assert(false);
                        }
                        return (Err(ApiError::Internal), effects);
                    },
                }
                effects.push(
                    StoreEffect::UpdateSettings {
                        user_id: user_id.to_owned(),
                        settings_blob: row.settings_blob,
                    },
                );
                Some(row)
            },
            None => None,
        }
    } else {
        settings_c
    };
    // Links, then the plan: the paid one, or the free fallback.
    let links = store.get_links(user_id, EntityKind::User);
    let (resp_sub, resp_plan, plan_name): (SubscriptionResponse, Plan, String) = match paid_plan {
        Some(plan) => {
            let pe = match &obs.subscription {
                Some(p) => p.current_period_end,
                None => {
                    proof {
                        assert(false);
                    }
                    0
                },
            };
            let name = plan.name.clone();
            (SubscriptionResponse { plan_id: plan.id.clone(), current_period_end: pe }, plan, name)
        },
        None => match store.get_plan(free_plan_id) {
            Some(free_plan) => {
                let name = free_plan.name.clone();
                (
                    SubscriptionResponse {
                        plan_id: free_plan_id.to_owned(),
                        current_period_end: 0,
                    },
                    free_plan,
                    name,
                )
            },
            None => {
                return (Err(ApiError::Internal), effects);
            },
        },
    };
    let response = UserDataResponse {
        user: user,
        subscription: Some(resp_sub),
        plan: Some(resp_plan),
        settings: settings_resp,
        links: links,
    };
    (Ok((response, plan_name)), effects)
}

} // verus!
