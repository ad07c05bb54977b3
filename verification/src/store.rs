use vstd::prelude::*;
use crate::errors::ApiError;
use crate::model::{
    User, UserModel, Plan, PlanModel, Subscription, SubscriptionModel, UserMembership,
    UserMembershipModel, UserSettings, UserSettingsModel, UserSettingsRequest, Link, LinkModel,
    UpdateLinkRequest, FeedbackTimestamp, FeedbackTimestampModel, EntityKind, SubStatus, Role,
    SubscriptionUpdate, spec_apply_sub_update, spec_apply_link_update,
};
use crate::str_eq;

verus! {

broadcast use crate::lemma_vec_deep_view_len, crate::lemma_vec_deep_view_index;

// ---------------------------------------------------------------------------
// First-match search over sequences
// ---------------------------------------------------------------------------

/// Index of the first element satisfying `p`, or `s.len()` when none does.
pub open spec fn first_match_idx<T>(s: Seq<T>, p: spec_fn(T) -> bool) -> int
    decreases s.len(),
{
    if s.len() == 0 {
        0
    } else if p(s[0]) {
        0
    } else {
        1 + first_match_idx(s.drop_first(), p)
    }
}

/// The element at index `i`, or nothing when `i` is past the end.
pub open spec fn found<T>(s: Seq<T>, i: int) -> Option<T> {
    if 0 <= i < s.len() {
        Some(s[i])
    } else {
        None
    }
}

pub proof fn lemma_first_match_idx<T>(s: Seq<T>, p: spec_fn(T) -> bool)
    ensures
        0 <= first_match_idx(s, p) <= s.len(),
        first_match_idx(s, p) < s.len() ==> p(s[first_match_idx(s, p)]),
        forall|j: int| 0 <= j < first_match_idx(s, p) ==> !p(#[trigger] s[j]),
        first_match_idx(s, p) == s.len() ==> forall|j: int| 0 <= j < s.len() ==> !p(#[trigger] s[j]),
    decreases s.len(),
{
    if s.len() == 0 {
    } else if p(s[0]) {
    } else {
        lemma_first_match_idx(s.drop_first(), p);
        assert forall|j: int| 0 <= j < first_match_idx(s, p) implies !p(#[trigger] s[j]) by {
            if j > 0 {
                assert(s.drop_first()[j - 1] == s[j]);
            }
        }
        if first_match_idx(s, p) == s.len() {
            assert forall|j: int| 0 <= j < s.len() implies !p(#[trigger] s[j]) by {
                if j > 0 {
                    assert(s.drop_first()[j - 1] == s[j]);
                }
            }
        }
    }
}

/// Filtering distributes over push: the new element is kept exactly when the
/// predicate holds of it.
pub proof fn lemma_filter_push<T>(s: Seq<T>, p: spec_fn(T) -> bool, x: T)
    ensures
        s.push(x).filter(p) == if p(x) {
            s.filter(p).push(x)
        } else {
            s.filter(p)
        },
{
    reveal(Seq::filter);
    assert(s.push(x).drop_last() =~= s);
}

// ---------------------------------------------------------------------------
// Per-table finders
// ---------------------------------------------------------------------------

pub open spec fn find_user_idx(users: Seq<UserModel>, id: Seq<char>) -> int {
    first_match_idx(users, |u: UserModel| u.id == id)
}

pub open spec fn find_user(users: Seq<UserModel>, id: Seq<char>) -> Option<UserModel> {
    found(users, find_user_idx(users, id))
}

pub open spec fn find_user_by_email_idx(users: Seq<UserModel>, email: Seq<char>) -> int {
    first_match_idx(users, |u: UserModel| u.email == email)
}

pub open spec fn find_user_by_email(users: Seq<UserModel>, email: Seq<char>) -> Option<UserModel> {
    found(users, find_user_by_email_idx(users, email))
}

pub open spec fn find_plan_idx(plans: Seq<PlanModel>, id: Seq<char>) -> int {
    first_match_idx(plans, |p: PlanModel| p.id == id)
}

pub open spec fn find_plan(plans: Seq<PlanModel>, id: Seq<char>) -> Option<PlanModel> {
    found(plans, find_plan_idx(plans, id))
}

pub open spec fn find_plan_by_stripe_idx(plans: Seq<PlanModel>, stripe_id: Seq<char>) -> int {
    first_match_idx(plans, |p: PlanModel| p.stripe_id == Some(stripe_id))
}

pub open spec fn find_plan_by_stripe(plans: Seq<PlanModel>, stripe_id: Seq<char>) -> Option<
    PlanModel,
> {
    found(plans, find_plan_by_stripe_idx(plans, stripe_id))
}

/// The subscription row of a user entity, when one exists.
pub open spec fn find_sub_idx(subs: Seq<SubscriptionModel>, entity_id: Seq<char>) -> int {
    find_sub_pair_idx(subs, entity_id, EntityKind::User)
}

pub open spec fn find_sub(subs: Seq<SubscriptionModel>, entity_id: Seq<char>) -> Option<
    SubscriptionModel,
> {
    found(subs, find_sub_idx(subs, entity_id))
}

pub open spec fn find_sub_by_id_idx(subs: Seq<SubscriptionModel>, id: Seq<char>) -> int {
    first_match_idx(subs, |s: SubscriptionModel| s.id == id)
}

pub open spec fn find_sub_by_id(subs: Seq<SubscriptionModel>, id: Seq<char>) -> Option<
    SubscriptionModel,
> {
    found(subs, find_sub_by_id_idx(subs, id))
}

/// The subscription row of an arbitrary `(entity_id, entity_type)` pair.
pub open spec fn find_sub_pair_idx(
    subs: Seq<SubscriptionModel>,
    entity_id: Seq<char>,
    entity_type: EntityKind,
) -> int {
    first_match_idx(
        subs,
        |s: SubscriptionModel| s.entity_id == entity_id && s.entity_type == entity_type,
    )
}

pub open spec fn find_sub_pair(
    subs: Seq<SubscriptionModel>,
    entity_id: Seq<char>,
    entity_type: EntityKind,
) -> Option<SubscriptionModel> {
    found(subs, find_sub_pair_idx(subs, entity_id, entity_type))
}

pub open spec fn find_membership_idx(
    ms: Seq<UserMembershipModel>,
    user_id: Seq<char>,
    entity_id: Seq<char>,
) -> int {
    first_match_idx(ms, |m: UserMembershipModel| m.user_id == user_id && m.entity_id == entity_id)
}

/// All membership rows of one user, in store order.
pub open spec fn memberships_of(ms: Seq<UserMembershipModel>, user_id: Seq<char>) -> Seq<
    UserMembershipModel,
> {
    ms.filter(|m: UserMembershipModel| m.user_id == user_id)
}

pub open spec fn find_settings_idx(ss: Seq<UserSettingsModel>, user_id: Seq<char>) -> int {
    first_match_idx(ss, |s: UserSettingsModel| s.user_id == user_id)
}

pub open spec fn find_settings(ss: Seq<UserSettingsModel>, user_id: Seq<char>) -> Option<
    UserSettingsModel,
> {
    found(ss, find_settings_idx(ss, user_id))
}

pub open spec fn find_link_idx(ls: Seq<LinkModel>, id: Seq<char>) -> int {
    first_match_idx(ls, |l: LinkModel| l.id == id)
}

pub open spec fn find_link(ls: Seq<LinkModel>, id: Seq<char>) -> Option<LinkModel> {
    found(ls, find_link_idx(ls, id))
}

pub open spec fn find_link_by_owner_idx(ls: Seq<LinkModel>, id: Seq<char>, owner_id: Seq<char>) -> int {
    first_match_idx(ls, |l: LinkModel| l.id == id && l.owner_id == owner_id)
}

pub open spec fn find_link_by_owner(ls: Seq<LinkModel>, id: Seq<char>, owner_id: Seq<char>) -> Option<
    LinkModel,
> {
    found(ls, find_link_by_owner_idx(ls, id, owner_id))
}

/// All links of one owner, in store order.
pub open spec fn links_of(ls: Seq<LinkModel>, owner_id: Seq<char>, owner_type: EntityKind) -> Seq<
    LinkModel,
> {
    ls.filter(|l: LinkModel| l.owner_id == owner_id && l.owner_type == owner_type)
}

pub open spec fn find_feedback_idx(fs: Seq<FeedbackTimestampModel>, user_id: Seq<char>) -> int {
    first_match_idx(fs, |f: FeedbackTimestampModel| f.user_id == user_id)
}

pub open spec fn find_feedback(fs: Seq<FeedbackTimestampModel>, user_id: Seq<char>) -> Option<
    FeedbackTimestampModel,
> {
    found(fs, find_feedback_idx(fs, user_id))
}

/// The membership table with every row of one `(user, entity)` pair removed.
pub open spec fn spec_remove_membership(
    ms: Seq<UserMembershipModel>,
    user_id: Seq<char>,
    entity_id: Seq<char>,
) -> Seq<UserMembershipModel> {
    ms.filter(|m: UserMembershipModel| !(m.user_id == user_id && m.entity_id == entity_id))
}

/// The membership table with every row of one user removed.
pub open spec fn spec_remove_memberships_of_user(
    ms: Seq<UserMembershipModel>,
    user_id: Seq<char>,
) -> Seq<UserMembershipModel> {
    ms.filter(|m: UserMembershipModel| m.user_id != user_id)
}

/// The membership table with the role of one `(user, entity)` pair replaced.
pub open spec fn spec_set_role(
    ms: Seq<UserMembershipModel>,
    user_id: Seq<char>,
    entity_id: Seq<char>,
    role: Role,
) -> Seq<UserMembershipModel> {
    ms.map_values(
        |m: UserMembershipModel|
            if m.user_id == user_id && m.entity_id == entity_id {
                UserMembershipModel { role: role, ..m }
            } else {
                m
            },
    )
}

/// The feedback table with every row of one user removed.
pub open spec fn feedback_without(
    fs: Seq<FeedbackTimestampModel>,
    user_id: Seq<char>,
) -> Seq<FeedbackTimestampModel> {
    fs.filter(|f: FeedbackTimestampModel| f.user_id != user_id)
}

// ---------------------------------------------------------------------------
// The store
// ---------------------------------------------------------------------------

/// Mathematical state of the relational store: one sequence per table.
pub struct StoreModel {
    pub users: Seq<UserModel>,
    pub plans: Seq<PlanModel>,
    pub subscriptions: Seq<SubscriptionModel>,
    pub memberships: Seq<UserMembershipModel>,
    pub settings: Seq<UserSettingsModel>,
    pub links: Seq<LinkModel>,
    pub feedback_timestamps: Seq<FeedbackTimestampModel>,
}

impl StoreModel {
    /// Well-formedness: primary keys are unique, and at most one subscription
    /// row exists per `(entity_id, entity_type)` pair — the invariant the
    /// reconciliation engine must keep.
    pub open spec fn wf(self) -> bool {
        &&& forall|i: int, j: int|
            0 <= i < j < self.users.len() ==> (#[trigger] self.users[i]).id != (
            #[trigger] self.users[j]).id
        &&& forall|i: int|
            0 <= i < self.users.len() ==> (#[trigger] self.users[i]).auth_token is None
        &&& forall|i: int, j: int|
            0 <= i < j < self.plans.len() ==> (#[trigger] self.plans[i]).id != (
            #[trigger] self.plans[j]).id
        &&& forall|i: int, j: int|
            0 <= i < j < self.subscriptions.len() ==> (#[trigger] self.subscriptions[i]).id != (
            #[trigger] self.subscriptions[j]).id
        &&& forall|i: int, j: int|
            0 <= i < j < self.subscriptions.len() ==> !((#[trigger] self.subscriptions[i]).entity_id
                == (#[trigger] self.subscriptions[j]).entity_id && self.subscriptions[i].entity_type
                == self.subscriptions[j].entity_type)
        &&& forall|i: int, j: int|
            0 <= i < j < self.settings.len() ==> (#[trigger] self.settings[i]).user_id != (
            #[trigger] self.settings[j]).user_id
        &&& forall|i: int, j: int|
            0 <= i < j < self.links.len() ==> (#[trigger] self.links[i]).id != (
            #[trigger] self.links[j]).id
    }
}

/// In-memory store holding the service's records. It realizes the store
/// interface the handlers rely on, with every operation verified against the
/// sequence model above.
pub struct Store {
    pub users: Vec<User>,
    pub plans: Vec<Plan>,
    pub subscriptions: Vec<Subscription>,
    pub memberships: Vec<UserMembership>,
    pub settings: Vec<UserSettings>,
    pub links: Vec<Link>,
    pub feedback_timestamps: Vec<FeedbackTimestamp>,
}

impl View for Store {
    type V = StoreModel;

    open spec fn view(&self) -> StoreModel {
        StoreModel {
            users: self.users.deep_view(),
            plans: self.plans.deep_view(),
            subscriptions: self.subscriptions.deep_view(),
            memberships: self.memberships.deep_view(),
            settings: self.settings.deep_view(),
            links: self.links.deep_view(),
            feedback_timestamps: self.feedback_timestamps.deep_view(),
        }
    }
}

impl Store {
    /// An empty store, trivially well-formed.
    pub fn new() -> (s: Store)
        ensures
            s@.wf(),
            s@.users.len() == 0,
            s@.plans.len() == 0,
            s@.subscriptions.len() == 0,
            s@.memberships.len() == 0,
            s@.settings.len() == 0,
            s@.links.len() == 0,
            s@.feedback_timestamps.len() == 0,
    {
        Store {
            users: Vec::new(),
            plans: Vec::new(),
            subscriptions: Vec::new(),
            memberships: Vec::new(),
            settings: Vec::new(),
            links: Vec::new(),
            feedback_timestamps: Vec::new(),
        }
    }

    // -- users --------------------------------------------------------------

    fn user_idx(&self, id: &str) -> (r: usize)
        ensures
            r == find_user_idx(self@.users, id@),
    {
        let n = self.users.len();
        let mut i: usize = 0;
        while i < n
            invariant
                n == self.users.len(),
                i <= n,
                forall|j: int| 0 <= j < i ==> (#[trigger] self@.users[j]).id != id@,
            decreases n - i,
        {
            if str_eq(self.users[i].id.as_str(), id) {
                proof {
                    let p = |u: UserModel| u.id == id@;
                    lemma_first_match_idx(self@.users, p);
                    assert(p(self@.users[i as int]));
                }
                return i;
            }
            i = i + 1;
        }
        proof {
            lemma_first_match_idx(self@.users, |u: UserModel| u.id == id@);
        }
        n
    }

    /// Fetch a user by id; absence is a legitimate state.
    pub fn get_user(&self, id: &str) -> (r: Option<User>)
        ensures
            r.deep_view() == find_user(self@.users, id@),
    {
        let i = self.user_idx(id);
        proof {
            lemma_first_match_idx(self@.users, |u: UserModel| u.id == id@);
        }
        if i < self.users.len() {
            Some(self.users[i].clone())
        } else {
            None
        }
    }

    fn user_email_idx(&self, email: &str) -> (r: usize)
        ensures
            r == find_user_by_email_idx(self@.users, email@),
    {
        let n = self.users.len();
        let mut i: usize = 0;
        while i < n
            invariant
                n == self.users.len(),
                i <= n,
                forall|j: int| 0 <= j < i ==> (#[trigger] self@.users[j]).email != email@,
            decreases n - i,
        {
            if str_eq(self.users[i].email.as_str(), email) {
                proof {
                    let p = |u: UserModel| u.email == email@;
                    lemma_first_match_idx(self@.users, p);
                    assert(p(self@.users[i as int]));
                }
                return i;
            }
            i = i + 1;
        }
        proof {
            lemma_first_match_idx(self@.users, |u: UserModel| u.email == email@);
        }
        n
    }

    /// Fetch a user by email; used by the webhook path.
    pub fn get_user_by_email(&self, email: &str) -> (r: Option<User>)
        ensures
            r.deep_view() == find_user_by_email(self@.users, email@),
    {
        let i = self.user_email_idx(email);
        proof {
            lemma_first_match_idx(self@.users, |u: UserModel| u.email == email@);
        }
        if i < self.users.len() {
            Some(self.users[i].clone())
        } else {
            None
        }
    }

    /// Insert a new user; fails with `Conflict` when the id is already
    /// taken. The auth token is transient and never persisted, so the row
    /// may not carry one.
    pub fn create_user(&mut self, user: User) -> (r: Result<(), ApiError>)
        requires
            old(self)@.wf(),
            user@.auth_token is None,
        ensures
            final(self)@.wf(),
            match r {
                Ok(()) => find_user(old(self)@.users, user@.id) is None && final(self)@
                    == (StoreModel { users: old(self)@.users.push(user@), ..old(self)@ }),
                Err(e) => e == ApiError::Conflict && find_user(old(self)@.users, user@.id) is Some
                    && final(self)@ == old(self)@,
            },
    {
        let i = self.user_idx(user.id.as_str());
        proof {
            lemma_first_match_idx(self@.users, |u: UserModel| u.id == user@.id);
        }
        if i < self.users.len() {
            return Err(ApiError::Conflict);
        }
        proof {
            let us = self@.users;
            let p = |u: UserModel| u.id == user@.id;
            assert forall|a: int, b: int|
                0 <= a < b < us.push(user@).len() implies (#[trigger] us.push(user@)[a]).id != (
            #[trigger] us.push(user@)[b]).id by {
                if b == us.len() {
                    assert(!p(us[a]));
                }
            }
            assert forall|a: int|
                0 <= a < us.push(user@).len() implies (#[trigger] us.push(
                user@,
            )[a]).auth_token is None by {
                if a < us.len() {
                    assert(us[a].auth_token is None);
                }
            }
        }
        self.users.push(user);
        proof {
            assert(self@.users =~= old(self)@.users.push(user@));
        }
        Ok(())
    }

    /// Delete a user by id; fails with `NotFound` when absent.
    pub fn delete_user(&mut self, id: &str) -> (r: Result<(), ApiError>)
        requires
            old(self)@.wf(),
        ensures
            final(self)@.wf(),
            match r {
                Ok(()) => find_user(old(self)@.users, id@) is Some && final(self)@ == (StoreModel {
                    users: old(self)@.users.remove(find_user_idx(old(self)@.users, id@)),
                    ..old(self)@
                }),
                Err(e) => e == ApiError::NotFound && find_user(old(self)@.users, id@) is None
                    && final(self)@ == old(self)@,
            },
    {
        let i = self.user_idx(id);
        proof {
            lemma_first_match_idx(self@.users, |u: UserModel| u.id == id@);
        }
        if i >= self.users.len() {
            return Err(ApiError::NotFound);
        }
        proof {
            let us = self@.users;
            let k = i as int;
            assert forall|a: int, b: int|
                0 <= a < b < us.remove(k).len() implies (#[trigger] us.remove(k)[a]).id != (
            #[trigger] us.remove(k)[b]).id by {
                let a0 = if a < k {
                    a
                } else {
                    a + 1
                };
                let b0 = if b < k {
                    b
                } else {
                    b + 1
                };
                assert(us.remove(k)[a] == us[a0]);
                assert(us.remove(k)[b] == us[b0]);
            }
            assert forall|a: int|
                0 <= a < us.remove(k).len() implies (#[trigger] us.remove(
                k,
            )[a]).auth_token is None by {
                let a0 = if a < k {
                    a
                } else {
                    a + 1
                };
                assert(us.remove(k)[a] == us[a0]);
            }
        }
        self.users.remove(i);
        proof {
            assert(self@.users =~= old(self)@.users.remove(i as int));
        }
        Ok(())
    }

    // -- plans --------------------------------------------------------------

    fn plan_idx(&self, id: &str) -> (r: usize)
        ensures
            r == find_plan_idx(self@.plans, id@),
    {
        let n = self.plans.len();
        let mut i: usize = 0;
        while i < n
            invariant
                n == self.plans.len(),
                i <= n,
                forall|j: int| 0 <= j < i ==> (#[trigger] self@.plans[j]).id != id@,
            decreases n - i,
        {
            if str_eq(self.plans[i].id.as_str(), id) {
                proof {
                    let p = |q: PlanModel| q.id == id@;
                    lemma_first_match_idx(self@.plans, p);
                    assert(p(self@.plans[i as int]));
                }
                return i;
            }
            i = i + 1;
        }
        proof {
            lemma_first_match_idx(self@.plans, |q: PlanModel| q.id == id@);
        }
        n
    }

    /// Fetch a plan by id.
    pub fn get_plan(&self, id: &str) -> (r: Option<Plan>)
        ensures
            r.deep_view() == find_plan(self@.plans, id@),
    {
        let i = self.plan_idx(id);
        proof {
            lemma_first_match_idx(self@.plans, |q: PlanModel| q.id == id@);
        }
        if i < self.plans.len() {
            Some(self.plans[i].clone())
        } else {
            None
        }
    }

    /// Map a provider product id to the plan it sells. Absence means the
    /// catalog is out of sync with the provider and surfaces as a server
    /// error upstream.
    pub fn get_plan_by_stripe_id(&self, stripe_id: &str) -> (r: Option<Plan>)
        ensures
            r.deep_view() == find_plan_by_stripe(self@.plans, stripe_id@),
    {
        let n = self.plans.len();
        let mut i: usize = 0;
        while i < n
            invariant
                n == self.plans.len(),
                i <= n,
                forall|j: int| 0 <= j < i ==> (#[trigger] self@.plans[j]).stripe_id != Some(
                    stripe_id@,
                ),
            decreases n - i,
        {
            let matches_row = match &self.plans[i].stripe_id {
                Some(s) => str_eq(s.as_str(), stripe_id),
                None => false,
            };
            if matches_row {
                proof {
                    let p = |q: PlanModel| q.stripe_id == Some(stripe_id@);
                    lemma_first_match_idx(self@.plans, p);
                    assert(p(self@.plans[i as int]));
                }
                return Some(self.plans[i].clone());
            }
            i = i + 1;
        }
        proof {
            lemma_first_match_idx(self@.plans, |q: PlanModel| q.stripe_id == Some(stripe_id@));
        }
        None
    }

    /// Fetch the whole catalog.
    pub fn get_plans(&self) -> (r: Vec<Plan>)
        ensures
            r.deep_view() == self@.plans,
    {
        let n = self.plans.len();
        let mut out: Vec<Plan> = Vec::new();
        let mut i: usize = 0;
        while i < n
            invariant
                n == self.plans.len(),
                i <= n,
                out.len() == i,
                forall|j: int| 0 <= j < i ==> (#[trigger] out@[j])@ == self.plans@[j]@,
            decreases n - i,
        {
            out.push(self.plans[i].clone());
            i = i + 1;
        }
        proof {
            assert(out.deep_view() =~= self@.plans);
        }
        out
    }

    // -- subscriptions ------------------------------------------------------

    fn sub_pair_idx(&self, entity_id: &str, entity_type: EntityKind) -> (r: usize)
        ensures
            r == find_sub_pair_idx(self@.subscriptions, entity_id@, entity_type),
    {
        let n = self.subscriptions.len();
        let mut i: usize = 0;
        while i < n
            invariant
                n == self.subscriptions.len(),
                i <= n,
                forall|j: int|
                    0 <= j < i ==> !((#[trigger] self@.subscriptions[j]).entity_id == entity_id@
                        && self@.subscriptions[j].entity_type == entity_type),
            decreases n - i,
        {
            if str_eq(self.subscriptions[i].entity_id.as_str(), entity_id)
                && self.subscriptions[i].entity_type == entity_type {
                proof {
                    let p = |s: SubscriptionModel|
                        s.entity_id == entity_id@ && s.entity_type == entity_type;
                    lemma_first_match_idx(self@.subscriptions, p);
                    assert(p(self@.subscriptions[i as int]));
                }
                return i;
            }
            i = i + 1;
        }
        proof {
            lemma_first_match_idx(
                self@.subscriptions,
                |s: SubscriptionModel| s.entity_id == entity_id@ && s.entity_type == entity_type,
            );
        }
        n
    }

    fn sub_id_idx(&self, id: &str) -> (r: usize)
        ensures
            r == find_sub_by_id_idx(self@.subscriptions, id@),
    {
        let n = self.subscriptions.len();
        let mut i: usize = 0;
        while i < n
            invariant
                n == self.subscriptions.len(),
                i <= n,
                forall|j: int| 0 <= j < i ==> (#[trigger] self@.subscriptions[j]).id != id@,
            decreases n - i,
        {
            if str_eq(self.subscriptions[i].id.as_str(), id) {
                proof {
                    let p = |s: SubscriptionModel| s.id == id@;
                    lemma_first_match_idx(self@.subscriptions, p);
                    assert(p(self@.subscriptions[i as int]));
                }
                return i;
            }
            i = i + 1;
        }
        proof {
            lemma_first_match_idx(self@.subscriptions, |s: SubscriptionModel| s.id == id@);
        }
        n
    }

    /// The subscription row of a user; absence is a legitimate state.
    pub fn get_user_subscription(&self, user_id: &str) -> (r: Option<Subscription>)
        ensures
            r.deep_view() == find_sub(self@.subscriptions, user_id@),
    {
        let i = self.sub_pair_idx(user_id, EntityKind::User);
        proof {
            lemma_first_match_idx(
                self@.subscriptions,
                |s: SubscriptionModel| s.entity_id == user_id@ && s.entity_type
                    == EntityKind::User,
            );
        }
        if i < self.subscriptions.len() {
            Some(self.subscriptions[i].clone())
        } else {
            None
        }
    }

    /// Insert a subscription row. Fails with `Conflict` when a row for the
    /// same `(entity_id, entity_type)` pair, or with the same id, already
    /// exists — the check-then-create race is closed here, not at the caller.
    pub fn create_subscription(&mut self, sub: Subscription) -> (r: Result<(), ApiError>)
        requires
            old(self)@.wf(),
        ensures
            final(self)@.wf(),
            match r {
                Ok(()) => find_sub_pair(
                    old(self)@.subscriptions,
                    sub@.entity_id,
                    sub@.entity_type,
                ) is None && find_sub_by_id(old(self)@.subscriptions, sub@.id) is None && (final(self)@ == StoreModel {
                    subscriptions: old(self)@.subscriptions.push(sub@),
                    ..old(self)@
                }),
                Err(e) => e == ApiError::Conflict && (find_sub_pair(
                    old(self)@.subscriptions,
                    sub@.entity_id,
                    sub@.entity_type,
                ) is Some || find_sub_by_id(old(self)@.subscriptions, sub@.id) is Some) && final(self)@ == old(self)@,
            },
    {
        let i = self.sub_pair_idx(sub.entity_id.as_str(), sub.entity_type);
        let k = self.sub_id_idx(sub.id.as_str());
        proof {
            lemma_first_match_idx(
                self@.subscriptions,
                |s: SubscriptionModel| s.entity_id == sub@.entity_id && s.entity_type
                    == sub@.entity_type,
            );
            lemma_first_match_idx(self@.subscriptions, |s: SubscriptionModel| s.id == sub@.id);
        }
        if i < self.subscriptions.len() || k < self.subscriptions.len() {
            return Err(ApiError::Conflict);
        }
        proof {
            let subs = self@.subscriptions;
            let pp = |s: SubscriptionModel| s.entity_id == sub@.entity_id && s.entity_type
                == sub@.entity_type;
            let pi = |s: SubscriptionModel| s.id == sub@.id;
            assert forall|a: int, b: int|
                0 <= a < b < subs.push(sub@).len() implies ((#[trigger] subs.push(sub@)[a]).id != (
            #[trigger] subs.push(sub@)[b]).id && !(subs.push(sub@)[a].entity_id == subs.push(
                sub@,
            )[b].entity_id && subs.push(sub@)[a].entity_type == subs.push(
                sub@,
            )[b].entity_type)) by {
                if b == subs.len() {
                    assert(!pp(subs[a]));
                    assert(!pi(subs[a]));
                }
            }
        }
        self.subscriptions.push(sub);
        proof {
            assert(self@.subscriptions =~= old(self)@.subscriptions.push(sub@));
        }
        Ok(())
    }

    /// Partially update the subscription row with the given id; fails with
    /// `NotFound` when no such row exists.
    pub fn update_subscription(&mut self, id: &str, updates: &SubscriptionUpdate) -> (r: Result<
        (),
        ApiError,
    >)
        requires
            old(self)@.wf(),
        ensures
            final(self)@.wf(),
            match r {
                Ok(()) => find_sub_by_id(old(self)@.subscriptions, id@) is Some && final(self)@
                    == (StoreModel {
                    subscriptions: old(self)@.subscriptions.update(
                        find_sub_by_id_idx(old(self)@.subscriptions, id@),
                        spec_apply_sub_update(
                            old(self)@.subscriptions[find_sub_by_id_idx(
                                old(self)@.subscriptions,
                                id@,
                            )],
                            updates@,
                        ),
                    ),
                    ..old(self)@
                }),
                Err(e) => e == ApiError::NotFound && find_sub_by_id(
                    old(self)@.subscriptions,
                    id@,
                ) is None && final(self)@ == old(self)@,
            },
    {
        let k = self.sub_id_idx(id);
        proof {
            lemma_first_match_idx(self@.subscriptions, |s: SubscriptionModel| s.id == id@);
        }
        if k >= self.subscriptions.len() {
            return Err(ApiError::NotFound);
        }
        let mut row = self.subscriptions[k].clone();
        if let Some(p) = &updates.plan_id {
            row.plan_id = p.clone();
        }
        if let Some(st) = &updates.status {
            row.status = *st;
        }
        if let Some(ps) = &updates.provider_subscription_id {
            row.provider_subscription_id = ps.clone();
        }
        if let Some(pe) = &updates.current_period_end {
            row.current_period_end = *pe;
        }
        proof {
            assert(row@ == spec_apply_sub_update(
                old(self)@.subscriptions[k as int],
                updates@,
            ));
        }
        self.subscriptions[k] = row;
        proof {
            let subs = old(self)@.subscriptions;
            let nsubs = self@.subscriptions;
            let upd = spec_apply_sub_update(subs[k as int], updates@);
            assert(nsubs =~= subs.update(k as int, upd));
            assert forall|a: int| 0 <= a < nsubs.len() implies (#[trigger] nsubs[a]).id == subs[a].id
                && nsubs[a].entity_id == subs[a].entity_id && nsubs[a].entity_type == subs[
                a
            ].entity_type by {}
        }
        Ok(())
    }

    // -- memberships ----------------------------------------------------------

    fn membership_pair_idx(&self, user_id: &str, entity_id: &str) -> (r: usize)
        ensures
            r == find_membership_idx(self@.memberships, user_id@, entity_id@),
    {
        let n = self.memberships.len();
        let mut i: usize = 0;
        while i < n
            invariant
                n == self.memberships.len(),
                i <= n,
                forall|j: int|
                    0 <= j < i ==> !((#[trigger] self@.memberships[j]).user_id == user_id@
                        && self@.memberships[j].entity_id == entity_id@),
            decreases n - i,
        {
            if str_eq(self.memberships[i].user_id.as_str(), user_id) && str_eq(
                self.memberships[i].entity_id.as_str(),
                entity_id,
            ) {
                proof {
                    let p = |m: UserMembershipModel|
                        m.user_id == user_id@ && m.entity_id == entity_id@;
                    lemma_first_match_idx(self@.memberships, p);
                    assert(p(self@.memberships[i as int]));
                }
                return i;
            }
            i = i + 1;
        }
        proof {
            lemma_first_match_idx(
                self@.memberships,
                |m: UserMembershipModel| m.user_id == user_id@ && m.entity_id == entity_id@,
            );
        }
        n
    }

    /// All membership rows of a user, in store order.
    pub fn get_user_memberships(&self, user_id: &str) -> (r: Vec<UserMembership>)
        ensures
            r.deep_view() == memberships_of(self@.memberships, user_id@),
    {
        let n = self.memberships.len();
        let mut out: Vec<UserMembership> = Vec::new();
        let mut i: usize = 0;
        proof {
            reveal(Seq::filter);
            assert(self@.memberships.take(0) =~= Seq::<UserMembershipModel>::empty());
            assert(out.deep_view() =~= memberships_of(self@.memberships.take(0), user_id@));
        }
        while i < n
            invariant
                n == self.memberships.len(),
                i <= n,
                out.deep_view() == memberships_of(self@.memberships.take(i as int), user_id@),
            decreases n - i,
        {
            let ghost pre = out.deep_view();
            let ghost t = self@.memberships.take(i as int);
            let ghost elem = self@.memberships[i as int];
            if str_eq(self.memberships[i].user_id.as_str(), user_id) {
                out.push(self.memberships[i].clone());
                proof {
                    assert(out.deep_view() =~= pre.push(elem));
                }
            }
            proof {
                let p = |m: UserMembershipModel| m.user_id == user_id@;
                assert(self@.memberships.take((i + 1) as int) =~= t.push(elem));
                lemma_filter_push(t, p, elem);
            }
            i = i + 1;
        }
        proof {
            assert(self@.memberships.take(n as int) =~= self@.memberships);
        }
        out
    }

    /// Insert a membership row.
    pub fn add_member(&mut self, membership: UserMembership)
        requires
            old(self)@.wf(),
        ensures
            final(self)@.wf(),
            final(self)@ == (StoreModel {
                memberships: old(self)@.memberships.push(membership@),
                ..old(self)@
            }),
    {
        self.memberships.push(membership);
        proof {
            assert(self@.memberships =~= old(self)@.memberships.push(membership@));
        }
    }

    /// Replace the role of every membership of one `(user, entity)` pair and
    /// return the pair's row; fails with `NotFound` when the pair has none.
    pub fn update_member_role(&mut self, user_id: &str, entity_id: &str, role: Role) -> (r: Result<
        UserMembership,
        ApiError,
    >)
        requires
            old(self)@.wf(),
        ensures
            final(self)@.wf(),
            match r {
                Ok(m) => {
                    let idx = find_membership_idx(old(self)@.memberships, user_id@, entity_id@);
                    &&& idx < old(self)@.memberships.len()
                    &&& final(self)@ == (StoreModel {
                        memberships: spec_set_role(
                            old(self)@.memberships,
                            user_id@,
                            entity_id@,
                            role,
                        ),
                        ..old(self)@
                    })
                    &&& m@ == final(self)@.memberships[idx]
                },
                Err(e) => e == ApiError::NotFound && find_membership_idx(
                    old(self)@.memberships,
                    user_id@,
                    entity_id@,
                ) == old(self)@.memberships.len() && final(self)@ == old(self)@,
            },
    {
        let k = self.membership_pair_idx(user_id, entity_id);
        proof {
            lemma_first_match_idx(
                self@.memberships,
                |m: UserMembershipModel| m.user_id == user_id@ && m.entity_id == entity_id@,
            );
        }
        if k >= self.memberships.len() {
            return Err(ApiError::NotFound);
        }
        let n = self.memberships.len();
        let mut out: Vec<UserMembership> = Vec::new();
        let mut i: usize = 0;
        proof {
            assert(self@.memberships.take(0) =~= Seq::<UserMembershipModel>::empty());
            assert(out.deep_view() =~= spec_set_role(
                self@.memberships.take(0),
                user_id@,
                entity_id@,
                role,
            ));
        }
        while i < n
            invariant
                n == self.memberships.len(),
                i <= n,
                self@ == old(self)@,
                out.deep_view() == spec_set_role(
                    self@.memberships.take(i as int),
                    user_id@,
                    entity_id@,
                    role,
                ),
            decreases n - i,
        {
            let ghost pre = out.deep_view();
            let ghost t = self@.memberships.take(i as int);
            let ghost elem = self@.memberships[i as int];
            let is_match = str_eq(self.memberships[i].user_id.as_str(), user_id) && str_eq(
                self.memberships[i].entity_id.as_str(),
                entity_id,
            );
            let mut row = self.memberships[i].clone();
            if is_match {
                row.role = role;
            }
            let ghost rowm = row@;
            out.push(row);
            proof {
                assert(out.deep_view() =~= pre.push(rowm));
                if is_match {
                    assert(rowm == (UserMembershipModel { role: role, ..elem }));
                } else {
                    assert(rowm == elem);
                }
                assert(self@.memberships.take((i + 1) as int) =~= t.push(elem));
                assert(out.deep_view() =~= spec_set_role(t.push(elem), user_id@, entity_id@, role));
            }
            i = i + 1;
        }
        proof {
            assert(self@.memberships.take(n as int) =~= self@.memberships);
        }
        self.memberships = out;
        proof {
            assert(self@ == (StoreModel {
                memberships: spec_set_role(old(self)@.memberships, user_id@, entity_id@, role),
                ..old(self)@
            }));
        }
        let m = self.memberships[k].clone();
        Ok(m)
    }

    /// Remove every membership of one `(user, entity)` pair; fails with
    /// `NotFound` when the pair has none.
    pub fn remove_member(&mut self, user_id: &str, entity_id: &str) -> (r: Result<(), ApiError>)
        requires
            old(self)@.wf(),
        ensures
            final(self)@.wf(),
            match r {
                Ok(()) => find_membership_idx(old(self)@.memberships, user_id@, entity_id@) < old(
                    self,
                )@.memberships.len() && final(self)@ == (StoreModel {
                    memberships: spec_remove_membership(
                        old(self)@.memberships,
                        user_id@,
                        entity_id@,
                    ),
                    ..old(self)@
                }),
                Err(e) => e == ApiError::NotFound && find_membership_idx(
                    old(self)@.memberships,
                    user_id@,
                    entity_id@,
                ) == old(self)@.memberships.len() && final(self)@ == old(self)@,
            },
    {
        let k = self.membership_pair_idx(user_id, entity_id);
        proof {
            lemma_first_match_idx(
                self@.memberships,
                |m: UserMembershipModel| m.user_id == user_id@ && m.entity_id == entity_id@,
            );
        }
        if k >= self.memberships.len() {
            return Err(ApiError::NotFound);
        }
        let n = self.memberships.len();
        let mut out: Vec<UserMembership> = Vec::new();
        let mut i: usize = 0;
        proof {
            reveal(Seq::filter);
            assert(old(self)@.memberships.take(0) =~= Seq::<UserMembershipModel>::empty());
            assert(out.deep_view() =~= spec_remove_membership(
                old(self)@.memberships.take(0),
                user_id@,
                entity_id@,
            ));
        }
        while i < n
            invariant
                n == self.memberships.len(),
                i <= n,
                self@ == old(self)@,
                out.deep_view() == spec_remove_membership(
                    self@.memberships.take(i as int),
                    user_id@,
                    entity_id@,
                ),
            decreases n - i,
        {
            let ghost pre = out.deep_view();
            let ghost t = self@.memberships.take(i as int);
            let ghost elem = self@.memberships[i as int];
            let is_match = str_eq(self.memberships[i].user_id.as_str(), user_id) && str_eq(
                self.memberships[i].entity_id.as_str(),
                entity_id,
            );
            if !is_match {
                out.push(self.memberships[i].clone());
                proof {
                    assert(out.deep_view() =~= pre.push(elem));
                }
            }
            proof {
                let p = |m: UserMembershipModel|
                    !(m.user_id == user_id@ && m.entity_id == entity_id@);
                assert(self@.memberships.take((i + 1) as int) =~= t.push(elem));
                lemma_filter_push(t, p, elem);
            }
            i = i + 1;
        }
        proof {
            assert(self@.memberships.take(n as int) =~= self@.memberships);
        }
        self.memberships = out;
        Ok(())
    }

    /// Remove every membership row of a user, across all entities. Cancel
    /// uses this broad cleanup; the webhook path deliberately does not.
    pub fn remove_members_for_user(&mut self, user_id: &str)
        requires
            old(self)@.wf(),
        ensures
            final(self)@.wf(),
            final(self)@ == (StoreModel {
                memberships: spec_remove_memberships_of_user(old(self)@.memberships, user_id@),
                ..old(self)@
            }),
    {
        let n = self.memberships.len();
        let mut out: Vec<UserMembership> = Vec::new();
        let mut i: usize = 0;
        proof {
            reveal(Seq::filter);
            assert(old(self)@.memberships.take(0) =~= Seq::<UserMembershipModel>::empty());
            assert(out.deep_view() =~= spec_remove_memberships_of_user(
                old(self)@.memberships.take(0),
                user_id@,
            ));
        }
        while i < n
            invariant
                n == self.memberships.len(),
                i <= n,
                self@ == old(self)@,
                out.deep_view() == spec_remove_memberships_of_user(
                    self@.memberships.take(i as int),
                    user_id@,
                ),
            decreases n - i,
        {
            let ghost pre = out.deep_view();
            let ghost t = self@.memberships.take(i as int);
            let ghost elem = self@.memberships[i as int];
            if !str_eq(self.memberships[i].user_id.as_str(), user_id) {
                out.push(self.memberships[i].clone());
                proof {
                    assert(out.deep_view() =~= pre.push(elem));
                }
            }
            proof {
                let p = |m: UserMembershipModel| m.user_id != user_id@;
                assert(self@.memberships.take((i + 1) as int) =~= t.push(elem));
                lemma_filter_push(t, p, elem);
            }
            i = i + 1;
        }
        proof {
            assert(self@.memberships.take(n as int) =~= self@.memberships);
        }
        self.memberships = out;
    }

    // -- user settings --------------------------------------------------------

    fn settings_idx(&self, user_id: &str) -> (r: usize)
        ensures
            r == find_settings_idx(self@.settings, user_id@),
    {
        let n = self.settings.len();
        let mut i: usize = 0;
        while i < n
            invariant
                n == self.settings.len(),
                i <= n,
                forall|j: int| 0 <= j < i ==> (#[trigger] self@.settings[j]).user_id != user_id@,
            decreases n - i,
        {
            if str_eq(self.settings[i].user_id.as_str(), user_id) {
                proof {
                    let p = |s: UserSettingsModel| s.user_id == user_id@;
                    lemma_first_match_idx(self@.settings, p);
                    assert(p(self@.settings[i as int]));
                }
                return i;
            }
            i = i + 1;
        }
        proof {
            lemma_first_match_idx(self@.settings, |s: UserSettingsModel| s.user_id == user_id@);
        }
        n
    }

    /// The settings row of a user, when one exists.
    pub fn get_user_settings(&self, user_id: &str) -> (r: Option<UserSettings>)
        ensures
            r.deep_view() == find_settings(self@.settings, user_id@),
    {
        let i = self.settings_idx(user_id);
        proof {
            lemma_first_match_idx(self@.settings, |s: UserSettingsModel| s.user_id == user_id@);
        }
        if i < self.settings.len() {
            Some(self.settings[i].clone())
        } else {
            None
        }
    }

    /// Insert a settings row; fails with `Conflict` when the user already has
    /// one.
    pub fn create_user_settings(&mut self, user_settings: UserSettings) -> (r: Result<
        (),
        ApiError,
    >)
        requires
            old(self)@.wf(),
        ensures
            final(self)@.wf(),
            match r {
                Ok(()) => find_settings(old(self)@.settings, user_settings@.user_id) is None
                    && final(self)@ == (StoreModel {
                    settings: old(self)@.settings.push(user_settings@),
                    ..old(self)@
                }),
                Err(e) => e == ApiError::Conflict && find_settings(
                    old(self)@.settings,
                    user_settings@.user_id,
                ) is Some && final(self)@ == old(self)@,
            },
    {
        let i = self.settings_idx(user_settings.user_id.as_str());
        proof {
            lemma_first_match_idx(
                self@.settings,
                |s: UserSettingsModel| s.user_id == user_settings@.user_id,
            );
        }
        if i < self.settings.len() {
            return Err(ApiError::Conflict);
        }
        proof {
            let ss = self@.settings;
            let p = |s: UserSettingsModel| s.user_id == user_settings@.user_id;
            assert forall|a: int, b: int|
                0 <= a < b < ss.push(user_settings@).len() implies (#[trigger] ss.push(
                user_settings@,
            )[a]).user_id != (#[trigger] ss.push(user_settings@)[b]).user_id by {
                if b == ss.len() {
                    assert(!p(ss[a]));
                }
            }
        }
        self.settings.push(user_settings);
        proof {
            assert(self@.settings =~= old(self)@.settings.push(user_settings@));
        }
        Ok(())
    }

    /// Replace the settings blob of a user's row; fails with `NotFound` when
    /// the user has no settings row.
    pub fn update_user_settings(&mut self, user_id: &str, settings_blob: UserSettingsRequest) -> (r:
        Result<(), ApiError>)
        requires
            old(self)@.wf(),
        ensures
            final(self)@.wf(),
            match r {
                Ok(()) => {
                    let idx = find_settings_idx(old(self)@.settings, user_id@);
                    &&& idx < old(self)@.settings.len()
                    &&& final(self)@ == (StoreModel {
                        settings: old(self)@.settings.update(
                            idx,
                            UserSettingsModel {
                                settings_blob: settings_blob,
                                ..old(self)@.settings[idx]
                            },
                        ),
                        ..old(self)@
                    })
                },
                Err(e) => e == ApiError::NotFound && find_settings(
                    old(self)@.settings,
                    user_id@,
                ) is None && final(self)@ == old(self)@,
            },
    {
        let k = self.settings_idx(user_id);
        proof {
            lemma_first_match_idx(self@.settings, |s: UserSettingsModel| s.user_id == user_id@);
        }
        if k >= self.settings.len() {
            return Err(ApiError::NotFound);
        }
        let mut row = self.settings[k].clone();
        row.settings_blob = settings_blob;
        self.settings[k] = row;
        proof {
            let ss = old(self)@.settings;
            let nss = self@.settings;
            assert(nss =~= ss.update(
                k as int,
                UserSettingsModel { settings_blob: settings_blob, ..ss[k as int] },
            ));
            assert forall|a: int| 0 <= a < nss.len() implies (#[trigger] nss[a]).user_id == ss[
                a
            ].user_id by {}
        }
        Ok(())
    }

    /// Delete a user's settings row; fails with `NotFound` when absent.
    pub fn delete_user_settings(&mut self, user_id: &str) -> (r: Result<(), ApiError>)
        requires
            old(self)@.wf(),
        ensures
            final(self)@.wf(),
            match r {
                Ok(()) => find_settings(old(self)@.settings, user_id@) is Some && final(self)@
                    == (StoreModel {
                    settings: old(self)@.settings.remove(
                        find_settings_idx(old(self)@.settings, user_id@),
                    ),
                    ..old(self)@
                }),
                Err(e) => e == ApiError::NotFound && find_settings(
                    old(self)@.settings,
                    user_id@,
                ) is None && final(self)@ == old(self)@,
            },
    {
        let k = self.settings_idx(user_id);
        proof {
            lemma_first_match_idx(self@.settings, |s: UserSettingsModel| s.user_id == user_id@);
        }
        if k >= self.settings.len() {
            return Err(ApiError::NotFound);
        }
        proof {
            let ss = self@.settings;
            let kk = k as int;
            assert forall|a: int, b: int|
                0 <= a < b < ss.remove(kk).len() implies (#[trigger] ss.remove(kk)[a]).user_id != (
            #[trigger] ss.remove(kk)[b]).user_id by {
                let a0 = if a < kk {
                    a
                } else {
                    a + 1
                };
                let b0 = if b < kk {
                    b
                } else {
                    b + 1
                };
                assert(ss.remove(kk)[a] == ss[a0]);
                assert(ss.remove(kk)[b] == ss[b0]);
            }
        }
        self.settings.remove(k);
        proof {
            assert(self@.settings =~= old(self)@.settings.remove(k as int));
        }
        Ok(())
    }

    // -- links ----------------------------------------------------------------

    fn link_idx(&self, id: &str) -> (r: usize)
        ensures
            r == find_link_idx(self@.links, id@),
    {
        let n = self.links.len();
        let mut i: usize = 0;
        while i < n
            invariant
                n == self.links.len(),
                i <= n,
                forall|j: int| 0 <= j < i ==> (#[trigger] self@.links[j]).id != id@,
            decreases n - i,
        {
            if str_eq(self.links[i].id.as_str(), id) {
                proof {
                    let p = |l: LinkModel| l.id == id@;
                    lemma_first_match_idx(self@.links, p);
                    assert(p(self@.links[i as int]));
                }
                return i;
            }
            i = i + 1;
        }
        proof {
            lemma_first_match_idx(self@.links, |l: LinkModel| l.id == id@);
        }
        n
    }

    /// All links of one owner, in store order.
    pub fn get_links(&self, owner_id: &str, owner_type: EntityKind) -> (r: Vec<Link>)
        ensures
            r.deep_view() == links_of(self@.links, owner_id@, owner_type),
    {
        let n = self.links.len();
        let mut out: Vec<Link> = Vec::new();
        let mut i: usize = 0;
        proof {
            reveal(Seq::filter);
            assert(self@.links.take(0) =~= Seq::<LinkModel>::empty());
            assert(out.deep_view() =~= links_of(self@.links.take(0), owner_id@, owner_type));
        }
        while i < n
            invariant
                n == self.links.len(),
                i <= n,
                out.deep_view() == links_of(self@.links.take(i as int), owner_id@, owner_type),
            decreases n - i,
        {
            let ghost pre = out.deep_view();
            let ghost t = self@.links.take(i as int);
            let ghost elem = self@.links[i as int];
            if str_eq(self.links[i].owner_id.as_str(), owner_id) && self.links[i].owner_type
                == owner_type {
                out.push(self.links[i].clone());
                proof {
                    assert(out.deep_view() =~= pre.push(elem));
                }
            }
            proof {
                let p = |l: LinkModel| l.owner_id == owner_id@ && l.owner_type == owner_type;
                assert(self@.links.take((i + 1) as int) =~= t.push(elem));
                lemma_filter_push(t, p, elem);
            }
            i = i + 1;
        }
        proof {
            assert(self@.links.take(n as int) =~= self@.links);
        }
        out
    }

    /// A link by id, restricted to its owner.
    pub fn get_link(&self, id: &str, owner_id: &str) -> (r: Option<Link>)
        ensures
            r.deep_view() == find_link_by_owner(self@.links, id@, owner_id@),
    {
        let n = self.links.len();
        let mut i: usize = 0;
        while i < n
            invariant
                n == self.links.len(),
                i <= n,
                forall|j: int|
                    0 <= j < i ==> !((#[trigger] self@.links[j]).id == id@
                        && self@.links[j].owner_id == owner_id@),
            decreases n - i,
        {
            if str_eq(self.links[i].id.as_str(), id) && str_eq(
                self.links[i].owner_id.as_str(),
                owner_id,
            ) {
                proof {
                    let p = |l: LinkModel| l.id == id@ && l.owner_id == owner_id@;
                    lemma_first_match_idx(self@.links, p);
                    assert(p(self@.links[i as int]));
                }
                return Some(self.links[i].clone());
            }
            i = i + 1;
        }
        proof {
            lemma_first_match_idx(
                self@.links,
                |l: LinkModel| l.id == id@ && l.owner_id == owner_id@,
            );
        }
        None
    }

    /// Insert a link row; fails with `Conflict` when the id is taken.
    pub fn create_link(&mut self, link: Link) -> (r: Result<(), ApiError>)
        requires
            old(self)@.wf(),
        ensures
            final(self)@.wf(),
            match r {
                Ok(()) => find_link(old(self)@.links, link@.id) is None && final(self)@
                    == (StoreModel { links: old(self)@.links.push(link@), ..old(self)@ }),
                Err(e) => e == ApiError::Conflict && find_link(old(self)@.links, link@.id) is Some
                    && final(self)@ == old(self)@,
            },
    {
        let i = self.link_idx(link.id.as_str());
        proof {
            lemma_first_match_idx(self@.links, |l: LinkModel| l.id == link@.id);
        }
        if i < self.links.len() {
            return Err(ApiError::Conflict);
        }
        proof {
            let ls = self@.links;
            let p = |l: LinkModel| l.id == link@.id;
            assert forall|a: int, b: int|
                0 <= a < b < ls.push(link@).len() implies (#[trigger] ls.push(link@)[a]).id != (
            #[trigger] ls.push(link@)[b]).id by {
                if b == ls.len() {
                    assert(!p(ls[a]));
                }
            }
        }
        self.links.push(link);
        proof {
            assert(self@.links =~= old(self)@.links.push(link@));
        }
        Ok(())
    }

    /// Partially update a link row; fails with `NotFound` when no row has the
    /// request's id.
    pub fn update_link(&mut self, updates: &UpdateLinkRequest) -> (r: Result<(), ApiError>)
        requires
            old(self)@.wf(),
        ensures
            final(self)@.wf(),
            match r {
                Ok(()) => {
                    let idx = find_link_idx(old(self)@.links, updates@.id);
                    &&& idx < old(self)@.links.len()
                    &&& final(self)@ == (StoreModel {
                        links: old(self)@.links.update(
                            idx,
                            spec_apply_link_update(old(self)@.links[idx], updates@),
                        ),
                        ..old(self)@
                    })
                },
                Err(e) => e == ApiError::NotFound && find_link(
                    old(self)@.links,
                    updates@.id,
                ) is None && final(self)@ == old(self)@,
            },
    {
        let k = self.link_idx(updates.id.as_str());
        proof {
            lemma_first_match_idx(self@.links, |l: LinkModel| l.id == updates@.id);
        }
        if k >= self.links.len() {
            return Err(ApiError::NotFound);
        }
        let mut row = self.links[k].clone();
        if let Some(u) = &updates.url {
            row.url = u.clone();
        }
        if let Some(d) = &updates.description {
            row.description = Some(d.clone());
        }
        if let Some(t) = &updates.title {
            row.title = t.clone();
        }
        if let Some(ic) = &updates.icon {
            row.icon = Some(ic.clone());
        }
        if let Some(c) = &updates.column_type {
            row.column_type = c.clone();
        }
        proof {
            assert(row@ == spec_apply_link_update(old(self)@.links[k as int], updates@));
        }
        self.links[k] = row;
        proof {
            let ls = old(self)@.links;
            let nls = self@.links;
            assert(nls =~= ls.update(
                k as int,
                spec_apply_link_update(ls[k as int], updates@),
            ));
            assert forall|a: int| 0 <= a < nls.len() implies (#[trigger] nls[a]).id == ls[
                a
            ].id by {}
        }
        Ok(())
    }

    /// Delete a link row by id; fails with `NotFound` when absent.
    pub fn delete_link(&mut self, id: &str) -> (r: Result<(), ApiError>)
        requires
            old(self)@.wf(),
        ensures
            final(self)@.wf(),
            match r {
                Ok(()) => find_link(old(self)@.links, id@) is Some && final(self)@ == (StoreModel {
                    links: old(self)@.links.remove(find_link_idx(old(self)@.links, id@)),
                    ..old(self)@
                }),
                Err(e) => e == ApiError::NotFound && find_link(old(self)@.links, id@) is None
                    && final(self)@ == old(self)@,
            },
    {
        let k = self.link_idx(id);
        proof {
            lemma_first_match_idx(self@.links, |l: LinkModel| l.id == id@);
        }
        if k >= self.links.len() {
            return Err(ApiError::NotFound);
        }
        proof {
            let ls = self@.links;
            let kk = k as int;
            assert forall|a: int, b: int|
                0 <= a < b < ls.remove(kk).len() implies (#[trigger] ls.remove(kk)[a]).id != (
            #[trigger] ls.remove(kk)[b]).id by {
                let a0 = if a < kk {
                    a
                } else {
                    a + 1
                };
                let b0 = if b < kk {
                    b
                } else {
                    b + 1
                };
                assert(ls.remove(kk)[a] == ls[a0]);
                assert(ls.remove(kk)[b] == ls[b0]);
            }
        }
        self.links.remove(k);
        proof {
            assert(self@.links =~= old(self)@.links.remove(k as int));
        }
        Ok(())
    }

    // -- feedback throttle ----------------------------------------------------

    fn feedback_idx(&self, user_id: &str) -> (r: usize)
        ensures
            r == find_feedback_idx(self@.feedback_timestamps, user_id@),
    {
        let n = self.feedback_timestamps.len();
        let mut i: usize = 0;
        while i < n
            invariant
                n == self.feedback_timestamps.len(),
                i <= n,
                forall|j: int|
                    0 <= j < i ==> (#[trigger] self@.feedback_timestamps[j]).user_id != user_id@,
            decreases n - i,
        {
            if str_eq(self.feedback_timestamps[i].user_id.as_str(), user_id) {
                proof {
                    let p = |f: FeedbackTimestampModel| f.user_id == user_id@;
                    lemma_first_match_idx(self@.feedback_timestamps, p);
                    assert(p(self@.feedback_timestamps[i as int]));
                }
                return i;
            }
            i = i + 1;
        }
        proof {
            lemma_first_match_idx(
                self@.feedback_timestamps,
                |f: FeedbackTimestampModel| f.user_id == user_id@,
            );
        }
        n
    }

    /// Record when a user sent feedback.
    pub fn create_feedback_timestamp(&mut self, user_id: &str, created_at: i64)
        requires
            old(self)@.wf(),
        ensures
            final(self)@.wf(),
            final(self)@ == (StoreModel {
                feedback_timestamps: old(self)@.feedback_timestamps.push(
                    FeedbackTimestampModel { user_id: user_id@, created_at: created_at },
                ),
                ..old(self)@
            }),
    {
        let row = FeedbackTimestamp { user_id: user_id.to_owned(), created_at: created_at };
        self.feedback_timestamps.push(row);
        proof {
            assert(self@.feedback_timestamps =~= old(self)@.feedback_timestamps.push(
                FeedbackTimestampModel { user_id: user_id@, created_at: created_at },
            ));
        }
    }

    /// Whether a user may send feedback at time `now`: true when no feedback
    /// was recorded in the last 24 hours. A stale record is dropped so the
    /// next check starts clean.
    pub fn check_feedback_timestamp(&mut self, user_id: &str, now: i64) -> (r: bool)
        requires
            old(self)@.wf(),
        ensures
            final(self)@.wf(),
            match find_feedback(old(self)@.feedback_timestamps, user_id@) {
                Some(f) => if f.created_at + 86400 > now {
                    r == false && final(self)@ == old(self)@
                } else {
                    r == true && final(self)@ == (StoreModel {
                        feedback_timestamps: feedback_without(
                            old(self)@.feedback_timestamps,
                            user_id@,
                        ),
                        ..old(self)@
                    })
                },
                None => r == true && final(self)@ == old(self)@,
            },
    {
        let k = self.feedback_idx(user_id);
        proof {
            lemma_first_match_idx(
                self@.feedback_timestamps,
                |f: FeedbackTimestampModel| f.user_id == user_id@,
            );
        }
        if k >= self.feedback_timestamps.len() {
            return true;
        }
        if (self.feedback_timestamps[k].created_at as i128) + 86400 > (now as i128) {
            return false;
        }
        let n = self.feedback_timestamps.len();
        let mut out: Vec<FeedbackTimestamp> = Vec::new();
        let mut i: usize = 0;
        proof {
            reveal(Seq::filter);
            assert(old(self)@.feedback_timestamps.take(0) =~= Seq::<
                FeedbackTimestampModel,
            >::empty());
            assert(out.deep_view() =~= feedback_without(
                old(self)@.feedback_timestamps.take(0),
                user_id@,
            ));
        }
        while i < n
            invariant
                n == self.feedback_timestamps.len(),
                i <= n,
                self@ == old(self)@,
                out.deep_view() == feedback_without(
                    self@.feedback_timestamps.take(i as int),
                    user_id@,
                ),
            decreases n - i,
        {
            let ghost pre = out.deep_view();
            let ghost t = self@.feedback_timestamps.take(i as int);
            let ghost elem = self@.feedback_timestamps[i as int];
            if !str_eq(self.feedback_timestamps[i].user_id.as_str(), user_id) {
                out.push(self.feedback_timestamps[i].clone());
                proof {
                    assert(out.deep_view() =~= pre.push(elem));
                }
            }
            proof {
                let p = |f: FeedbackTimestampModel| f.user_id != user_id@;
                assert(self@.feedback_timestamps.take((i + 1) as int) =~= t.push(elem));
                lemma_filter_push(t, p, elem);
            }
            i = i + 1;
        }
        proof {
            assert(self@.feedback_timestamps.take(n as int) =~= self@.feedback_timestamps);
        }
        self.feedback_timestamps = out;
        true
    }
}

} // verus!
