use vstd::prelude::*;

verus! {

// The payment provider is an external collaborator. The engine never sees the
// provider's own objects; the transport layer reduces what it fetched to the
// plain observations below, and every decision in this crate is verified over
// them.

/// Status of a provider-side subscription, reduced to what the engine reads:
/// either it is active, or it is anything else.
#[derive(Clone, Copy, Debug, PartialEq, Eq, Structural)]
pub enum ProviderStatus {
    Active,
    Other,
}

/// A provider-side customer, as observed at one point in time.
#[derive(Debug)]
pub struct ProviderCustomer {
    pub id: String,
    pub email: Option<String>,
}

pub struct ProviderCustomerModel {
    pub id: Seq<char>,
    pub email: Option<Seq<char>>,
}

impl View for ProviderCustomer {
    type V = ProviderCustomerModel;

    open spec fn view(&self) -> ProviderCustomerModel {
        ProviderCustomerModel { id: self.id@, email: self.email.deep_view() }
    }
}

impl DeepView for ProviderCustomer {
    type V = ProviderCustomerModel;

    open spec fn deep_view(&self) -> ProviderCustomerModel {
        self.view()
    }
}

/// A provider-side subscription, as observed at one point in time.
/// `product_id` is the provider's product of the first subscription item,
/// absent when the provider returned no item or no product.
#[derive(Debug)]
pub struct ProviderSubscription {
    pub id: String,
    pub status: ProviderStatus,
    pub cancel_at_period_end: bool,
    pub current_period_end: i64,
    pub product_id: Option<String>,
}

pub struct ProviderSubscriptionModel {
    pub id: Seq<char>,
    pub status: ProviderStatus,
    pub cancel_at_period_end: bool,
    pub current_period_end: i64,
    pub product_id: Option<Seq<char>>,
}

impl View for ProviderSubscription {
    type V = ProviderSubscriptionModel;

    open spec fn view(&self) -> ProviderSubscriptionModel {
        ProviderSubscriptionModel {
            id: self.id@,
            status: self.status,
            cancel_at_period_end: self.cancel_at_period_end,
            current_period_end: self.current_period_end,
            product_id: self.product_id.deep_view(),
        }
    }
}

impl DeepView for ProviderSubscription {
    type V = ProviderSubscriptionModel;

    open spec fn deep_view(&self) -> ProviderSubscriptionModel {
        self.view()
    }
}

/// Everything the engine learns from the provider about one user in one pass:
/// the customer looked up by email, and that customer's first subscription.
/// A transport failure is reported as absence, so the engine degrades to the
/// free plan rather than blocking the caller.
#[derive(Debug)]
pub struct ProviderObservation {
    pub customer: Option<ProviderCustomer>,
    pub subscription: Option<ProviderSubscription>,
}

pub struct ProviderObservationModel {
    pub customer: Option<ProviderCustomerModel>,
    pub subscription: Option<ProviderSubscriptionModel>,
}

impl View for ProviderObservation {
    type V = ProviderObservationModel;

    open spec fn view(&self) -> ProviderObservationModel {
        ProviderObservationModel {
            customer: self.customer.deep_view(),
            subscription: self.subscription.deep_view(),
        }
    }
}

impl DeepView for ProviderObservation {
    type V = ProviderObservationModel;

    open spec fn deep_view(&self) -> ProviderObservationModel {
        self.view()
    }
}

/// The states of a (user, billing-entity) pair as the engine observes them.
#[derive(Clone, Copy, Debug, PartialEq, Eq, Structural)]
pub enum ProviderState {
    /// No provider customer for this email.
    NoCustomer,
    /// Customer exists but has never subscribed.
    NoSubscription,
    /// A subscription exists but is not active, or its period has elapsed.
    Inactive,
    /// Active and flagged to cancel at period end.
    ActiveCancelling,
    /// Active and not flagged to cancel.
    ActiveCurrent,
}

/// How an observation is classified at time `now`.
pub open spec fn spec_classify(obs: ProviderObservationModel, now: i64) -> ProviderState {
    if obs.customer is None {
        ProviderState::NoCustomer
    } else if obs.subscription is None {
        ProviderState::NoSubscription
    } else {
        let sub = obs.subscription->Some_0;
        if !(sub.status is Active) || sub.current_period_end <= now {
            ProviderState::Inactive
        } else if sub.cancel_at_period_end {
            ProviderState::ActiveCancelling
        } else {
            ProviderState::ActiveCurrent
        }
    }
}

/// The states whose target is the free plan: the engine answers with the
/// configured free plan id and a zero period end, and writes nothing.
pub open spec fn spec_free_state(state: ProviderState) -> bool {
    state is NoCustomer || state is NoSubscription || state is Inactive
}

/// Classify a provider observation at time `now`.
pub fn classify_provider(obs: &ProviderObservation, now: i64) -> (state: ProviderState)
    ensures
        state == spec_classify(obs@, now),
{
    match &obs.customer {
        None => ProviderState::NoCustomer,
        Some(_) => match &obs.subscription {
            None => ProviderState::NoSubscription,
            Some(sub) => {
                if !(sub.status == ProviderStatus::Active) || sub.current_period_end <= now {
                    ProviderState::Inactive
                } else if sub.cancel_at_period_end {
                    ProviderState::ActiveCancelling
                } else {
                    ProviderState::ActiveCurrent
                }
            },
        },
    }
}

impl Clone for ProviderCustomer {
    fn clone(&self) -> (r: Self)
        ensures
            r@ == self@,
    {
        ProviderCustomer { id: self.id.clone(), email: crate::model::clone_opt_string(&self.email) }
    }
}

impl Clone for ProviderSubscription {
    fn clone(&self) -> (r: Self)
        ensures
            r@ == self@,
    {
        ProviderSubscription {
            id: self.id.clone(),
            status: self.status,
            cancel_at_period_end: self.cancel_at_period_end,
            current_period_end: self.current_period_end,
            product_id: crate::model::clone_opt_string(&self.product_id),
        }
    }
}

impl Clone for ProviderObservation {
    fn clone(&self) -> (r: Self)
        ensures
            r@ == self@,
    {
        ProviderObservation {
            customer: match &self.customer {
                Some(c) => Some(c.clone()),
                None => None,
            },
            subscription: match &self.subscription {
                Some(s) => Some(s.clone()),
                None => None,
            },
        }
    }
}

} // verus!
