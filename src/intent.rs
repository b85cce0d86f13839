use vstd::prelude::*;

verus! {

/// The lifecycle status of a payment intent.
#[derive(Clone, Copy, Debug, PartialEq, Eq, Structural)]
pub enum IntentStatus {
    RequiresPaymentMethod,
    RequiresConfirmation,
    SplitInProgress,
    Processing,
    Succeeded,
    Failed,
}

/// How the intent's current attempt is referred to.
#[derive(Clone, Copy, Debug, PartialEq, Eq, Structural)]
pub enum ActiveAttemptIdType {
    AttemptId,
    AttemptsGroupId,
}

/// The aggregate record of one payer obligation.
#[derive(Debug, PartialEq, Eq)]
pub struct PaymentIntent {
    pub id: String,
    /// The amount owed, in the currency's minor unit.
    pub order_amount: u64,
    pub status: IntentStatus,
    pub active_attempt_id_type: ActiveAttemptIdType,
    pub active_attempts_group_id: Option<String>,
}

/// A tagged change to a payment intent, applied by the intent store.
#[derive(Debug, PartialEq, Eq)]
pub enum IntentUpdate {
    /// Enters a split run: status to split in progress, with a fresh attempt group.
    SplitUpdate {
        active_attempt_id_type: ActiveAttemptIdType,
        active_attempts_group_id: String,
    },
    /// Sets the status alone.
    StatusUpdate { status: IntentStatus },
}

/// The intent after `update` is applied to it.
pub open spec fn updated(intent: PaymentIntent, update: IntentUpdate) -> PaymentIntent {
    match update {
        IntentUpdate::SplitUpdate { active_attempt_id_type, active_attempts_group_id } => PaymentIntent {
            status: IntentStatus::SplitInProgress,
            active_attempt_id_type,
            active_attempts_group_id: Some(active_attempts_group_id),
            ..intent
        },
        IntentUpdate::StatusUpdate { status } => PaymentIntent { status, ..intent },
    }
}

impl Clone for PaymentIntent {
    fn clone(&self) -> (r: Self)
        ensures
            r == *self,
    {
        PaymentIntent {
            id: self.id.clone(),
            order_amount: self.order_amount,
            status: self.status,
            active_attempt_id_type: self.active_attempt_id_type,
            active_attempts_group_id: match &self.active_attempts_group_id {
                Some(g) => Some(g.clone()),
                None => None,
            },
        }
    }
}

impl Clone for IntentUpdate {
    fn clone(&self) -> (r: Self)
        ensures
            r == *self,
    {
        match self {
            IntentUpdate::SplitUpdate { active_attempt_id_type, active_attempts_group_id } => IntentUpdate::SplitUpdate {
                active_attempt_id_type: *active_attempt_id_type,
                active_attempts_group_id: active_attempts_group_id.clone(),
            },
            IntentUpdate::StatusUpdate { status } => IntentUpdate::StatusUpdate { status: *status },
        }
    }
}

impl PaymentIntent {
    /// Applies a tagged update, as the intent store does when it persists one.
    pub fn apply_update(self, update: IntentUpdate) -> (r: PaymentIntent)
        ensures
            r == updated(self, update),
    {
        match update {
            IntentUpdate::SplitUpdate { active_attempt_id_type, active_attempts_group_id } => PaymentIntent {
                status: IntentStatus::SplitInProgress,
                active_attempt_id_type,
                active_attempts_group_id: Some(active_attempts_group_id),
                ..self
            },
            IntentUpdate::StatusUpdate { status } => PaymentIntent { status, ..self },
        }
    }
}

} // verus!
