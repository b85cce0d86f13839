use vstd::prelude::*;
use crate::allocation::{
    allocate_legs, allocation_of, balance_keys, merged_of, prepare_split, prepared_of,
    primary_count, ConfirmRequest, InstrumentPlan, Leg,
};
use crate::balance::BalanceSnapshot;
use crate::error::{InvalidRequestReason, SplitError};
use crate::instrument::{key_of, BalanceKey};
use crate::intent::{ActiveAttemptIdType, IntentStatus, IntentUpdate, PaymentIntent};

verus! {

/// Where a split run stands: each phase waits for the outcome of one outside step.
#[derive(Clone, Copy, Debug, PartialEq, Eq, Structural)]
pub enum Phase {
    /// Waiting for the payment intent to be loaded.
    LoadingIntent,
    /// Waiting for the intent store to record the entry into the split.
    EnteringSplit,
    /// Waiting for the balances of the declared gift cards.
    FetchingBalances,
    /// Waiting for the authorize pipeline to settle the current leg.
    SettlingLeg,
    /// Waiting for the intent's status to be reset after a settled leg.
    ResettingStatus,
    /// Waiting for the intent's status to be set to succeeded.
    Finalizing,
    /// The run ended with a response.
    Completed,
    /// The run ended with an error.
    Aborted,
}

/// Why the intent store did not apply an update.
#[derive(Clone, Copy, Debug, PartialEq, Eq, Structural)]
pub enum StoreError {
    NotFound,
    /// The record changed since it was read.
    ConcurrencyConflict,
    Unavailable,
}

/// The outside step that the driver of a run performs next.
#[derive(Debug, PartialEq, Eq)]
pub enum Action {
    /// Load the payment intent of the run.
    LoadIntent,
    /// Persist `update` on the record `intent`.
    UpdateIntent { intent: PaymentIntent, update: IntentUpdate },
    /// Look up the balances under these keys, in one batch.
    FetchBalances { keys: Vec<BalanceKey> },
    /// Send leg number `index` through the authorize pipeline.
    AuthorizeLeg { index: usize, leg: Leg },
    /// Answer the caller with the settlement result of leg number `leg_index`.
    Respond { leg_index: usize },
    /// End the run with this error.
    Fail(SplitError),
}

/// The decisions of one split execution. The legs run one after another; no
/// leg is ever reversed, so a failure part way leaves earlier legs settled and
/// the intent in whatever status the last finished step gave it. The request's
/// instruments are checked only after the intent has entered the split.
pub struct SplitRun {
    phase: Phase,
    request: ConfirmRequest,
    group_id: String,
    intent: Option<PaymentIntent>,
    plan: Option<InstrumentPlan>,
    legs: Vec<Leg>,
    next_leg: usize,
}

/// The update that enters a split run with the given attempt group.
pub open spec fn enter_split(group_id: Seq<char>, u: IntentUpdate) -> bool {
    u matches IntentUpdate::SplitUpdate { active_attempt_id_type, active_attempts_group_id }
        && active_attempt_id_type == ActiveAttemptIdType::AttemptId
        && active_attempts_group_id@ == group_id
}

/// An update of the status alone, to `status`.
pub open spec fn set_status(status: IntentStatus, u: IntentUpdate) -> bool {
    u == IntentUpdate::StatusUpdate { status }
}

impl SplitRun {
    pub closed spec fn phase_of(&self) -> Phase {
        self.phase
    }

    pub closed spec fn request_of(&self) -> ConfirmRequest {
        self.request
    }

    pub closed spec fn group_id_of(&self) -> Seq<char> {
        self.group_id@
    }

    /// The latest known record of the intent.
    pub closed spec fn intent_of(&self) -> Option<PaymentIntent> {
        self.intent
    }

    /// The legs of the run, once allocated.
    pub closed spec fn legs_of(&self) -> Seq<Leg> {
        self.legs@
    }

    /// How many legs have settled.
    pub closed spec fn settled_of(&self) -> nat {
        self.next_leg as nat
    }

    /// The checked instruments, while the balances are awaited.
    pub closed spec fn plan_of(&self) -> Option<(Option<crate::instrument::SplitDescriptor>, Seq<crate::instrument::GiftCardData>)> {
        match self.plan {
            Some(p) => Some(p@),
            None => None,
        }
    }

    pub closed spec fn wf(&self) -> bool {
        &&& (self.phase != Phase::LoadingIntent && self.phase != Phase::Completed
            && self.phase != Phase::Aborted ==> self.intent is Some)
        &&& (self.phase == Phase::FetchingBalances ==> self.plan is Some)
        &&& (self.phase == Phase::SettlingLeg ==> self.next_leg < self.legs@.len())
        &&& self.next_leg <= self.legs@.len()
    }

    /// A run for `request` that has not started; its first step is to load the
    /// intent. `group_id` is the fresh attempt group the run will stamp.
    pub fn new(request: ConfirmRequest, group_id: String) -> (r: SplitRun)
        ensures
            r.wf(),
            r.phase_of() == Phase::LoadingIntent,
            r.request_of() == request,
            r.group_id_of() == group_id@,
            r.legs_of().len() == 0,
            r.settled_of() == 0,
    {
        SplitRun {
            phase: Phase::LoadingIntent,
            request,
            group_id,
            intent: None,
            plan: None,
            legs: Vec::new(),
            next_leg: 0,
        }
    }

    /// The phase the run is in.
    pub fn phase(&self) -> (r: Phase)
        ensures
            r == self.phase_of(),
    {
        self.phase
    }

    /// The number of legs that have settled.
    pub fn settled_legs(&self) -> (r: usize)
        ensures
            r == self.settled_of(),
    {
        self.next_leg
    }

    /// The legs of the run, once allocated.
    pub fn legs(&self) -> (r: &Vec<Leg>)
        ensures
            r@ == self.legs_of(),
    {
        &self.legs
    }

    /// The intent was looked up: a missing intent ends the run; a found one is
    /// moved into the split, stamped with the run's attempt group.
    pub fn on_intent_loaded(&mut self, found: Option<PaymentIntent>) -> (a: Action)
        requires
            old(self).wf(),
            old(self).phase_of() == Phase::LoadingIntent,
        ensures
            final(self).wf(),
            final(self).request_of() == old(self).request_of(),
            final(self).group_id_of() == old(self).group_id_of(),
            final(self).legs_of() == old(self).legs_of(),
            final(self).settled_of() == old(self).settled_of(),
            found is None ==> final(self).phase_of() == Phase::Aborted && a == Action::Fail(SplitError::PaymentNotFound),
            found matches Some(i) ==> {
                &&& final(self).phase_of() == Phase::EnteringSplit
                &&& final(self).intent_of() == Some(i)
                &&& a matches Action::UpdateIntent { intent, update } && intent == i
                    && enter_split(old(self).group_id_of(), update)
            },
    {
        match found {
            None => {
                self.phase = Phase::Aborted;
                Action::Fail(SplitError::PaymentNotFound)
            },
            Some(i) => {
                let update = IntentUpdate::SplitUpdate {
                    active_attempt_id_type: ActiveAttemptIdType::AttemptId,
                    active_attempts_group_id: self.group_id.clone(),
                };
                let copy = i.clone();
                self.intent = Some(i);
                self.phase = Phase::EnteringSplit;
                Action::UpdateIntent { intent: copy, update }
            },
        }
    }
    /// The intent store answered the pending update. A failed update ends the
    /// run. After entering the split, the request's instruments are checked and
    /// their balances asked for; after a reset, the next leg is sent, or the
    /// intent is finalized when none is left; after finalizing, the run answers
    /// with the last settled leg, and fails when no leg ran.
    pub fn on_intent_updated(&mut self, outcome: Result<PaymentIntent, StoreError>) -> (a: Action)
        requires
            old(self).wf(),
            old(self).phase_of() == Phase::EnteringSplit || old(self).phase_of() == Phase::ResettingStatus
                || old(self).phase_of() == Phase::Finalizing,
        ensures
            final(self).wf(),
            final(self).request_of() == old(self).request_of(),
            final(self).group_id_of() == old(self).group_id_of(),
            final(self).legs_of() == old(self).legs_of(),
            final(self).settled_of() == old(self).settled_of(),
            outcome is Err ==> final(self).phase_of() == Phase::Aborted && a == Action::Fail(
                SplitError::InternalServerError,
            ),
            outcome matches Ok(i) ==> final(self).intent_of() == Some(i),
            outcome is Ok && old(self).phase_of() == Phase::EnteringSplit ==> match prepared_of(
                old(self).request_of(),
            ) {
                Err(e) => final(self).phase_of() == Phase::Aborted && a == Action::Fail(e),
                Ok((primary, cards)) => {
                    &&& final(self).phase_of() == Phase::FetchingBalances
                    &&& final(self).plan_of() == Some((primary, cards))
                    &&& a matches Action::FetchBalances { keys } && keys@.len() == cards.len()
                        && forall|k: int| 0 <= k < cards.len() ==> (#[trigger] keys@[k])@ == key_of(cards[k])
                },
            },
            outcome is Ok && old(self).phase_of() == Phase::EnteringSplit
                && old(self).request_of().payment_method_data is Some && primary_count(
                merged_of(old(self).request_of()),
            ) >= 2 ==> final(self).phase_of() == Phase::Aborted && a == Action::Fail(
                SplitError::InvalidRequestData(InvalidRequestReason::TooManyPrimaryInstruments),
            ),
            outcome is Ok && old(self).phase_of() == Phase::ResettingStatus ==> {
                if old(self).settled_of() < old(self).legs_of().len() {
                    &&& final(self).phase_of() == Phase::SettlingLeg
                    &&& a == Action::AuthorizeLeg {
                        index: old(self).settled_of() as usize,
                        leg: old(self).legs_of()[old(self).settled_of() as int],
                    }
                } else {
                    &&& final(self).phase_of() == Phase::Finalizing
                    &&& a matches Action::UpdateIntent { intent, update } && Some(intent)
                        == final(self).intent_of() && set_status(IntentStatus::Succeeded, update)
                }
            },
            outcome is Ok && old(self).phase_of() == Phase::Finalizing ==> {
                if old(self).settled_of() > 0 {
                    &&& final(self).phase_of() == Phase::Completed
                    &&& a == Action::Respond { leg_index: (old(self).settled_of() - 1) as usize }
                } else {
                    &&& final(self).phase_of() == Phase::Aborted
                    &&& a == Action::Fail(SplitError::InternalServerError)
                }
            },
    {
        let i = match outcome {
            Ok(i) => i,
            Err(_) => {
                self.phase = Phase::Aborted;
                return Action::Fail(SplitError::InternalServerError);
            },
        };
        let copy = i.clone();
        self.intent = Some(i);
        match self.phase {
            Phase::EnteringSplit => match prepare_split(&self.request) {
                Err(e) => {
                    self.phase = Phase::Aborted;
                    Action::Fail(e)
                },
                Ok(plan) => {
                    let keys = balance_keys(&plan.gift_cards);
                    self.plan = Some(plan);
                    self.phase = Phase::FetchingBalances;
                    Action::FetchBalances { keys }
                },
            },
            Phase::ResettingStatus => {
                if self.next_leg < self.legs.len() {
                    self.phase = Phase::SettlingLeg;
                    Action::AuthorizeLeg { index: self.next_leg, leg: self.legs[self.next_leg].clone() }
                } else {
                    self.phase = Phase::Finalizing;
                    Action::UpdateIntent {
                        intent: copy,
                        update: IntentUpdate::StatusUpdate { status: IntentStatus::Succeeded },
                    }
                }
            },
            _ => {
                if self.next_leg > 0 {
                    self.phase = Phase::Completed;
                    Action::Respond { leg_index: self.next_leg - 1 }
                } else {
                    self.phase = Phase::Aborted;
                    Action::Fail(SplitError::InternalServerError)
                }
            },
        }
    }

    /// The balances arrived: a failed lookup ends the run with its error; else
    /// the legs are allocated for the intent's order amount and the first one is
    /// sent. An allocation with no leg has no settlement to answer with, so the
    /// run fails there, before the intent could be marked as succeeded.
    pub fn on_balances(&mut self, fetched: Result<BalanceSnapshot, SplitError>) -> (a: Action)
        requires
            old(self).wf(),
            old(self).phase_of() == Phase::FetchingBalances,
        ensures
            final(self).wf(),
            final(self).request_of() == old(self).request_of(),
            final(self).group_id_of() == old(self).group_id_of(),
            final(self).intent_of() == old(self).intent_of(),
            final(self).settled_of() == 0,
            fetched matches Err(e) ==> final(self).phase_of() == Phase::Aborted && a == Action::Fail(e),
            fetched matches Ok(snap) ==> match allocation_of(
                old(self).plan_of()->Some_0.0,
                old(self).plan_of()->Some_0.1,
                snap,
                old(self).intent_of()->Some_0.order_amount,
            ) {
                Err(e) => final(self).phase_of() == Phase::Aborted && a == Action::Fail(e),
                Ok(legs) => {
                    &&& final(self).legs_of() == legs
                    &&& if legs.len() > 0 {
                        &&& final(self).phase_of() == Phase::SettlingLeg
                        &&& a == Action::AuthorizeLeg { index: 0, leg: legs[0] }
                    } else {
                        &&& final(self).phase_of() == Phase::Aborted
                        &&& a == Action::Fail(SplitError::InternalServerError)
                    }
                },
            },
    {
        self.next_leg = 0;
        self.legs = Vec::new();
        let snap = match fetched {
            Ok(s) => s,
            Err(e) => {
                self.phase = Phase::Aborted;
                return Action::Fail(e);
            },
        };
        let plan = match self.plan.take() {
            Some(p) => p,
            None => {
                self.phase = Phase::Aborted;
                return Action::Fail(SplitError::InternalServerError);
            },
        };
        let order_amount = match &self.intent {
            Some(i) => i.order_amount,
            None => {
                self.phase = Phase::Aborted;
                return Action::Fail(SplitError::InternalServerError);
            },
        };
        match allocate_legs(plan, &snap, order_amount) {
            Err(e) => {
                self.phase = Phase::Aborted;
                Action::Fail(e)
            },
            Ok(legs) => {
                self.legs = legs;
                if self.legs.len() > 0 {
                    self.phase = Phase::SettlingLeg;
                    Action::AuthorizeLeg { index: 0, leg: self.legs[0].clone() }
                } else {
                    self.phase = Phase::Aborted;
                    Action::Fail(SplitError::InternalServerError)
                }
            },
        }
    }

    /// The authorize pipeline answered for the current leg: its error ends the
    /// run as it came, with no later leg sent and no earlier one reversed; on
    /// success the leg counts as settled and the intent's status is reset, to
    /// the record the pipeline handed back.
    pub fn on_leg_settled(&mut self, outcome: Result<PaymentIntent, SplitError>) -> (a: Action)
        requires
            old(self).wf(),
            old(self).phase_of() == Phase::SettlingLeg,
        ensures
            final(self).wf(),
            final(self).request_of() == old(self).request_of(),
            final(self).group_id_of() == old(self).group_id_of(),
            final(self).legs_of() == old(self).legs_of(),
            outcome matches Err(e) ==> {
                &&& final(self).phase_of() == Phase::Aborted
                &&& final(self).settled_of() == old(self).settled_of()
                &&& a == Action::Fail(e)
            },
            outcome matches Ok(i) ==> {
                &&& final(self).phase_of() == Phase::ResettingStatus
                &&& final(self).settled_of() == old(self).settled_of() + 1
                &&& final(self).intent_of() == Some(i)
                &&& a matches Action::UpdateIntent { intent, update } && intent == i && set_status(
                    IntentStatus::RequiresPaymentMethod,
                    update,
                )
            },
    {
        match outcome {
            Err(e) => {
                self.phase = Phase::Aborted;
                Action::Fail(e)
            },
            Ok(i) => {
                let copy = i.clone();
                let count = self.legs.len();
                assert(self.next_leg < count);
                self.intent = Some(i);
                self.next_leg = self.next_leg + 1;
                self.phase = Phase::ResettingStatus;
                Action::UpdateIntent {
                    intent: copy,
                    update: IntentUpdate::StatusUpdate { status: IntentStatus::RequiresPaymentMethod },
                }
            },
        }
    }
}

} // verus!
