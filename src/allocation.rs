use vstd::prelude::*;
use crate::balance::BalanceSnapshot;
use crate::error::{InvalidRequestReason, RequiredField, SplitError};
use crate::instrument::{
    is_primary, key_of, BalanceKey, GiftCardData, PaymentMethod, PaymentMethodData,
    PaymentMethodSubtype, SplitDescriptor,
};

verus! {

/// The instrument fields of a confirm request: the top-level instrument and
/// the list of further split instruments.
#[derive(Debug, PartialEq, Eq)]
pub struct ConfirmRequest {
    pub payment_method_data: Option<PaymentMethodData>,
    pub payment_method_type: PaymentMethod,
    pub payment_method_subtype: PaymentMethodSubtype,
    pub split_payment_method_data: Option<Vec<SplitDescriptor>>,
}

/// One unit of work of a split: an instrument and the amount to charge it.
#[derive(Debug, PartialEq, Eq)]
pub struct Leg {
    pub payment_method_data: PaymentMethodData,
    pub amount: u64,
}

/// The instruments of a request once sorted: the primary instrument, if one
/// was declared, and the gift cards in their declared order.
#[derive(Debug, PartialEq, Eq)]
pub struct InstrumentPlan {
    pub primary: Option<SplitDescriptor>,
    pub gift_cards: Vec<GiftCardData>,
}

/// The number of primary instruments in `s`.
pub open spec fn primary_count(s: Seq<SplitDescriptor>) -> nat
    decreases s.len(),
{
    if s.len() == 0 {
        0
    } else {
        primary_count(s.drop_last()) + if is_primary(s.last()) { 1nat } else { 0nat }
    }
}

/// The last primary instrument in `s`; the only one when there is one.
pub open spec fn primary_of(s: Seq<SplitDescriptor>) -> Option<SplitDescriptor>
    decreases s.len(),
{
    if s.len() == 0 {
        None
    } else if is_primary(s.last()) {
        Some(s.last())
    } else {
        primary_of(s.drop_last())
    }
}

/// Every descriptor of `s` that is not primary carries a gift card.
pub open spec fn others_are_gift_cards(s: Seq<SplitDescriptor>) -> bool {
    forall|i: int|
        0 <= i < s.len() && !is_primary(#[trigger] s[i]) ==> s[i].payment_method_data is GiftCard
}

/// The gift cards carried by the descriptors of `s` that are not primary, in order.
pub open spec fn gift_cards_of(s: Seq<SplitDescriptor>) -> Seq<GiftCardData>
    decreases s.len(),
{
    if s.len() == 0 {
        Seq::empty()
    } else if !is_primary(s.last()) && s.last().payment_method_data is GiftCard {
        gift_cards_of(s.drop_last()).push(s.last().payment_method_data->GiftCard_0)
    } else {
        gift_cards_of(s.drop_last())
    }
}

/// The descriptor made of the request's top-level instrument fields.
pub open spec fn top_level_descriptor(req: ConfirmRequest) -> SplitDescriptor
    recommends
        req.payment_method_data is Some,
{
    SplitDescriptor {
        payment_method_data: req.payment_method_data->Some_0,
        payment_method_type: req.payment_method_type,
        payment_method_subtype: req.payment_method_subtype,
    }
}

/// The split descriptors that a request declares; an absent list declares none.
pub open spec fn declared_of(req: ConfirmRequest) -> Seq<SplitDescriptor> {
    match req.split_payment_method_data {
        Some(v) => v@,
        None => Seq::empty(),
    }
}

/// The merged list of a request: its split descriptors, then the top-level one.
pub open spec fn merged_of(req: ConfirmRequest) -> Seq<SplitDescriptor>
    recommends
        req.payment_method_data is Some,
{
    declared_of(req).push(top_level_descriptor(req))
}

/// The amount left for the primary instrument once the gift cards are spent.
pub open spec fn remaining(order_amount: int, total: int) -> int {
    if order_amount > total {
        order_amount - total
    } else {
        0
    }
}

/// Every gift card of `cards` has a balance in `snap`.
pub open spec fn all_balances_known(cards: Seq<GiftCardData>, snap: BalanceSnapshot) -> bool {
    forall|i: int| 0 <= i < cards.len() ==> (#[trigger] snap.balance_of(key_of(cards[i]))) is Some
}

/// A leg that charges a card's entire balance.
pub open spec fn gift_card_leg(card: GiftCardData, snap: BalanceSnapshot) -> Leg {
    Leg {
        payment_method_data: PaymentMethodData::GiftCard(card),
        amount: snap.balance_of(key_of(card))->Some_0,
    }
}

/// Every balance in `snap` belongs to one of `cards`: the snapshot answers a
/// lookup of exactly those cards.
pub open spec fn fetched_for(snap: BalanceSnapshot, cards: Seq<GiftCardData>) -> bool {
    forall|i: int|
        0 <= i < snap.entries().len() ==> exists|j: int|
            0 <= j < cards.len() && (#[trigger] snap.entries()[i]).key@ == key_of(cards[j])
}

/// The gift-card legs: each card charged its entire balance, in declared order.
pub open spec fn gift_card_legs_of(cards: Seq<GiftCardData>, snap: BalanceSnapshot) -> Seq<Leg> {
    Seq::new(cards.len(), |i: int| gift_card_leg(cards[i], snap))
}

/// The outcome of allocating an order over a sorted plan and a balance snapshot.
pub open spec fn allocation_of(
    primary: Option<SplitDescriptor>,
    cards: Seq<GiftCardData>,
    snap: BalanceSnapshot,
    order_amount: u64,
) -> Result<Seq<Leg>, SplitError> {
    let rem = remaining(order_amount as int, snap.total());
    if !all_balances_known(cards, snap) {
        Err(SplitError::InternalServerError)
    } else if rem > 0 {
        match primary {
            Some(p) => Ok(
                seq![Leg { payment_method_data: p.payment_method_data, amount: rem as u64 }]
                    + gift_card_legs_of(cards, snap),
            ),
            None => Err(
                SplitError::InvalidRequestData(InvalidRequestReason::AdditionalPaymentMethodRequired),
            ),
        }
    } else {
        Ok(gift_card_legs_of(cards, snap))
    }
}

/// The outcome of sorting a merged list of descriptors.
pub open spec fn plan_of(s: Seq<SplitDescriptor>) -> Result<(Option<SplitDescriptor>, Seq<GiftCardData>), SplitError> {
    if primary_count(s) > 1 {
        Err(SplitError::InvalidRequestData(InvalidRequestReason::TooManyPrimaryInstruments))
    } else if !others_are_gift_cards(s) {
        Err(SplitError::InvalidRequestData(InvalidRequestReason::UnsupportedSplitInstrument))
    } else {
        Ok((primary_of(s), gift_cards_of(s)))
    }
}

impl Clone for Leg {
    fn clone(&self) -> (r: Self)
        ensures
            r == *self,
    {
        Leg { payment_method_data: self.payment_method_data.clone(), amount: self.amount }
    }
}

impl InstrumentPlan {
    pub open spec fn view(&self) -> (Option<SplitDescriptor>, Seq<GiftCardData>) {
        (self.primary, self.gift_cards@)
    }
}

/// Builds the working list of a request: its split descriptors (none when the
/// list is absent) followed by a descriptor of its top-level instrument, which
/// must be present. The request is left as it was.
pub fn merge_descriptors(req: &ConfirmRequest) -> (r: Result<Vec<SplitDescriptor>, SplitError>)
    ensures
        req.payment_method_data is None ==> r == Err::<Vec<SplitDescriptor>, SplitError>(
            SplitError::MissingRequiredField(RequiredField::PaymentMethodData),
        ),
        req.payment_method_data is Some ==> (r matches Ok(v) && v@ == merged_of(*req)),
{
    let top = match &req.payment_method_data {
        Some(p) => p.clone(),
        None => {
            return Err(SplitError::MissingRequiredField(RequiredField::PaymentMethodData));
        },
    };
    let mut merged: Vec<SplitDescriptor> = Vec::new();
    match &req.split_payment_method_data {
        Some(declared) => {
            let mut i: usize = 0;
            while i < declared.len()
                invariant
                    i <= declared@.len(),
                    merged@ == declared@.subrange(0, i as int),
                decreases declared@.len() - i,
            {
                merged.push(declared[i].clone());
                assert(merged@ =~= declared@.subrange(0, i + 1));
                i = i + 1;
            }
            assert(merged@ =~= declared@);
        },
        None => {
            assert(merged@ =~= declared_of(*req));
        },
    }
    merged.push(
        SplitDescriptor {
            payment_method_data: top,
            payment_method_type: req.payment_method_type,
            payment_method_subtype: req.payment_method_subtype,
        },
    );
    Ok(merged)
}

/// Sorts a merged list: at most one primary instrument is allowed, and every
/// other descriptor must carry a gift card. The gift cards keep their order.
pub fn partition_instruments(merged: &Vec<SplitDescriptor>) -> (r: Result<InstrumentPlan, SplitError>)
    ensures
        match plan_of(merged@) {
            Ok(v) => r matches Ok(p) && p@ == v,
            Err(e) => r == Err::<InstrumentPlan, SplitError>(e),
        },
{
    let mut count: usize = 0;
    let mut i: usize = 0;
    while i < merged.len()
        invariant
            i <= merged@.len(),
            count == primary_count(merged@.subrange(0, i as int)),
            count <= i,
        decreases merged@.len() - i,
    {
        assert(merged@.subrange(0, i + 1).drop_last() =~= merged@.subrange(0, i as int));
        if merged[i].is_primary() {
            count = count + 1;
        }
        i = i + 1;
    }
    assert(merged@.subrange(0, i as int) =~= merged@);
    if count > 1 {
        return Err(SplitError::InvalidRequestData(InvalidRequestReason::TooManyPrimaryInstruments));
    }
    let mut primary: Option<SplitDescriptor> = None;
    let mut cards: Vec<GiftCardData> = Vec::new();
    let mut j: usize = 0;
    while j < merged.len()
        invariant
            j <= merged@.len(),
            primary_count(merged@) <= 1,
            primary == primary_of(merged@.subrange(0, j as int)),
            cards@ == gift_cards_of(merged@.subrange(0, j as int)),
            others_are_gift_cards(merged@.subrange(0, j as int)),
        decreases merged@.len() - j,
    {
        let ghost pre = merged@.subrange(0, j as int);
        let ghost next = merged@.subrange(0, j + 1);
        assert(next.drop_last() =~= pre);
        assert(next.last() == merged@[j as int]);
        let d = &merged[j];
        if d.is_primary() {
            primary = Some(d.clone());
        } else {
            match &d.payment_method_data {
                PaymentMethodData::GiftCard(g) => {
                    cards.push(g.clone());
                },
                PaymentMethodData::Other(_) => {
                    assert(!others_are_gift_cards(merged@)) by {
                        assert(!is_primary(merged@[j as int]));
                    }
                    return Err(
                        SplitError::InvalidRequestData(
                            InvalidRequestReason::UnsupportedSplitInstrument,
                        ),
                    );
                },
            }
        }
        assert forall|k: int|
            0 <= k < next.len() && !is_primary(#[trigger] next[k]) implies next[k].payment_method_data is GiftCard by {
            if k < j {
                assert(next[k] == pre[k]);
            }
        }
        j = j + 1;
    }
    assert(merged@.subrange(0, j as int) =~= merged@);
    Ok(InstrumentPlan { primary, gift_cards: cards })
}

/// The balance keys of the given gift cards, one per card, in order.
pub fn balance_keys(cards: &Vec<GiftCardData>) -> (r: Vec<BalanceKey>)
    ensures
        r@.len() == cards@.len(),
        forall|i: int| 0 <= i < cards@.len() ==> (#[trigger] r@[i])@ == key_of(cards@[i]),
{
    let mut keys: Vec<BalanceKey> = Vec::new();
    let mut i: usize = 0;
    while i < cards.len()
        invariant
            i <= cards@.len(),
            keys@.len() == i,
            forall|j: int| 0 <= j < i ==> (#[trigger] keys@[j])@ == key_of(cards@[j]),
        decreases cards@.len() - i,
    {
        keys.push(cards[i].balance_key());
        i = i + 1;
    }
    keys
}

/// Charges each gift card its entire balance, in declared order. A card with a
/// zero balance still gets its (zero-amount) leg. A card whose balance is
/// missing from the snapshot is a server fault.
pub fn gift_card_legs(cards: &Vec<GiftCardData>, snap: &BalanceSnapshot) -> (r: Result<Vec<Leg>, SplitError>)
    ensures
        all_balances_known(cards@, *snap) ==> (r matches Ok(v) && v@ == gift_card_legs_of(cards@, *snap)),
        !all_balances_known(cards@, *snap) ==> r == Err::<Vec<Leg>, SplitError>(SplitError::InternalServerError),
{
    let mut legs: Vec<Leg> = Vec::new();
    let mut i: usize = 0;
    while i < cards.len()
        invariant
            i <= cards@.len(),
            legs@ == gift_card_legs_of(cards@.subrange(0, i as int), *snap),
            all_balances_known(cards@.subrange(0, i as int), *snap),
        decreases cards@.len() - i,
    {
        let card = &cards[i];
        let key = card.balance_key();
        match snap.get(&key) {
            Some(b) => {
                legs.push(Leg { payment_method_data: PaymentMethodData::GiftCard(card.clone()), amount: b });
                assert(legs@ =~= gift_card_legs_of(cards@.subrange(0, i + 1), *snap));
                assert forall|j: int| 0 <= j < i + 1 implies (#[trigger] snap.balance_of(key_of(cards@.subrange(0, i + 1)[j]))) is Some by {
                    if j < i {
                        assert(cards@.subrange(0, i + 1)[j] == cards@.subrange(0, i as int)[j]);
                    }
                }
            },
            None => {
                assert(!all_balances_known(cards@, *snap)) by {
                    assert(snap.balance_of(key_of(cards@[i as int])) is None);
                }
                return Err(SplitError::InternalServerError);
            },
        }
        i = i + 1;
    }
    assert(cards@.subrange(0, i as int) =~= cards@);
    Ok(legs)
}

/// What is left to charge once the gift cards are spent: the order amount less
/// the sum of the balances, and never below zero.
pub fn remaining_amount(order_amount: u64, snap: &BalanceSnapshot) -> (r: u64)
    ensures
        r == remaining(order_amount as int, snap.total()),
{
    let total = snap.total_capped();
    if order_amount > total {
        order_amount - total
    } else {
        0
    }
}

/// Turns a sorted plan and the fetched balances into the ordered legs: the
/// primary instrument first, charged what the gift cards leave uncovered (only
/// when something is left), then each gift card charged its whole balance.
pub fn allocate_legs(plan: InstrumentPlan, snap: &BalanceSnapshot, order_amount: u64) -> (r: Result<Vec<Leg>, SplitError>)
    ensures
        match allocation_of(plan.primary, plan.gift_cards@, *snap, order_amount) {
            Ok(v) => r matches Ok(w) && w@ == v,
            Err(e) => r == Err::<Vec<Leg>, SplitError>(e),
        },
{
    let rem = remaining_amount(order_amount, snap);
    let mut legs = match gift_card_legs(&plan.gift_cards, snap) {
        Ok(v) => v,
        Err(e) => {
            return Err(e);
        },
    };
    if rem > 0 {
        match plan.primary {
            Some(p) => {
                let ghost tail = legs@;
                legs.insert(0, Leg { payment_method_data: p.payment_method_data, amount: rem });
                assert(legs@ =~= seq![Leg { payment_method_data: p.payment_method_data, amount: rem }] + tail);
                Ok(legs)
            },
            None => Err(SplitError::InvalidRequestData(InvalidRequestReason::AdditionalPaymentMethodRequired)),
        }
    } else {
        Ok(legs)
    }
}

/// The outcome of checking a request's instruments, before any balance is looked up.
pub open spec fn prepared_of(req: ConfirmRequest) -> Result<(Option<SplitDescriptor>, Seq<GiftCardData>), SplitError> {
    if req.payment_method_data is None {
        Err(SplitError::MissingRequiredField(RequiredField::PaymentMethodData))
    } else {
        plan_of(merged_of(req))
    }
}

/// The legs of a request for an order amount, given the fetched balances.
pub open spec fn split_allocation(req: ConfirmRequest, snap: BalanceSnapshot, order_amount: u64) -> Result<Seq<Leg>, SplitError> {
    match prepared_of(req) {
        Err(e) => Err(e),
        Ok((primary, cards)) => allocation_of(primary, cards, snap, order_amount),
    }
}

/// Checks a request's instruments: merges them, allows at most one primary
/// instrument and demands gift cards for the rest. No balance is needed for this.
pub fn prepare_split(req: &ConfirmRequest) -> (r: Result<InstrumentPlan, SplitError>)
    ensures
        match prepared_of(*req) {
            Ok(v) => r matches Ok(p) && p@ == v,
            Err(e) => r == Err::<InstrumentPlan, SplitError>(e),
        },
{
    let merged = match merge_descriptors(req) {
        Ok(m) => m,
        Err(e) => {
            return Err(e);
        },
    };
    partition_instruments(&merged)
}

/// The whole allocation of a request over a balance snapshot: the checks of
/// [`prepare_split`], then [`allocate_legs`] for the order amount.
pub fn allocate(req: &ConfirmRequest, snap: &BalanceSnapshot, order_amount: u64) -> (r: Result<Vec<Leg>, SplitError>)
    ensures
        match split_allocation(*req, *snap, order_amount) {
            Ok(v) => r matches Ok(w) && w@ == v,
            Err(e) => r == Err::<Vec<Leg>, SplitError>(e),
        },
{
    let plan = match prepare_split(req) {
        Ok(p) => p,
        Err(e) => {
            return Err(e);
        },
    };
    allocate_legs(plan, snap, order_amount)
}

} // verus!
