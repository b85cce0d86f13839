use vstd::prelude::*;
use crate::allocation::{
    all_balances_known, declared_of, fetched_for, gift_card_legs_of, gift_cards_of, merged_of,
    others_are_gift_cards, prepared_of, primary_count, primary_of, remaining, split_allocation,
    top_level_descriptor, ConfirmRequest, Leg,
};
use crate::balance::BalanceSnapshot;
use crate::error::{InvalidRequestReason, SplitError};
use crate::instrument::{is_primary, key_of, PaymentMethodData, SplitDescriptor};

verus! {

proof fn lemma_no_primary(s: Seq<SplitDescriptor>)
    requires
        primary_count(s) == 0,
    ensures
        primary_of(s) is None,
    decreases s.len(),
{
    if s.len() > 0 {
        lemma_no_primary(s.drop_last());
    }
}

/// With no gift card declared and one primary instrument, the allocation is a
/// single leg that charges the primary instrument the whole (positive) order.
pub proof fn lemma_primary_alone_takes_whole_order(
    req: ConfirmRequest,
    snap: BalanceSnapshot,
    order_amount: u64,
)
    requires
        declared_of(req).len() == 0,
        req.payment_method_data is Some,
        is_primary(top_level_descriptor(req)),
        fetched_for(snap, Seq::empty()),
        order_amount > 0,
    ensures
        split_allocation(req, snap, order_amount) == Ok::<Seq<Leg>, SplitError>(
            seq![Leg { payment_method_data: req.payment_method_data->Some_0, amount: order_amount }],
        ),
{
    let m = merged_of(req);
    let top = top_level_descriptor(req);
    let declared = declared_of(req);
    assert(m == declared.push(top));
    assert(declared.len() == 0);
    assert(m.drop_last() =~= Seq::<SplitDescriptor>::empty());
    assert(primary_count(Seq::<SplitDescriptor>::empty()) == 0);
    assert(gift_cards_of(Seq::<SplitDescriptor>::empty()) =~= Seq::empty());
    assert(m.last() == top);
    assert(primary_count(m) == 1);
    assert(others_are_gift_cards(m));
    assert(primary_of(m) == Some(top));
    assert(gift_cards_of(m) =~= Seq::empty());
    assert(snap.entries() =~= Seq::empty());
    assert(snap.total() == 0);
    let cards = gift_cards_of(m);
    assert(all_balances_known(cards, snap));
    assert(remaining(order_amount as int, snap.total()) == order_amount);
    let legs = seq![Leg { payment_method_data: top.payment_method_data, amount: order_amount }];
    assert(legs + gift_card_legs_of(cards, snap) =~= legs);
}

/// When the gift-card balances cover the order, no primary leg is made, even
/// if a primary instrument was declared: each gift card is charged its whole
/// balance, in declared order.
pub proof fn lemma_covered_order_uses_gift_cards_only(
    req: ConfirmRequest,
    snap: BalanceSnapshot,
    order_amount: u64,
)
    requires
        prepared_of(req) is Ok,
        all_balances_known(prepared_of(req)->Ok_0.1, snap),
        snap.total() >= order_amount,
    ensures
        split_allocation(req, snap, order_amount) matches Ok(legs) && {
            let cards = prepared_of(req)->Ok_0.1;
            &&& legs.len() == cards.len()
            &&& forall|i: int|
                0 <= i < legs.len() ==> (#[trigger] legs[i]).payment_method_data
                    == PaymentMethodData::GiftCard(cards[i]) && legs[i].amount == snap.balance_of(
                    key_of(cards[i]),
                )->Some_0
        },
{
}

/// When the gift-card balances fall short of the order and no primary
/// instrument is declared, the request is rejected as invalid.
pub proof fn lemma_shortfall_without_primary_is_invalid(
    req: ConfirmRequest,
    snap: BalanceSnapshot,
    order_amount: u64,
)
    requires
        req.payment_method_data is Some,
        primary_count(merged_of(req)) == 0,
        all_balances_known(gift_cards_of(merged_of(req)), snap),
        snap.total() < order_amount,
    ensures
        split_allocation(req, snap, order_amount) matches Err(SplitError::InvalidRequestData(_)),
{
    lemma_no_primary(merged_of(req));
    if others_are_gift_cards(merged_of(req)) {
        assert(split_allocation(req, snap, order_amount) == Err::<Seq<Leg>, SplitError>(
            SplitError::InvalidRequestData(InvalidRequestReason::AdditionalPaymentMethodRequired),
        ));
    }
}

/// Two or more primary instruments, the top-level one counted, reject the
/// request whatever the balances: the check needs no balance at all.
pub proof fn lemma_two_primaries_rejected(req: ConfirmRequest)
    requires
        req.payment_method_data is Some,
        primary_count(merged_of(req)) >= 2,
    ensures
        prepared_of(req) == Err::<(Option<SplitDescriptor>, Seq<crate::instrument::GiftCardData>), SplitError>(
            SplitError::InvalidRequestData(InvalidRequestReason::TooManyPrimaryInstruments),
        ),
        forall|snap: BalanceSnapshot, order_amount: u64|
            #[trigger] split_allocation(req, snap, order_amount) == Err::<Seq<Leg>, SplitError>(
                SplitError::InvalidRequestData(InvalidRequestReason::TooManyPrimaryInstruments),
            ),
{
}

/// Merging is repeatable: two merges of one request give the same list, its
/// declared descriptors followed by exactly one copy of the top-level one. So
/// the top-level instrument is counted once, as a primary instrument or as a
/// gift card according to its own tags.
pub proof fn lemma_merge_repeatable(req: ConfirmRequest, first: Seq<SplitDescriptor>, second: Seq<SplitDescriptor>)
    requires
        req.payment_method_data is Some,
        first == merged_of(req),
        second == merged_of(req),
    ensures
        first == second,
        first.len() == declared_of(req).len() + 1,
        first.drop_last() == declared_of(req),
        first.last() == top_level_descriptor(req),
        primary_count(first) == primary_count(declared_of(req)) + if is_primary(
            top_level_descriptor(req),
        ) {
            1nat
        } else {
            0nat
        },
        gift_cards_of(first) == if !is_primary(top_level_descriptor(req))
            && req.payment_method_data->Some_0 is GiftCard {
            gift_cards_of(declared_of(req)).push(req.payment_method_data->Some_0->GiftCard_0)
        } else {
            gift_cards_of(declared_of(req))
        },
{
    assert(first.drop_last() =~= declared_of(req));
}

/// The legs depend on the request and the recorded balances alone: the same
/// request over snapshots with the same entries gives the same legs.
pub proof fn lemma_allocation_reproducible(
    req: ConfirmRequest,
    first: BalanceSnapshot,
    second: BalanceSnapshot,
    order_amount: u64,
)
    requires
        first.entries() == second.entries(),
    ensures
        split_allocation(req, first, order_amount) == split_allocation(req, second, order_amount),
{
    assert forall|k| first.balance_of(k) == second.balance_of(k) by {}
    match prepared_of(req) {
        Ok((p, cards)) => {
            assert(all_balances_known(cards, first) == all_balances_known(cards, second));
            assert(gift_card_legs_of(cards, first) =~= gift_card_legs_of(cards, second));
        },
        Err(_) => {},
    }
}

} // verus!
