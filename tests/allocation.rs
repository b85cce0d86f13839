use split_payments::allocation::{
    allocate, allocate_legs, balance_keys, gift_card_legs, merge_descriptors, partition_instruments,
    prepare_split, remaining_amount, ConfirmRequest, InstrumentPlan, Leg,
};
use split_payments::balance::BalanceSnapshot;
use split_payments::error::{InvalidRequestReason, RequiredField, SplitError};
use split_payments::instrument::{
    GiftCardBrand, GiftCardData, PaymentMethod, PaymentMethodData, PaymentMethodSubtype,
    SplitDescriptor,
};

fn gift(number: &str) -> GiftCardData {
    GiftCardData { brand: GiftCardBrand::Givex, number: number.to_string() }
}

fn gift_descriptor(number: &str) -> SplitDescriptor {
    SplitDescriptor {
        payment_method_data: PaymentMethodData::GiftCard(gift(number)),
        payment_method_type: PaymentMethod::GiftCard,
        payment_method_subtype: PaymentMethodSubtype::Givex,
    }
}

fn card_descriptor(token: &str) -> SplitDescriptor {
    SplitDescriptor {
        payment_method_data: PaymentMethodData::Other(token.to_string()),
        payment_method_type: PaymentMethod::Card,
        payment_method_subtype: PaymentMethodSubtype::Credit,
    }
}

fn request(split: Vec<SplitDescriptor>, top: SplitDescriptor) -> ConfirmRequest {
    ConfirmRequest {
        payment_method_data: Some(top.payment_method_data),
        payment_method_type: top.payment_method_type,
        payment_method_subtype: top.payment_method_subtype,
        split_payment_method_data: Some(split),
    }
}

fn snapshot(balances: &[(&str, u64)]) -> BalanceSnapshot {
    let mut snap = BalanceSnapshot::new();
    for (number, balance) in balances {
        snap.insert(gift(number).balance_key(), *balance);
    }
    snap
}

fn gift_leg(number: &str, amount: u64) -> Leg {
    Leg { payment_method_data: PaymentMethodData::GiftCard(gift(number)), amount }
}

fn card_leg(token: &str, amount: u64) -> Leg {
    Leg { payment_method_data: PaymentMethodData::Other(token.to_string()), amount }
}

#[test]
fn gift_card_only_coverage() {
    let req = request(vec![], gift_descriptor("6000"));
    let snap = snapshot(&[("6000", 1000)]);
    assert_eq!(allocate(&req, &snap, 1000), Ok(vec![gift_leg("6000", 1000)]));
}

#[test]
fn mixed_coverage() {
    let req = request(vec![gift_descriptor("6001")], card_descriptor("card"));
    let snap = snapshot(&[("6001", 400)]);
    assert_eq!(
        allocate(&req, &snap, 1500),
        Ok(vec![card_leg("card", 1100), gift_leg("6001", 400)])
    );
}

#[test]
fn over_declared_primaries() {
    let req = request(vec![card_descriptor("card")], card_descriptor("wallet"));
    let expected = SplitError::InvalidRequestData(InvalidRequestReason::TooManyPrimaryInstruments);
    assert_eq!(prepare_split(&req).err(), Some(expected));
    assert_eq!(allocate(&req, &BalanceSnapshot::new(), 1000), Err(expected));
}

#[test]
fn missing_primary_when_required() {
    let req = request(vec![], gift_descriptor("6002"));
    let snap = snapshot(&[("6002", 300)]);
    assert_eq!(
        allocate(&req, &snap, 1000),
        Err(SplitError::InvalidRequestData(InvalidRequestReason::AdditionalPaymentMethodRequired))
    );
}

#[test]
fn primary_alone_takes_whole_order() {
    let req = request(vec![], card_descriptor("card"));
    assert_eq!(allocate(&req, &BalanceSnapshot::new(), 700), Ok(vec![card_leg("card", 700)]));
}

#[test]
fn covered_order_drops_declared_primary() {
    let req = request(vec![gift_descriptor("1"), gift_descriptor("2")], card_descriptor("card"));
    let snap = snapshot(&[("1", 600), ("2", 500)]);
    assert_eq!(allocate(&req, &snap, 1000), Ok(vec![gift_leg("1", 600), gift_leg("2", 500)]));
}

#[test]
fn exact_coverage_drops_declared_primary() {
    let req = request(vec![gift_descriptor("1"), gift_descriptor("2")], card_descriptor("card"));
    let snap = snapshot(&[("1", 600), ("2", 400)]);
    assert_eq!(allocate(&req, &snap, 1000), Ok(vec![gift_leg("1", 600), gift_leg("2", 400)]));
}

#[test]
fn shortfall_with_two_gift_cards_and_no_primary() {
    let req = request(vec![gift_descriptor("1")], gift_descriptor("2"));
    let snap = snapshot(&[("1", 100), ("2", 200)]);
    assert_eq!(
        allocate(&req, &snap, 301),
        Err(SplitError::InvalidRequestData(InvalidRequestReason::AdditionalPaymentMethodRequired))
    );
}

#[test]
fn three_primaries_rejected() {
    let req = request(
        vec![card_descriptor("a"), gift_descriptor("1"), card_descriptor("b")],
        card_descriptor("c"),
    );
    let snap = snapshot(&[("1", 5000)]);
    assert_eq!(
        allocate(&req, &snap, 100),
        Err(SplitError::InvalidRequestData(InvalidRequestReason::TooManyPrimaryInstruments))
    );
}

#[test]
fn merge_twice_gives_same_list() {
    let req = request(vec![gift_descriptor("1")], card_descriptor("card"));
    let first = merge_descriptors(&req).unwrap();
    let second = merge_descriptors(&req).unwrap();
    assert_eq!(first, second);
    assert_eq!(first, vec![gift_descriptor("1"), card_descriptor("card")]);
    assert_eq!(req.split_payment_method_data, Some(vec![gift_descriptor("1")]));
}

#[test]
fn allocation_is_reproducible() {
    let req = request(vec![gift_descriptor("1"), gift_descriptor("2")], card_descriptor("card"));
    let snap = snapshot(&[("1", 10), ("2", 20)]);
    let first = allocate(&req, &snap, 100).unwrap();
    let second = allocate(&req, &snap, 100).unwrap();
    assert_eq!(first, second);
    assert_eq!(first, vec![card_leg("card", 70), gift_leg("1", 10), gift_leg("2", 20)]);
}

#[test]
fn zero_balance_gift_card_gives_zero_leg() {
    let req = request(vec![gift_descriptor("1")], card_descriptor("card"));
    let snap = snapshot(&[("1", 0)]);
    assert_eq!(allocate(&req, &snap, 50), Ok(vec![card_leg("card", 50), gift_leg("1", 0)]));
}

#[test]
fn zero_order_without_gift_cards_gives_no_leg() {
    let req = request(vec![], card_descriptor("card"));
    assert_eq!(allocate(&req, &BalanceSnapshot::new(), 0), Ok(vec![]));
}

#[test]
fn absent_split_list_counts_as_empty() {
    let mut req = request(vec![], card_descriptor("card"));
    req.split_payment_method_data = None;
    assert_eq!(merge_descriptors(&req), Ok(vec![card_descriptor("card")]));
    assert_eq!(allocate(&req, &BalanceSnapshot::new(), 700), Ok(vec![card_leg("card", 700)]));
}

#[test]
fn absent_split_list_with_short_gift_card_is_invalid() {
    let mut req = request(vec![], gift_descriptor("9"));
    req.split_payment_method_data = None;
    assert_eq!(
        allocate(&req, &snapshot(&[("9", 300)]), 1000),
        Err(SplitError::InvalidRequestData(InvalidRequestReason::AdditionalPaymentMethodRequired))
    );
}

#[test]
fn missing_top_level_payload_is_required() {
    let mut req = request(vec![gift_descriptor("1")], card_descriptor("card"));
    req.payment_method_data = None;
    assert_eq!(
        allocate(&req, &snapshot(&[("1", 10)]), 5),
        Err(SplitError::MissingRequiredField(RequiredField::PaymentMethodData))
    );
}

#[test]
fn gift_card_type_without_gift_card_payload_rejected() {
    let odd = SplitDescriptor {
        payment_method_data: PaymentMethodData::Other("token".to_string()),
        payment_method_type: PaymentMethod::GiftCard,
        payment_method_subtype: PaymentMethodSubtype::Givex,
    };
    let merged = vec![gift_descriptor("1"), odd, card_descriptor("card")];
    assert_eq!(
        partition_instruments(&merged).err(),
        Some(SplitError::InvalidRequestData(InvalidRequestReason::UnsupportedSplitInstrument))
    );
}

#[test]
fn partition_keeps_gift_card_order_and_primary() {
    let merged = vec![gift_descriptor("3"), card_descriptor("card"), gift_descriptor("1")];
    let plan = partition_instruments(&merged).unwrap();
    assert_eq!(plan.primary, Some(card_descriptor("card")));
    assert_eq!(plan.gift_cards, vec![gift("3"), gift("1")]);
}

#[test]
fn missing_balance_is_server_error() {
    let cards = vec![gift("1"), gift("2")];
    let snap = snapshot(&[("1", 10)]);
    assert_eq!(gift_card_legs(&cards, &snap), Err(SplitError::InternalServerError));
    let plan = InstrumentPlan { primary: Some(card_descriptor("card")), gift_cards: cards };
    assert_eq!(allocate_legs(plan, &snap, 5), Err(SplitError::InternalServerError));
}

#[test]
fn balance_keys_follow_cards() {
    let cards = vec![
        gift("11"),
        GiftCardData { brand: GiftCardBrand::PaySafeCard, number: "22".to_string() },
    ];
    let keys = balance_keys(&cards);
    assert_eq!(keys.len(), 2);
    assert_eq!(keys[0].payment_method_type, PaymentMethod::GiftCard);
    assert_eq!(keys[0].payment_method_subtype, PaymentMethodSubtype::Givex);
    assert_eq!(keys[0].payment_method_key, "11");
    assert_eq!(keys[1].payment_method_subtype, PaymentMethodSubtype::PaySafeCard);
    assert_eq!(keys[1].payment_method_key, "22");
}

#[test]
fn remaining_amount_clamps_at_zero() {
    assert_eq!(remaining_amount(1500, &snapshot(&[("1", 400)])), 1100);
    assert_eq!(remaining_amount(300, &snapshot(&[("1", 400)])), 0);
    assert_eq!(remaining_amount(400, &snapshot(&[("1", 400)])), 0);
}

#[test]
fn total_saturates_instead_of_wrapping() {
    let snap = snapshot(&[("1", u64::MAX), ("2", 5)]);
    assert_eq!(snap.total_capped(), u64::MAX);
    assert_eq!(remaining_amount(u64::MAX, &snap), 0);
}

#[test]
fn snapshot_insert_replaces_balance() {
    let mut snap = snapshot(&[("1", 10), ("2", 20)]);
    snap.insert(gift("1").balance_key(), 7);
    assert_eq!(snap.len(), 2);
    assert_eq!(snap.get(&gift("1").balance_key()), Some(7));
    assert_eq!(snap.get(&gift("2").balance_key()), Some(20));
    assert_eq!(snap.get(&gift("3").balance_key()), None);
    assert_eq!(snap.total_capped(), 27);
}

#[test]
fn same_number_other_brand_is_other_key() {
    let other = GiftCardData { brand: GiftCardBrand::BhnCardNetwork, number: "1".to_string() };
    let snap = snapshot(&[("1", 10)]);
    assert_eq!(snap.get(&other.balance_key()), None);
    assert!(!gift("1").balance_key().same_as(&other.balance_key()));
}
