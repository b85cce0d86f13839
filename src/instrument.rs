use vstd::prelude::*;

verus! {

/// The broad kind of a payment method, as declared by the payer.
#[derive(Clone, Copy, Debug, PartialEq, Eq, Structural)]
pub enum PaymentMethod {
    Card,
    Wallet,
    BankTransfer,
    BankRedirect,
    PayLater,
    GiftCard,
}

/// The finer kind of a payment method.
#[derive(Clone, Copy, Debug, PartialEq, Eq, Structural)]
pub enum PaymentMethodSubtype {
    Credit,
    Debit,
    ApplePay,
    GooglePay,
    Ach,
    Sepa,
    Klarna,
    Givex,
    PaySafeCard,
    BhnCardNetwork,
}

/// The issuer network of a gift card.
#[derive(Clone, Copy, Debug, PartialEq, Eq, Structural)]
pub enum GiftCardBrand {
    Givex,
    PaySafeCard,
    BhnCardNetwork,
}

/// The payload of a stored-value instrument.
#[derive(Debug, PartialEq, Eq)]
pub struct GiftCardData {
    pub brand: GiftCardBrand,
    /// The card number; it identifies the card's balance.
    pub number: String,
}

/// The payload of a declared instrument: a gift card, or any other kind of
/// instrument, carried as an opaque token.
#[derive(Debug, PartialEq, Eq)]
pub enum PaymentMethodData {
    GiftCard(GiftCardData),
    Other(String),
}

/// One declared payment method: its payload and its two type tags.
#[derive(Debug, PartialEq, Eq)]
pub struct SplitDescriptor {
    pub payment_method_data: PaymentMethodData,
    pub payment_method_type: PaymentMethod,
    pub payment_method_subtype: PaymentMethodSubtype,
}

/// What identifies one gift card's balance within a balance lookup.
#[derive(Debug, PartialEq, Eq)]
pub struct BalanceKey {
    pub payment_method_type: PaymentMethod,
    pub payment_method_subtype: PaymentMethodSubtype,
    pub payment_method_key: String,
}

impl View for BalanceKey {
    type V = (PaymentMethod, PaymentMethodSubtype, Seq<char>);

    open spec fn view(&self) -> Self::V {
        (self.payment_method_type, self.payment_method_subtype, self.payment_method_key@)
    }
}

/// The subtype that a gift card of the given brand is declared under.
pub open spec fn brand_subtype(brand: GiftCardBrand) -> PaymentMethodSubtype {
    match brand {
        GiftCardBrand::Givex => PaymentMethodSubtype::Givex,
        GiftCardBrand::PaySafeCard => PaymentMethodSubtype::PaySafeCard,
        GiftCardBrand::BhnCardNetwork => PaymentMethodSubtype::BhnCardNetwork,
    }
}

/// The balance key of a gift card: its type, its subtype and its number.
pub open spec fn key_of(card: GiftCardData) -> (PaymentMethod, PaymentMethodSubtype, Seq<char>) {
    (PaymentMethod::GiftCard, brand_subtype(card.brand), card.number@)
}

/// A descriptor is a primary instrument when its type tag is not a gift card.
pub open spec fn is_primary(d: SplitDescriptor) -> bool {
    d.payment_method_type != PaymentMethod::GiftCard
}

impl Clone for GiftCardData {
    fn clone(&self) -> (r: Self)
        ensures
            r == *self,
    {
        GiftCardData { brand: self.brand, number: self.number.clone() }
    }
}

impl Clone for PaymentMethodData {
    fn clone(&self) -> (r: Self)
        ensures
            r == *self,
    {
        match self {
            PaymentMethodData::GiftCard(g) => PaymentMethodData::GiftCard(g.clone()),
            PaymentMethodData::Other(t) => PaymentMethodData::Other(t.clone()),
        }
    }
}

impl Clone for SplitDescriptor {
    fn clone(&self) -> (r: Self)
        ensures
            r == *self,
    {
        SplitDescriptor {
            payment_method_data: self.payment_method_data.clone(),
            payment_method_type: self.payment_method_type,
            payment_method_subtype: self.payment_method_subtype,
        }
    }
}

impl Clone for BalanceKey {
    fn clone(&self) -> (r: Self)
        ensures
            r == *self,
    {
        BalanceKey {
            payment_method_type: self.payment_method_type,
            payment_method_subtype: self.payment_method_subtype,
            payment_method_key: self.payment_method_key.clone(),
        }
    }
}

impl GiftCardBrand {
    /// The subtype that a gift card of this brand is declared under.
    pub fn subtype(&self) -> (r: PaymentMethodSubtype)
        ensures
            r == brand_subtype(*self),
    {
        match self {
            GiftCardBrand::Givex => PaymentMethodSubtype::Givex,
            GiftCardBrand::PaySafeCard => PaymentMethodSubtype::PaySafeCard,
            GiftCardBrand::BhnCardNetwork => PaymentMethodSubtype::BhnCardNetwork,
        }
    }
}

impl GiftCardData {
    /// The key under which this card's balance is looked up.
    pub fn balance_key(&self) -> (r: BalanceKey)
        ensures
            r@ == key_of(*self),
    {
        BalanceKey {
            payment_method_type: PaymentMethod::GiftCard,
            payment_method_subtype: self.brand.subtype(),
            payment_method_key: self.number.clone(),
        }
    }
}

impl BalanceKey {
    /// Whether two keys name the same balance.
    pub fn same_as(&self, other: &BalanceKey) -> (r: bool)
        ensures
            r == (self@ == other@),
    {
        self.payment_method_type == other.payment_method_type
            && self.payment_method_subtype == other.payment_method_subtype
            && self.payment_method_key == other.payment_method_key
    }
}

impl SplitDescriptor {
    /// Whether this descriptor declares a primary (non-gift-card) instrument.
    pub fn is_primary(&self) -> (r: bool)
        ensures
            r == is_primary(*self),
    {
        self.payment_method_type != PaymentMethod::GiftCard
    }
}

} // verus!
