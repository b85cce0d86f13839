use vstd::prelude::*;

verus! {

/// A field of the confirm request that a split run cannot do without.
#[derive(Clone, Copy, Debug, PartialEq, Eq, Structural)]
pub enum RequiredField {
    PaymentMethodData,
}

/// Why a split request was rejected as invalid.
#[derive(Clone, Copy, Debug, PartialEq, Eq, Structural)]
pub enum InvalidRequestReason {
    /// More than one instrument that is not a gift card was declared.
    TooManyPrimaryInstruments,
    /// An instrument other than the primary one does not carry a gift card.
    UnsupportedSplitInstrument,
    /// The gift cards do not cover the order and no primary instrument was given.
    AdditionalPaymentMethodRequired,
}

/// The failures of a split run. Every failure ends the run.
#[derive(Clone, Copy, Debug, PartialEq, Eq, Structural)]
pub enum SplitError {
    MissingRequiredField(RequiredField),
    InvalidRequestData(InvalidRequestReason),
    PaymentNotFound,
    InternalServerError,
    /// A failure reported by the balance service or the authorize pipeline,
    /// passed on as it came, under the collaborator's own code.
    Upstream(u32),
}

} // verus!
