//! What a caller of the switch hands over: the flows it can ask for and the
//! payment methods it can pay with.

use vstd::prelude::*;
use crate::enums::WalletIssuer;

verus! {

/// Flow marker: authorize a payment.
#[derive(Clone, Copy, Debug, PartialEq, Eq)]
pub struct Authorize;

/// Flow marker: capture an authorized payment.
#[derive(Clone, Copy, Debug, PartialEq, Eq)]
pub struct Capture;

/// Flow marker: void an authorized payment.
#[derive(Clone, Copy, Debug, PartialEq, Eq)]
pub struct Void;

/// Flow marker: query the status of a payment.
#[derive(Clone, Copy, Debug, PartialEq, Eq)]
pub struct PSync;

/// Flow marker: execute a refund.
#[derive(Clone, Copy, Debug, PartialEq, Eq)]
pub struct Execute;

/// Flow marker: query the status of a refund.
#[derive(Clone, Copy, Debug, PartialEq, Eq)]
pub struct RSync;

/// A card as the caller presents it.
#[derive(Clone, Debug, PartialEq, Eq)]
pub struct Card {
    pub card_number: String,
    pub card_exp_month: String,
    pub card_exp_year: String,
    pub card_holder_name: String,
    pub card_cvc: String,
}

/// A wallet payment: the issuer, and the opaque token the issuer gave out.
#[derive(Clone, Debug, PartialEq, Eq)]
pub struct WalletData {
    pub issuer_name: WalletIssuer,
    pub token: Option<String>,
}

/// A pay-later payment.
#[derive(Clone, Debug, PartialEq, Eq)]
pub enum PayLaterData {
    KlarnaRedirect { issuer_name: String, billing_email: String, country: String },
    KlarnaSdk { token: String },
}

/// The payment method of a request, in the switch's own representation.
#[derive(Clone, Debug, PartialEq, Eq)]
pub enum PaymentMethod {
    Card(Card),
    BankTransfer,
    Wallet(WalletData),
    PayLater(PayLaterData),
    Paypal,
}

} // verus!
