//! The closed vocabularies of the canonical model: statuses, capture methods,
//! currencies and wallet issuers.

use vstd::prelude::*;
use crate::errors::ConnectorError;

verus! {

/// Where a payment attempt stands in its life cycle.
#[derive(Clone, Copy, Debug, PartialEq, Eq, Structural)]
pub enum AttemptStatus {
    Pending,
    Authorized,
    Charged,
    Failure,
    Voided,
    VoidFailed,
    AuthenticationFailed,
}

/// Where a refund stands in its life cycle.
#[derive(Clone, Copy, Debug, PartialEq, Eq, Structural)]
pub enum RefundStatus {
    Pending,
    Success,
    Failure,
}

/// When the funds of an authorized payment are captured.
#[derive(Clone, Copy, Debug, PartialEq, Eq, Structural)]
pub enum CaptureMethod {
    Automatic,
    Manual,
    ManualMultiple,
    Scheduled,
}

/// The issuer behind a wallet payment method.
#[derive(Clone, Copy, Debug, PartialEq, Eq, Structural)]
pub enum WalletIssuer {
    GooglePay,
    ApplePay,
    Paypal,
}

/// The currency of an amount, named by its three-letter code.
#[derive(Clone, Copy, Debug, PartialEq, Eq, Structural)]
pub enum Currency {
    AED,
    AUD,
    BRL,
    CAD,
    CHF,
    CNY,
    CZK,
    DKK,
    EUR,
    GBP,
    HKD,
    INR,
    JPY,
    KRW,
    MXN,
    MYR,
    NOK,
    NZD,
    PLN,
    SAR,
    SEK,
    SGD,
    THB,
    USD,
    ZAR,
}

impl AttemptStatus {
    /// A terminal status is final for the attempt: only `Pending` and
    /// `Authorized` still await an outcome.
    pub open spec fn spec_is_terminal(self) -> bool {
        !(self is Pending) && !(self is Authorized)
    }

    #[verifier::when_used_as_spec(spec_is_terminal)]
    pub fn is_terminal(self) -> (terminal: bool)
        ensures
            terminal == self.spec_is_terminal(),
    {
        match self {
            AttemptStatus::Pending | AttemptStatus::Authorized => false,
            _ => true,
        }
    }

    /// The status after the connector has reported `reported`, or `None`
    /// where the report would move a terminal status.
    pub open spec fn spec_advance(self, reported: AttemptStatus) -> Option<AttemptStatus> {
        if self.spec_is_terminal() && reported != self {
            None
        } else {
            Some(reported)
        }
    }

    /// Takes over the status that a connector reported. A status that is not
    /// terminal may move anywhere; a terminal one stays, and a report that
    /// would move it is refused as a failure to handle the response.
    pub fn advance(self, reported: AttemptStatus) -> (next: Result<AttemptStatus, ConnectorError>)
        ensures
            match self.spec_advance(reported) {
                Some(status) => next == Ok::<AttemptStatus, ConnectorError>(status),
                None => next == Err::<AttemptStatus, ConnectorError>(
                    ConnectorError::ResponseHandlingFailed,
                ),
            },
    {
        if self.is_terminal() && reported != self {
            Err(ConnectorError::ResponseHandlingFailed)
        } else {
            Ok(reported)
        }
    }
}

impl AttemptStatus {
    /// The status of an attempt whose call to the connector ended without an
    /// answer (a timeout, a dropped connection, a cancellation): the outcome
    /// is unknown until a status query confirms it.
    pub open spec fn spec_after_unanswered_call(self) -> AttemptStatus {
        if self.spec_is_terminal() {
            self
        } else {
            AttemptStatus::Pending
        }
    }

    /// The status to record when the call to the connector ended without an
    /// answer. An attempt that was not terminal is pending, never failed; a
    /// terminal attempt stays as it is.
    pub fn after_unanswered_call(self) -> (status: AttemptStatus)
        ensures
            status == self.spec_after_unanswered_call(),
            status is Failure ==> self is Failure,
    {
        if self.is_terminal() {
            self
        } else {
            AttemptStatus::Pending
        }
    }
}

impl RefundStatus {
    /// A refund that succeeded or failed is final; a pending one is not.
    pub open spec fn spec_is_terminal(self) -> bool {
        !(self is Pending)
    }

    #[verifier::when_used_as_spec(spec_is_terminal)]
    pub fn is_terminal(self) -> (terminal: bool)
        ensures
            terminal == self.spec_is_terminal(),
    {
        match self {
            RefundStatus::Pending => false,
            _ => true,
        }
    }

    /// The status after the connector has reported `reported`, or `None`
    /// where the report would move a terminal status.
    pub open spec fn spec_advance(self, reported: RefundStatus) -> Option<RefundStatus> {
        if self.spec_is_terminal() && reported != self {
            None
        } else {
            Some(reported)
        }
    }

    /// Takes over the status that a connector reported. A pending refund may
    /// move anywhere; a terminal one stays, and a report that would move it is
    /// refused as a failure to handle the response.
    pub fn advance(self, reported: RefundStatus) -> (next: Result<RefundStatus, ConnectorError>)
        ensures
            match self.spec_advance(reported) {
                Some(status) => next == Ok::<RefundStatus, ConnectorError>(status),
                None => next == Err::<RefundStatus, ConnectorError>(
                    ConnectorError::ResponseHandlingFailed,
                ),
            },
    {
        if self.is_terminal() && reported != self {
            Err(ConnectorError::ResponseHandlingFailed)
        } else {
            Ok(reported)
        }
    }
}

/// Status transitions are monotonic: once an attempt is terminal, every
/// accepted report leaves it where it is, and a report is refused exactly when
/// it would move a terminal status.
pub proof fn lemma_attempt_status_monotonic(current: AttemptStatus, reported: AttemptStatus)
    ensures
        current.spec_is_terminal() ==> (current.spec_advance(reported) matches Some(next) ==> next
            == current),
        current.spec_advance(reported) is None <==> current.spec_is_terminal() && reported
            != current,
        !current.spec_is_terminal() ==> current.spec_advance(reported) == Some(reported),
{
}

/// Status transitions are monotonic: once a refund is terminal, every accepted
/// report leaves it where it is, and a report is refused exactly when it would
/// move a terminal status.
pub proof fn lemma_refund_status_monotonic(current: RefundStatus, reported: RefundStatus)
    ensures
        current.spec_is_terminal() ==> (current.spec_advance(reported) matches Some(next) ==> next
            == current),
        current.spec_advance(reported) is None <==> current.spec_is_terminal() && reported
            != current,
        !current.spec_is_terminal() ==> current.spec_advance(reported) == Some(reported),
{
}

impl Currency {
    /// The three-letter code of the currency.
    pub open spec fn spec_code(self) -> Seq<char> {
        match self {
            Currency::AED => "AED"@,
            Currency::AUD => "AUD"@,
            Currency::BRL => "BRL"@,
            Currency::CAD => "CAD"@,
            Currency::CHF => "CHF"@,
            Currency::CNY => "CNY"@,
            Currency::CZK => "CZK"@,
            Currency::DKK => "DKK"@,
            Currency::EUR => "EUR"@,
            Currency::GBP => "GBP"@,
            Currency::HKD => "HKD"@,
            Currency::INR => "INR"@,
            Currency::JPY => "JPY"@,
            Currency::KRW => "KRW"@,
            Currency::MXN => "MXN"@,
            Currency::MYR => "MYR"@,
            Currency::NOK => "NOK"@,
            Currency::NZD => "NZD"@,
            Currency::PLN => "PLN"@,
            Currency::SAR => "SAR"@,
            Currency::SEK => "SEK"@,
            Currency::SGD => "SGD"@,
            Currency::THB => "THB"@,
            Currency::USD => "USD"@,
            Currency::ZAR => "ZAR"@,
        }
    }

    /// The three-letter code of the currency, as the wire formats spell it.
    pub fn code(self) -> (code: &'static str)
        ensures
            code@ == self.spec_code(),
    {
        match self {
            Currency::AED => "AED",
            Currency::AUD => "AUD",
            Currency::BRL => "BRL",
            Currency::CAD => "CAD",
            Currency::CHF => "CHF",
            Currency::CNY => "CNY",
            Currency::CZK => "CZK",
            Currency::DKK => "DKK",
            Currency::EUR => "EUR",
            Currency::GBP => "GBP",
            Currency::HKD => "HKD",
            Currency::INR => "INR",
            Currency::JPY => "JPY",
            Currency::KRW => "KRW",
            Currency::MXN => "MXN",
            Currency::MYR => "MYR",
            Currency::NOK => "NOK",
            Currency::NZD => "NZD",
            Currency::PLN => "PLN",
            Currency::SAR => "SAR",
            Currency::SEK => "SEK",
            Currency::SGD => "SGD",
            Currency::THB => "THB",
            Currency::USD => "USD",
            Currency::ZAR => "ZAR",
        }
    }
}

} // verus!
