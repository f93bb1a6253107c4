//! The Authorize.Net transformers: canonical requests become wire requests,
//! wire responses become canonical responses with a normalized status or a
//! normalized error.

use vstd::prelude::*;
use vstd::string::*;
use vstd::std_specs::convert::{FromSpecImpl, TryFromSpecImpl};
use crate::encoding::{base64_encode, base64_standard};
use crate::enums::{AttemptStatus, CaptureMethod, RefundStatus, WalletIssuer};
use crate::errors::{ConnectorError, ConnectorErrorView, ErrorResponse, ErrorResponseView, view_result};
use crate::types::api::{Authorize, PaymentMethod, RSync};
use crate::types::{
    has_error, has_refund_id, has_resource_id, ConnectorAuthType, ConnectorMetadata,
    ConnectorMetadataView, PaymentsAuthorizeData, PaymentsAuthorizeRouterData,
    PaymentsCancelRouterData, PaymentsCaptureRouterData, PaymentsResponseData,
    PaymentsResponseDataView, PaymentsSyncRouterData, RefundsData, RefundsResponseData,
    RefundsResponseDataView, RefundsResponseRouterData, RefundsRouterData, ResponseId,
    ResponseIdView, ResponseRouterData, RouterData,
};

verus! {

/// What a wire request asks the connector to do.
#[derive(Clone, Copy, Debug, PartialEq, Eq, Structural)]
pub enum TransactionType {
    Payment,
    PaymentAuthOnly,
    Capture,
    Refund,
    Void,
}

impl TransactionType {
    /// The name of the transaction type on the wire.
    pub open spec fn spec_wire_name(self) -> Seq<char> {
        match self {
            TransactionType::Payment => "authCaptureTransaction"@,
            TransactionType::PaymentAuthOnly => "authOnlyTransaction"@,
            TransactionType::Capture => "priorAuthCaptureTransaction"@,
            TransactionType::Refund => "refundTransaction"@,
            TransactionType::Void => "voidTransaction"@,
        }
    }

    /// The name of the transaction type on the wire.
    pub fn wire_name(self) -> (name: &'static str)
        ensures
            name@ == self.spec_wire_name(),
    {
        match self {
            TransactionType::Payment => "authCaptureTransaction",
            TransactionType::PaymentAuthOnly => "authOnlyTransaction",
            TransactionType::Capture => "priorAuthCaptureTransaction",
            TransactionType::Refund => "refundTransaction",
            TransactionType::Void => "voidTransaction",
        }
    }
}

/// The merchant's credentials as the wire request carries them.
#[derive(Clone, Debug, PartialEq, Eq)]
pub struct MerchantAuthentication {
    pub name: String,
    pub transaction_key: String,
}

/// The mathematical content of a [`MerchantAuthentication`].
pub struct MerchantAuthenticationView {
    pub name: Seq<char>,
    pub transaction_key: Seq<char>,
}

impl View for MerchantAuthentication {
    type V = MerchantAuthenticationView;

    open spec fn view(&self) -> MerchantAuthenticationView {
        MerchantAuthenticationView { name: self.name@, transaction_key: self.transaction_key@ }
    }
}

/// The credentials that the connector takes from a credential shape: those of
/// a key pair in the body, and of no other shape.
pub open spec fn merchant_authentication_of(auth_type: ConnectorAuthType) -> Result<
    MerchantAuthenticationView,
    ConnectorErrorView,
> {
    match auth_type {
        ConnectorAuthType::BodyKey { api_key, key1 } => Ok(
            MerchantAuthenticationView { name: key1@, transaction_key: api_key@ },
        ),
        _ => Err(ConnectorErrorView::FailedToObtainAuthType),
    }
}

impl TryFrom<&ConnectorAuthType> for MerchantAuthentication {
    type Error = ConnectorError;

    /// Takes the connector's credentials out of the configured credential
    /// shape, and refuses every shape but the key pair in the body.
    fn try_from(auth_type: &ConnectorAuthType) -> (credentials: Result<Self, ConnectorError>)
        ensures
            view_result(credentials) == merchant_authentication_of(*auth_type),
    {
        match auth_type {
            ConnectorAuthType::BodyKey { api_key, key1 } => Ok(
                MerchantAuthentication { name: key1.clone(), transaction_key: api_key.clone() },
            ),
            _ => Err(ConnectorError::FailedToObtainAuthType),
        }
    }
}

impl TryFromSpecImpl<&ConnectorAuthType> for MerchantAuthentication {
    open spec fn obeys_try_from_spec() -> bool {
        true
    }

    open spec fn try_from_spec(auth_type: &ConnectorAuthType) -> Result<Self, ConnectorError> {
        match *auth_type {
            ConnectorAuthType::BodyKey { api_key, key1 } => Ok(
                MerchantAuthentication { name: key1, transaction_key: api_key },
            ),
            _ => Err(ConnectorError::FailedToObtainAuthType),
        }
    }
}

/// A card as the wire request carries it.
#[derive(Debug, PartialEq, Eq)]
pub struct CreditCardDetails {
    pub card_number: String,
    pub expiration_date: String,
    pub card_code: Option<String>,
}

/// A bank account as the wire request carries it.
#[derive(Debug, PartialEq, Eq)]
pub struct BankAccountDetails {
    pub account_number: String,
}

/// A wallet token as the wire request carries it.
#[derive(Debug, PartialEq, Eq)]
pub struct WalletDetails {
    pub data_descriptor: String,
    pub data_value: String,
}

/// The payment method of a wire request: the connector's own tagged union.
#[derive(Debug, PartialEq, Eq)]
pub enum PaymentDetails {
    CreditCard(CreditCardDetails),
    BankAccount(BankAccountDetails),
    Wallet(WalletDetails),
    Klarna,
    Paypal,
}

/// The mathematical content of a [`CreditCardDetails`].
pub struct CreditCardDetailsView {
    pub card_number: Seq<char>,
    pub expiration_date: Seq<char>,
    pub card_code: Option<Seq<char>>,
}

/// The mathematical content of a [`BankAccountDetails`].
pub struct BankAccountDetailsView {
    pub account_number: Seq<char>,
}

/// The mathematical content of a [`WalletDetails`].
pub struct WalletDetailsView {
    pub data_descriptor: Seq<char>,
    pub data_value: Seq<char>,
}

/// The mathematical content of a [`PaymentDetails`].
pub enum PaymentDetailsView {
    CreditCard(CreditCardDetailsView),
    BankAccount(BankAccountDetailsView),
    Wallet(WalletDetailsView),
    Klarna,
    Paypal,
}

impl View for CreditCardDetails {
    type V = CreditCardDetailsView;

    open spec fn view(&self) -> CreditCardDetailsView {
        CreditCardDetailsView {
            card_number: self.card_number@,
            expiration_date: self.expiration_date@,
            card_code: match self.card_code {
                Some(code) => Some(code@),
                None => None,
            },
        }
    }
}

impl View for BankAccountDetails {
    type V = BankAccountDetailsView;

    open spec fn view(&self) -> BankAccountDetailsView {
        BankAccountDetailsView { account_number: self.account_number@ }
    }
}

impl View for WalletDetails {
    type V = WalletDetailsView;

    open spec fn view(&self) -> WalletDetailsView {
        WalletDetailsView { data_descriptor: self.data_descriptor@, data_value: self.data_value@ }
    }
}

impl View for PaymentDetails {
    type V = PaymentDetailsView;

    open spec fn view(&self) -> PaymentDetailsView {
        match *self {
            PaymentDetails::CreditCard(card) => PaymentDetailsView::CreditCard(card@),
            PaymentDetails::BankAccount(account) => PaymentDetailsView::BankAccount(account@),
            PaymentDetails::Wallet(wallet) => PaymentDetailsView::Wallet(wallet@),
            PaymentDetails::Klarna => PaymentDetailsView::Klarna,
            PaymentDetails::Paypal => PaymentDetailsView::Paypal,
        }
    }
}

impl Clone for PaymentDetails {
    fn clone(&self) -> (copy: Self)
        ensures
            copy@ == self@,
    {
        match self {
            PaymentDetails::CreditCard(card) => PaymentDetails::CreditCard(
                CreditCardDetails {
                    card_number: card.card_number.clone(),
                    expiration_date: card.expiration_date.clone(),
                    card_code: match &card.card_code {
                        Some(code) => Some(code.clone()),
                        None => None,
                    },
                },
            ),
            PaymentDetails::BankAccount(account) => PaymentDetails::BankAccount(
                BankAccountDetails { account_number: account.account_number.clone() },
            ),
            PaymentDetails::Wallet(wallet) => PaymentDetails::Wallet(
                WalletDetails {
                    data_descriptor: wallet.data_descriptor.clone(),
                    data_value: wallet.data_value.clone(),
                },
            ),
            PaymentDetails::Klarna => PaymentDetails::Klarna,
            PaymentDetails::Paypal => PaymentDetails::Paypal,
        }
    }
}

/// The wallet details that carry an encoded Google Pay token.
pub open spec fn google_pay_wallet(data_value: Seq<char>) -> WalletDetailsView {
    WalletDetailsView { data_descriptor: "COMMON.GOOGLE.INAPP.PAYMENT"@, data_value }
}

/// The wire payment method of a canonical one. A card keeps its number and
/// code and shows its expiry as year, hyphen, month; a bank transfer shows a
/// masked account; a Google Pay wallet shows its token in base64 under the
/// connector's descriptor, and fails to encode without a token; any other
/// wallet issuer has no mapping.
pub open spec fn payment_details_of(value: PaymentMethod) -> Result<
    PaymentDetailsView,
    ConnectorErrorView,
> {
    match value {
        PaymentMethod::Card(card) => Ok(
            PaymentDetailsView::CreditCard(
                CreditCardDetailsView {
                    card_number: card.card_number@,
                    expiration_date: card.card_exp_year@ + "-"@ + card.card_exp_month@,
                    card_code: Some(card.card_cvc@),
                },
            ),
        ),
        PaymentMethod::BankTransfer => Ok(
            PaymentDetailsView::BankAccount(BankAccountDetailsView { account_number: "XXXXX"@ }),
        ),
        PaymentMethod::PayLater(_) => Ok(PaymentDetailsView::Klarna),
        PaymentMethod::Wallet(wallet) => match wallet.issuer_name {
            WalletIssuer::GooglePay => match wallet.token {
                Some(token) => Ok(
                    PaymentDetailsView::Wallet(google_pay_wallet(base64_standard(token@))),
                ),
                None => Err(ConnectorErrorView::RequestEncodingFailed),
            },
            _ => Err(ConnectorErrorView::NotImplemented("Unknown Wallet in Payment Method"@)),
        },
        PaymentMethod::Paypal => Ok(PaymentDetailsView::Paypal),
    }
}

impl WalletDetails {
    /// The wallet details of a Google Pay token that is already encoded: the
    /// connector's descriptor for such tokens, and the encoded token.
    pub fn google_pay(data_value: String) -> (wallet: WalletDetails)
        ensures
            wallet@ == google_pay_wallet(data_value@),
    {
        WalletDetails { data_descriptor: "COMMON.GOOGLE.INAPP.PAYMENT".to_owned(), data_value }
    }
}

impl PaymentDetails {
    /// The wire payment method of a canonical one that the caller keeps.
    pub fn for_payment_method(value: &PaymentMethod) -> (details: Result<Self, ConnectorError>)
        ensures
            view_result(details) == payment_details_of(*value),
    {
        match value {
            PaymentMethod::Card(card) => {
                let mut expiration_date = card.card_exp_year.clone();
                expiration_date.append("-");
                expiration_date.append(card.card_exp_month.as_str());
                Ok(
                    PaymentDetails::CreditCard(
                        CreditCardDetails {
                            card_number: card.card_number.clone(),
                            expiration_date,
                            card_code: Some(card.card_cvc.clone()),
                        },
                    ),
                )
            },
            PaymentMethod::BankTransfer => Ok(
                PaymentDetails::BankAccount(
                    BankAccountDetails { account_number: "XXXXX".to_owned() },
                ),
            ),
            PaymentMethod::PayLater(_) => Ok(PaymentDetails::Klarna),
            PaymentMethod::Wallet(wallet) => match wallet.issuer_name {
                WalletIssuer::GooglePay => match &wallet.token {
                    Some(token) => Ok(
                        PaymentDetails::Wallet(
                            WalletDetails::google_pay(base64_encode(token.as_str())),
                        ),
                    ),
                    None => Err(ConnectorError::RequestEncodingFailed),
                },
                _ => Err(
                    ConnectorError::NotImplemented("Unknown Wallet in Payment Method".to_owned()),
                ),
            },
            PaymentMethod::Paypal => Ok(PaymentDetails::Paypal),
        }
    }
}

impl TryFrom<PaymentMethod> for PaymentDetails {
    type Error = ConnectorError;

    /// The wire payment method of a canonical one.
    fn try_from(value: PaymentMethod) -> (details: Result<Self, ConnectorError>)
        ensures
            view_result(details) == payment_details_of(value),
    {
        PaymentDetails::for_payment_method(&value)
    }
}

impl TryFromSpecImpl<PaymentMethod> for PaymentDetails {
    /// The details hold text that is built anew, which only a view describes:
    /// `try_from` states its result in its own contract.
    open spec fn obeys_try_from_spec() -> bool {
        false
    }

    open spec fn try_from_spec(value: PaymentMethod) -> Result<Self, ConnectorError> {
        arbitrary()
    }
}

/// The payment details that a refund presents for a card of which only the
/// masked number is left.
pub open spec fn refund_payment_details(masked_number: Seq<char>) -> PaymentDetailsView {
    PaymentDetailsView::CreditCard(
        CreditCardDetailsView {
            card_number: masked_number,
            expiration_date: "XXXX"@,
            card_code: None,
        },
    )
}

/// Builds the payment details that a refund presents from the masked account
/// number that the connector returned when the payment was made.
pub fn construct_refund_payment_details(masked_number: String) -> (details: PaymentDetails)
    ensures
        details@ == refund_payment_details(masked_number@),
{
    PaymentDetails::CreditCard(
        CreditCardDetails {
            card_number: masked_number,
            expiration_date: "XXXX".to_owned(),
            card_code: None,
        },
    )
}


/// An authorize request on the wire. The connector reads the fields in the
/// order in which they are declared.
#[derive(Debug, PartialEq, Eq)]
pub struct PaymentRequestData {
    pub transaction_type: TransactionType,
    pub amount: i64,
    pub currency_code: String,
    pub payment: PaymentDetails,
}

/// A capture request on the wire.
#[derive(Debug, PartialEq, Eq)]
pub struct CaptureRequestData {
    pub transaction_type: TransactionType,
    pub amount: i64,
    pub ref_trans_id: String,
}

/// A void request on the wire.
#[derive(Debug, PartialEq, Eq)]
pub struct VoidRequestData {
    pub transaction_type: TransactionType,
    pub ref_trans_id: String,
}

/// A refund request on the wire.
#[derive(Debug, PartialEq, Eq)]
pub struct RefundRequestData {
    pub transaction_type: TransactionType,
    pub amount: i64,
    pub currency_code: String,
    pub payment: PaymentDetails,
    pub reference_transaction_id: String,
}

/// The transaction that a wire request asks for.
#[derive(Debug, PartialEq, Eq)]
pub enum TransactionRequest {
    AuthRequest(PaymentRequestData),
    CaptureRequest(CaptureRequestData),
    VoidRequest(VoidRequestData),
    RefundRequest(RefundRequestData),
}

/// The credentials and the transaction of a wire request, in that order.
#[derive(Debug, PartialEq, Eq)]
pub struct AuthorizedotnetPaymentsRequest {
    pub merchant_authentication: MerchantAuthentication,
    pub transaction_request: TransactionRequest,
}

/// The wire request of the flows that create a transaction.
#[derive(Debug, PartialEq, Eq)]
pub struct CreateTransactionRequest {
    pub create_transaction_request: AuthorizedotnetPaymentsRequest,
}

/// The mathematical content of a [`PaymentRequestData`].
pub struct PaymentRequestDataView {
    pub transaction_type: TransactionType,
    pub amount: i64,
    pub currency_code: Seq<char>,
    pub payment: PaymentDetailsView,
}

/// The mathematical content of a [`CaptureRequestData`].
pub struct CaptureRequestDataView {
    pub transaction_type: TransactionType,
    pub amount: i64,
    pub ref_trans_id: Seq<char>,
}

/// The mathematical content of a [`VoidRequestData`].
pub struct VoidRequestDataView {
    pub transaction_type: TransactionType,
    pub ref_trans_id: Seq<char>,
}

/// The mathematical content of a [`RefundRequestData`].
pub struct RefundRequestDataView {
    pub transaction_type: TransactionType,
    pub amount: i64,
    pub currency_code: Seq<char>,
    pub payment: PaymentDetailsView,
    pub reference_transaction_id: Seq<char>,
}

/// The mathematical content of a [`TransactionRequest`].
pub enum TransactionRequestView {
    AuthRequest(PaymentRequestDataView),
    CaptureRequest(CaptureRequestDataView),
    VoidRequest(VoidRequestDataView),
    RefundRequest(RefundRequestDataView),
}

/// The mathematical content of a [`CreateTransactionRequest`]: the
/// credentials and the transaction it wraps.
pub struct CreateTransactionRequestView {
    pub merchant_authentication: MerchantAuthenticationView,
    pub transaction_request: TransactionRequestView,
}

impl View for PaymentRequestData {
    type V = PaymentRequestDataView;

    open spec fn view(&self) -> PaymentRequestDataView {
        PaymentRequestDataView {
            transaction_type: self.transaction_type,
            amount: self.amount,
            currency_code: self.currency_code@,
            payment: self.payment@,
        }
    }
}

impl View for CaptureRequestData {
    type V = CaptureRequestDataView;

    open spec fn view(&self) -> CaptureRequestDataView {
        CaptureRequestDataView {
            transaction_type: self.transaction_type,
            amount: self.amount,
            ref_trans_id: self.ref_trans_id@,
        }
    }
}

impl View for VoidRequestData {
    type V = VoidRequestDataView;

    open spec fn view(&self) -> VoidRequestDataView {
        VoidRequestDataView {
            transaction_type: self.transaction_type,
            ref_trans_id: self.ref_trans_id@,
        }
    }
}

impl View for RefundRequestData {
    type V = RefundRequestDataView;

    open spec fn view(&self) -> RefundRequestDataView {
        RefundRequestDataView {
            transaction_type: self.transaction_type,
            amount: self.amount,
            currency_code: self.currency_code@,
            payment: self.payment@,
            reference_transaction_id: self.reference_transaction_id@,
        }
    }
}

impl View for TransactionRequest {
    type V = TransactionRequestView;

    open spec fn view(&self) -> TransactionRequestView {
        match *self {
            TransactionRequest::AuthRequest(request) => TransactionRequestView::AuthRequest(
                request@,
            ),
            TransactionRequest::CaptureRequest(request) => TransactionRequestView::CaptureRequest(
                request@,
            ),
            TransactionRequest::VoidRequest(request) => TransactionRequestView::VoidRequest(
                request@,
            ),
            TransactionRequest::RefundRequest(request) => TransactionRequestView::RefundRequest(
                request@,
            ),
        }
    }
}

impl View for AuthorizedotnetPaymentsRequest {
    type V = CreateTransactionRequestView;

    open spec fn view(&self) -> CreateTransactionRequestView {
        CreateTransactionRequestView {
            merchant_authentication: self.merchant_authentication@,
            transaction_request: self.transaction_request@,
        }
    }
}

impl View for CreateTransactionRequest {
    type V = CreateTransactionRequestView;

    open spec fn view(&self) -> CreateTransactionRequestView {
        self.create_transaction_request@
    }
}

/// The kind of authorization that a capture method asks for.
#[derive(Clone, Copy, Debug, PartialEq, Eq, Structural)]
pub enum AuthorizationType {
    Final,
    Pre,
}

impl From<CaptureMethod> for AuthorizationType {
    /// A manual capture asks for a pre-authorization; every other capture
    /// method asks for a final one.
    fn from(item: CaptureMethod) -> (authorization: Self) {
        match item {
            CaptureMethod::Manual => AuthorizationType::Pre,
            _ => AuthorizationType::Final,
        }
    }
}

/// The kind of authorization that a capture method asks for: a
/// pre-authorization for a manual capture, a final one for every other.
pub open spec fn authorization_type_of(item: CaptureMethod) -> AuthorizationType {
    match item {
        CaptureMethod::Automatic => AuthorizationType::Final,
        CaptureMethod::Manual => AuthorizationType::Pre,
        CaptureMethod::ManualMultiple => AuthorizationType::Final,
        CaptureMethod::Scheduled => AuthorizationType::Final,
    }
}

impl FromSpecImpl<CaptureMethod> for AuthorizationType {
    open spec fn obeys_from_spec() -> bool {
        true
    }

    open spec fn from_spec(item: CaptureMethod) -> Self {
        authorization_type_of(item)
    }
}

/// A payment is authorized only, and captured later, exactly when its request
/// asks for manual capture. A request that names no capture method is
/// captured at once.
pub open spec fn spec_is_auth_only(capture_method: Option<CaptureMethod>) -> bool {
    capture_method == Some(CaptureMethod::Manual)
}

/// Whether a request with this capture method is authorized only.
#[verifier::when_used_as_spec(spec_is_auth_only)]
pub fn is_auth_only(capture_method: Option<CaptureMethod>) -> (auth_only: bool)
    ensures
        auth_only == spec_is_auth_only(capture_method),
{
    match capture_method {
        Some(CaptureMethod::Manual) => true,
        _ => false,
    }
}

/// The wire request that carries these credentials and this transaction, or
/// the failure to obtain the credentials.
pub open spec fn create_transaction_request_of(
    auth_type: ConnectorAuthType,
    transaction_request: TransactionRequestView,
) -> Result<CreateTransactionRequestView, ConnectorErrorView> {
    match merchant_authentication_of(auth_type) {
        Ok(merchant_authentication) => Ok(
            CreateTransactionRequestView { merchant_authentication, transaction_request },
        ),
        Err(error) => Err(error),
    }
}

/// The wire request of an authorize flow. The payment method is mapped first,
/// so its failure comes before that of the credentials. The transaction is
/// authorize-only for a manual capture, and authorize-and-capture otherwise.
pub open spec fn authorize_request_of(item: PaymentsAuthorizeRouterData) -> Result<
    CreateTransactionRequestView,
    ConnectorErrorView,
> {
    match payment_details_of(item.request.payment_method_data) {
        Ok(payment) => create_transaction_request_of(
            item.connector_auth_type,
            TransactionRequestView::AuthRequest(
                PaymentRequestDataView {
                    transaction_type: if spec_is_auth_only(item.request.capture_method) {
                        TransactionType::PaymentAuthOnly
                    } else {
                        TransactionType::Payment
                    },
                    amount: item.request.amount,
                    currency_code: item.request.currency.spec_code(),
                    payment,
                },
            ),
        ),
        Err(error) => Err(error),
    }
}

/// The wire request of a capture flow: the amount, and the transaction that
/// was authorized. A capture that names no transaction fails first, naming
/// the field; then the credentials are obtained.
pub open spec fn capture_request_of(item: PaymentsCaptureRouterData) -> Result<
    CreateTransactionRequestView,
    ConnectorErrorView,
> {
    if item.request.connector_transaction_id@.len() == 0 {
        Err(ConnectorErrorView::MissingRequiredField { field_name: "connector_transaction_id"@ })
    } else {
        create_transaction_request_of(
            item.connector_auth_type,
            TransactionRequestView::CaptureRequest(
                CaptureRequestDataView {
                    transaction_type: TransactionType::Capture,
                    amount: item.request.amount,
                    ref_trans_id: item.request.connector_transaction_id@,
                },
            ),
        )
    }
}

/// The wire request of a void flow: the transaction that was authorized. A
/// void that names no transaction fails first, naming the field; then the
/// credentials are obtained.
pub open spec fn void_request_of(item: PaymentsCancelRouterData) -> Result<
    CreateTransactionRequestView,
    ConnectorErrorView,
> {
    if item.request.connector_transaction_id@.len() == 0 {
        Err(ConnectorErrorView::MissingRequiredField { field_name: "connector_transaction_id"@ })
    } else {
        create_transaction_request_of(
            item.connector_auth_type,
            TransactionRequestView::VoidRequest(
                VoidRequestDataView {
                    transaction_type: TransactionType::Void,
                    ref_trans_id: item.request.connector_transaction_id@,
                },
            ),
        )
    }
}

/// Where a refund takes its payment details from: the payment method given
/// inline, or else the metadata kept from the payment. Metadata that this
/// connector did not write holds no payment details.
pub open spec fn refund_payment_of(request: RefundsData) -> Result<
    PaymentDetailsView,
    ConnectorErrorView,
> {
    match request.payment_method_data {
        Some(payment_method) => payment_details_of(payment_method),
        None => match request.connector_metadata {
            Some(ConnectorMetadata::Authorizedotnet(details)) => Ok(details@),
            Some(ConnectorMetadata::Other(_)) => Err(
                ConnectorErrorView::MissingRequiredField { field_name: "payment_details"@ },
            ),
            None => Err(
                ConnectorErrorView::MissingRequiredField { field_name: "connector_metadata"@ },
            ),
        },
    }
}

/// The wire request of a refund flow. A refund with neither inline payment
/// details nor metadata fails first, naming the metadata; then the
/// credentials are obtained; then the payment details are mapped or read.
pub open spec fn refund_request_of<F>(item: RefundsRouterData<F>) -> Result<
    CreateTransactionRequestView,
    ConnectorErrorView,
> {
    if item.request.payment_method_data is None && item.request.connector_metadata is None {
        Err(ConnectorErrorView::MissingRequiredField { field_name: "connector_metadata"@ })
    } else {
        match merchant_authentication_of(item.connector_auth_type) {
            Ok(merchant_authentication) => match refund_payment_of(item.request) {
                Ok(payment) => Ok(
                    CreateTransactionRequestView {
                        merchant_authentication,
                        transaction_request: TransactionRequestView::RefundRequest(
                            RefundRequestDataView {
                                transaction_type: TransactionType::Refund,
                                amount: item.request.refund_amount,
                                currency_code: item.request.currency.spec_code(),
                                payment,
                                reference_transaction_id: item.request.connector_transaction_id@,
                            },
                        ),
                    },
                ),
                Err(error) => Err(error),
            },
            Err(error) => Err(error),
        }
    }
}

impl TryFrom<&PaymentsAuthorizeRouterData> for CreateTransactionRequest {
    type Error = ConnectorError;

    /// Builds the wire request of an authorize flow.
    fn try_from(item: &PaymentsAuthorizeRouterData) -> (request: Result<Self, ConnectorError>)
        ensures
            view_result(request) == authorize_request_of(*item),
    {
        let payment = match PaymentDetails::for_payment_method(&item.request.payment_method_data) {
            Ok(payment) => payment,
            Err(error) => {
                return Err(error);
            },
        };
        let transaction_type = if is_auth_only(item.request.capture_method) {
            TransactionType::PaymentAuthOnly
        } else {
            TransactionType::Payment
        };
        let transaction_request = TransactionRequest::AuthRequest(
            PaymentRequestData {
                transaction_type,
                amount: item.request.amount,
                currency_code: item.request.currency.code().to_owned(),
                payment,
            },
        );
        match MerchantAuthentication::try_from(&item.connector_auth_type) {
            Ok(merchant_authentication) => Ok(
                CreateTransactionRequest {
                    create_transaction_request: AuthorizedotnetPaymentsRequest {
                        merchant_authentication,
                        transaction_request,
                    },
                },
            ),
            Err(error) => Err(error),
        }
    }
}

impl TryFrom<&PaymentsCaptureRouterData> for CreateTransactionRequest {
    type Error = ConnectorError;

    /// Builds the wire request of a capture flow.
    fn try_from(item: &PaymentsCaptureRouterData) -> (request: Result<Self, ConnectorError>)
        ensures
            view_result(request) == capture_request_of(*item),
    {
        if item.request.connector_transaction_id.as_str().is_empty() {
            return Err(
                ConnectorError::MissingRequiredField { field_name: "connector_transaction_id" },
            );
        }
        let transaction_request = TransactionRequest::CaptureRequest(
            CaptureRequestData {
                transaction_type: TransactionType::Capture,
                amount: item.request.amount,
                ref_trans_id: item.request.connector_transaction_id.clone(),
            },
        );
        match MerchantAuthentication::try_from(&item.connector_auth_type) {
            Ok(merchant_authentication) => Ok(
                CreateTransactionRequest {
                    create_transaction_request: AuthorizedotnetPaymentsRequest {
                        merchant_authentication,
                        transaction_request,
                    },
                },
            ),
            Err(error) => Err(error),
        }
    }
}

impl TryFrom<&PaymentsCancelRouterData> for CreateTransactionRequest {
    type Error = ConnectorError;

    /// Builds the wire request of a void flow.
    fn try_from(item: &PaymentsCancelRouterData) -> (request: Result<Self, ConnectorError>)
        ensures
            view_result(request) == void_request_of(*item),
    {
        if item.request.connector_transaction_id.as_str().is_empty() {
            return Err(
                ConnectorError::MissingRequiredField { field_name: "connector_transaction_id" },
            );
        }
        let transaction_request = TransactionRequest::VoidRequest(
            VoidRequestData {
                transaction_type: TransactionType::Void,
                ref_trans_id: item.request.connector_transaction_id.clone(),
            },
        );
        match MerchantAuthentication::try_from(&item.connector_auth_type) {
            Ok(merchant_authentication) => Ok(
                CreateTransactionRequest {
                    create_transaction_request: AuthorizedotnetPaymentsRequest {
                        merchant_authentication,
                        transaction_request,
                    },
                },
            ),
            Err(error) => Err(error),
        }
    }
}

impl<F> TryFrom<&RefundsRouterData<F>> for CreateTransactionRequest {
    type Error = ConnectorError;

    /// Builds the wire request of a refund flow.
    fn try_from(item: &RefundsRouterData<F>) -> (request: Result<Self, ConnectorError>)
        ensures
            view_result(request) == refund_request_of(*item),
    {
        if item.request.payment_method_data.is_none() && item.request.connector_metadata.is_none() {
            return Err(ConnectorError::MissingRequiredField { field_name: "connector_metadata" });
        }
        let merchant_authentication = match MerchantAuthentication::try_from(
            &item.connector_auth_type,
        ) {
            Ok(merchant_authentication) => merchant_authentication,
            Err(error) => {
                return Err(error);
            },
        };
        let payment = match &item.request.payment_method_data {
            Some(payment_method) => match PaymentDetails::for_payment_method(payment_method) {
                Ok(payment) => payment,
                Err(error) => {
                    return Err(error);
                },
            },
            None => match &item.request.connector_metadata {
                Some(ConnectorMetadata::Authorizedotnet(details)) => details.clone(),
                _ => {
                    return Err(
                        ConnectorError::MissingRequiredField { field_name: "payment_details" },
                    );
                },
            },
        };
        Ok(
            CreateTransactionRequest {
                create_transaction_request: AuthorizedotnetPaymentsRequest {
                    merchant_authentication,
                    transaction_request: TransactionRequest::RefundRequest(
                        RefundRequestData {
                            transaction_type: TransactionType::Refund,
                            amount: item.request.refund_amount,
                            currency_code: item.request.currency.code().to_owned(),
                            payment,
                            reference_transaction_id: item.request.connector_transaction_id.clone(),
                        },
                    ),
                },
            },
        )
    }
}

impl TryFromSpecImpl<&PaymentsAuthorizeRouterData> for CreateTransactionRequest {
    /// The request holds text that is built anew, which only a view
    /// describes: `try_from` states its result in its own contract.
    open spec fn obeys_try_from_spec() -> bool {
        false
    }

    open spec fn try_from_spec(item: &PaymentsAuthorizeRouterData) -> Result<Self, ConnectorError> {
        arbitrary()
    }
}

impl TryFromSpecImpl<&PaymentsCaptureRouterData> for CreateTransactionRequest {
    /// As for the authorize flow, the contract stands on `try_from` itself.
    open spec fn obeys_try_from_spec() -> bool {
        false
    }

    open spec fn try_from_spec(item: &PaymentsCaptureRouterData) -> Result<Self, ConnectorError> {
        arbitrary()
    }
}

impl TryFromSpecImpl<&PaymentsCancelRouterData> for CreateTransactionRequest {
    /// As for the authorize flow, the contract stands on `try_from` itself.
    open spec fn obeys_try_from_spec() -> bool {
        false
    }

    open spec fn try_from_spec(item: &PaymentsCancelRouterData) -> Result<Self, ConnectorError> {
        arbitrary()
    }
}

impl<F> TryFromSpecImpl<&RefundsRouterData<F>> for CreateTransactionRequest {
    /// As for the authorize flow, the contract stands on `try_from` itself.
    open spec fn obeys_try_from_spec() -> bool {
        false
    }

    open spec fn try_from_spec(item: &RefundsRouterData<F>) -> Result<Self, ConnectorError> {
        arbitrary()
    }
}


/// The connector's verdict on a transaction, as its response code spells it.
#[derive(Clone, Copy, Debug, PartialEq, Eq, Structural)]
pub enum AuthorizedotnetPaymentStatus {
    Approved,
    Declined,
    Error,
    HeldForReview,
}

pub type AuthorizedotnetRefundStatus = AuthorizedotnetPaymentStatus;

impl Default for AuthorizedotnetPaymentStatus {
    /// A response that names no verdict is held for review.
    fn default() -> (status: Self)
        ensures
            status == AuthorizedotnetPaymentStatus::HeldForReview,
    {
        AuthorizedotnetPaymentStatus::HeldForReview
    }
}

impl From<AuthorizedotnetPaymentStatus> for AttemptStatus {
    /// Normalizes the connector's verdict on a payment.
    fn from(item: AuthorizedotnetPaymentStatus) -> (status: Self) {
        match item {
            AuthorizedotnetPaymentStatus::Approved => AttemptStatus::Charged,
            AuthorizedotnetPaymentStatus::Declined | AuthorizedotnetPaymentStatus::Error => {
                AttemptStatus::Failure
            },
            AuthorizedotnetPaymentStatus::HeldForReview => AttemptStatus::Pending,
        }
    }
}

/// The canonical status of the connector's verdict on a payment: an approval
/// is a charge, a decline or an error is a failure, and a transaction held
/// for review is pending.
pub open spec fn attempt_status_of(item: AuthorizedotnetPaymentStatus) -> AttemptStatus {
    match item {
        AuthorizedotnetPaymentStatus::Approved => AttemptStatus::Charged,
        AuthorizedotnetPaymentStatus::Declined => AttemptStatus::Failure,
        AuthorizedotnetPaymentStatus::Error => AttemptStatus::Failure,
        AuthorizedotnetPaymentStatus::HeldForReview => AttemptStatus::Pending,
    }
}

impl FromSpecImpl<AuthorizedotnetPaymentStatus> for AttemptStatus {
    open spec fn obeys_from_spec() -> bool {
        true
    }

    open spec fn from_spec(item: AuthorizedotnetPaymentStatus) -> Self {
        attempt_status_of(item)
    }
}

impl From<AuthorizedotnetPaymentStatus> for RefundStatus {
    /// Normalizes the connector's verdict on a refund.
    fn from(item: AuthorizedotnetRefundStatus) -> (status: Self) {
        match item {
            AuthorizedotnetPaymentStatus::Approved => RefundStatus::Success,
            AuthorizedotnetPaymentStatus::Declined | AuthorizedotnetPaymentStatus::Error => {
                RefundStatus::Failure
            },
            AuthorizedotnetPaymentStatus::HeldForReview => RefundStatus::Pending,
        }
    }
}

/// The canonical status of the connector's verdict on a refund: an approval
/// is a success, a decline or an error is a failure, and a transaction held
/// for review is pending.
pub open spec fn refund_status_of(item: AuthorizedotnetRefundStatus) -> RefundStatus {
    match item {
        AuthorizedotnetPaymentStatus::Approved => RefundStatus::Success,
        AuthorizedotnetPaymentStatus::Declined => RefundStatus::Failure,
        AuthorizedotnetPaymentStatus::Error => RefundStatus::Failure,
        AuthorizedotnetPaymentStatus::HeldForReview => RefundStatus::Pending,
    }
}

impl FromSpecImpl<AuthorizedotnetPaymentStatus> for RefundStatus {
    open spec fn obeys_from_spec() -> bool {
        true
    }

    open spec fn from_spec(item: AuthorizedotnetPaymentStatus) -> Self {
        refund_status_of(item)
    }
}

/// The status of a payment whose normalized verdict is `status`: a charge that
/// was asked for as authorize-only is an authorization; every other status
/// stands as it is.
pub open spec fn payment_status_of(is_auth_only: bool, status: AttemptStatus) -> AttemptStatus {
    if is_auth_only && status is Charged {
        AttemptStatus::Authorized
    } else {
        status
    }
}

/// Tells an authorization from a charge. The connector approves both with
/// one code, so the request's intent decides.
pub fn get_payment_status(is_auth_only: bool, status: AttemptStatus) -> (normalized: AttemptStatus)
    ensures
        normalized == payment_status_of(is_auth_only, status),
{
    let is_authorized = matches!(status, AttemptStatus::Charged);
    if is_auth_only && is_authorized {
        return AttemptStatus::Authorized;
    }
    status
}

/// One message of a response.
#[derive(Clone, Debug, PartialEq, Eq)]
pub struct ResponseMessage {
    pub code: String,
    pub text: String,
}

/// Whether the connector took the request. On the wire the two codes are
/// spelled `Ok` and `Error`.
#[derive(Clone, Copy, Debug, PartialEq, Eq, Structural)]
pub enum ResultCode {
    Okay,
    Error,
}

/// The messages of a response.
#[derive(Clone, Debug, PartialEq, Eq)]
pub struct ResponseMessages {
    pub result_code: ResultCode,
    pub message: Vec<ResponseMessage>,
}

/// One native error entry of a response.
#[derive(Clone, Debug, PartialEq, Eq)]
pub struct ErrorMessage {
    pub error_code: String,
    pub error_text: String,
}

/// What the connector says of one transaction.
#[derive(Clone, Debug, PartialEq, Eq)]
pub struct TransactionResponse {
    pub response_code: AuthorizedotnetPaymentStatus,
    pub auth_code: String,
    pub transaction_id: String,
    pub account_number: Option<String>,
    pub errors: Option<Vec<ErrorMessage>>,
}

/// The wire response of the authorize, capture and void flows.
#[derive(Clone, Debug, PartialEq, Eq)]
pub struct AuthorizedotnetPaymentsResponse {
    pub transaction_response: TransactionResponse,
    pub messages: ResponseMessages,
}

/// The wire response of the refund flow.
#[derive(Clone, Debug, PartialEq, Eq)]
pub struct AuthorizedotnetRefundResponse {
    pub transaction_response: TransactionResponse,
    pub messages: ResponseMessages,
}

impl TransactionResponse {
    /// The first native error entry, where the response lists any.
    pub open spec fn first_error(self) -> Option<ErrorMessage> {
        match self.errors {
            Some(errors) => if errors@.len() > 0 {
                Some(errors@[0])
            } else {
                None
            },
            None => None,
        }
    }

    /// The normalized error of the response: the code and text of its first
    /// native error entry, with the transport status of the call.
    pub open spec fn error_response(self, http_code: u16) -> Option<ErrorResponseView> {
        match self.first_error() {
            Some(error) => Some(
                ErrorResponseView {
                    code: error.error_code@,
                    message: error.error_text@,
                    reason: None,
                    status_code: http_code,
                },
            ),
            None => None,
        }
    }

    /// The metadata that a payment leaves for a later refund: the payment
    /// details rebuilt from the masked account number, where the response
    /// gives one.
    pub open spec fn refund_metadata(self) -> Option<ConnectorMetadataView> {
        match self.account_number {
            Some(account_number) => Some(
                ConnectorMetadataView::Authorizedotnet(refund_payment_details(account_number@)),
            ),
            None => None,
        }
    }

    /// Flattens the native error entries: the first one, if there is any.
    fn normalized_error(&self, http_code: u16) -> (error: Option<ErrorResponse>)
        ensures
            match self.error_response(http_code) {
                Some(expected) => error matches Some(found) && found@ == expected,
                None => error is None,
            },
    {
        match &self.errors {
            Some(errors) => {
                if errors.len() > 0 {
                    Some(
                        ErrorResponse {
                            code: errors[0].error_code.clone(),
                            message: errors[0].error_text.clone(),
                            reason: None,
                            status_code: http_code,
                        },
                    )
                } else {
                    None
                }
            },
            None => None,
        }
    }
}

/// What a payment response comes to: the response of the record, which is the
/// normalized error where the connector lists one and the transaction with
/// its metadata where it lists none. An error without a message, an error
/// beside an approval, and a transaction without an id break the connector's
/// contract.
pub open spec fn payments_response_data_of(response: TransactionResponse, http_code: u16) -> Result<
    Result<PaymentsResponseDataView, ErrorResponseView>,
    ConnectorErrorView,
> {
    match response.error_response(http_code) {
        Some(error) => if error.message.len() == 0 || response.response_code is Approved {
            Err(ConnectorErrorView::ResponseHandlingFailed)
        } else {
            Ok(Err(error))
        },
        None => if response.transaction_id@.len() == 0 {
            Err(ConnectorErrorView::ResponseHandlingFailed)
        } else {
            Ok(
                Ok(
                    PaymentsResponseDataView::TransactionResponse {
                        resource_id: ResponseIdView::ConnectorTransactionId(
                            response.transaction_id@,
                        ),
                        redirection_data: None,
                        redirect: false,
                        mandate_reference: None,
                        connector_metadata: response.refund_metadata(),
                    },
                ),
            )
        },
    }
}

/// The status that a payment response gives a record whose status was
/// `current`: the normalized verdict, told apart by the request's intent, if
/// the record may take it.
pub open spec fn payments_response_status_of(
    response: TransactionResponse,
    is_auth_only: bool,
    current: AttemptStatus,
) -> Option<AttemptStatus> {
    current.spec_advance(
        payment_status_of(is_auth_only, attempt_status_of(response.response_code)),
    )
}

impl<F, T> TryFrom<
    (ResponseRouterData<F, AuthorizedotnetPaymentsResponse, T, PaymentsResponseData>, bool),
> for RouterData<F, T, PaymentsResponseData> {
    type Error = ConnectorError;

    /// Answers the record of an authorize, capture or void flow with the
    /// connector's response. The flag says whether the payment was asked for
    /// as authorize-only.
    fn try_from(
        data: (ResponseRouterData<F, AuthorizedotnetPaymentsResponse, T, PaymentsResponseData>, bool),
    ) -> (record: Result<Self, ConnectorError>)
        ensures
            match (
                payments_response_status_of(
                    data.0.response.transaction_response,
                    data.1,
                    data.0.data.status,
                ),
                payments_response_data_of(data.0.response.transaction_response, data.0.http_code),
            ) {
                (Some(status), Ok(response)) => record matches Ok(answered) && answered.status
                    == status && view_result(answered.response) == response
                    && answered.same_context(data.0.data),
                _ => record matches Err(error) && error@
                    == ConnectorErrorView::ResponseHandlingFailed,
            },
            record matches Ok(answered) ==> has_resource_id(view_result(answered.response))
                != has_error(view_result(answered.response)),
    {
        let (item, is_auth_only) = data;
        let ResponseRouterData { response, data: current, http_code } = item;
        let transaction_response = response.transaction_response;
        let reported = get_payment_status(
            is_auth_only,
            AttemptStatus::from(transaction_response.response_code),
        );
        let status = match current.status.advance(reported) {
            Ok(status) => status,
            Err(error) => {
                return Err(error);
            },
        };
        let answer = match transaction_response.normalized_error(http_code) {
            Some(error) => {
                let approved = matches!(
                    transaction_response.response_code,
                    AuthorizedotnetPaymentStatus::Approved
                );
                if error.message.as_str().is_empty() || approved {
                    return Err(ConnectorError::ResponseHandlingFailed);
                }
                Err(error)
            },
            None => {
                if transaction_response.transaction_id.as_str().is_empty() {
                    return Err(ConnectorError::ResponseHandlingFailed);
                }
                let connector_metadata = match transaction_response.account_number {
                    Some(account_number) => Some(
                        ConnectorMetadata::Authorizedotnet(
                            construct_refund_payment_details(account_number),
                        ),
                    ),
                    None => None,
                };
                Ok(
                    PaymentsResponseData::TransactionResponse {
                        resource_id: ResponseId::ConnectorTransactionId(
                            transaction_response.transaction_id,
                        ),
                        redirection_data: None,
                        redirect: false,
                        mandate_reference: None,
                        connector_metadata,
                    },
                )
            },
        };
        Ok(RouterData { status, response: answer, ..current })
    }
}

impl<F, T> TryFromSpecImpl<
    (ResponseRouterData<F, AuthorizedotnetPaymentsResponse, T, PaymentsResponseData>, bool),
> for RouterData<F, T, PaymentsResponseData> {
    /// The record holds text that is built anew, which only a view describes:
    /// `try_from` states its result in its own contract.
    open spec fn obeys_try_from_spec() -> bool {
        false
    }

    open spec fn try_from_spec(
        data: (ResponseRouterData<F, AuthorizedotnetPaymentsResponse, T, PaymentsResponseData>, bool),
    ) -> Result<Self, ConnectorError> {
        arbitrary()
    }
}

/// Answers the record of an authorize flow with the connector's response.
/// Whether the payment is authorize-only is read off the request that the
/// record holds.
pub fn handle_authorize_response(
    item: ResponseRouterData<
        Authorize,
        AuthorizedotnetPaymentsResponse,
        PaymentsAuthorizeData,
        PaymentsResponseData,
    >,
) -> (record: Result<PaymentsAuthorizeRouterData, ConnectorError>)
    ensures
        match (
            payments_response_status_of(
                item.response.transaction_response,
                spec_is_auth_only(item.data.request.capture_method),
                item.data.status,
            ),
            payments_response_data_of(item.response.transaction_response, item.http_code),
        ) {
            (Some(status), Ok(response)) => record matches Ok(answered) && answered.status
                == status && view_result(answered.response) == response && answered.same_context(
                item.data,
            ),
            _ => record matches Err(error) && error@ == ConnectorErrorView::ResponseHandlingFailed,
        },
{
    let auth_only = is_auth_only(item.data.request.capture_method);
    RouterData::try_from((item, auth_only))
}


/// What a refund response comes to: the normalized error where the connector
/// lists one, and the refund with its normalized status where it lists none.
/// An error without a message, an error beside an approval, and a refund
/// without an id break the connector's contract.
pub open spec fn refunds_response_data_of(response: TransactionResponse, http_code: u16) -> Result<
    Result<RefundsResponseDataView, ErrorResponseView>,
    ConnectorErrorView,
> {
    match response.error_response(http_code) {
        Some(error) => if error.message.len() == 0 || response.response_code is Approved {
            Err(ConnectorErrorView::ResponseHandlingFailed)
        } else {
            Ok(Err(error))
        },
        None => if response.transaction_id@.len() == 0 {
            Err(ConnectorErrorView::ResponseHandlingFailed)
        } else {
            Ok(
                Ok(
                    RefundsResponseDataView {
                        connector_refund_id: response.transaction_id@,
                        refund_status: refund_status_of(response.response_code),
                    },
                ),
            )
        },
    }
}

impl<F> TryFrom<RefundsResponseRouterData<F, AuthorizedotnetRefundResponse>> for RefundsRouterData<F> {
    type Error = ConnectorError;

    /// Answers the record of a refund flow with the connector's response.
    /// The status of the payment attempt stays as it is.
    fn try_from(item: RefundsResponseRouterData<F, AuthorizedotnetRefundResponse>) -> (record: Result<
        Self,
        ConnectorError,
    >)
        ensures
            match refunds_response_data_of(item.response.transaction_response, item.http_code) {
                Ok(response) => record matches Ok(answered) && answered.status == item.data.status
                    && view_result(answered.response) == response && answered.same_context(
                    item.data,
                ),
                Err(error) => record matches Err(found) && found@ == error,
            },
            record matches Ok(answered) ==> has_refund_id(view_result(answered.response))
                != has_error(view_result(answered.response)),
    {
        let ResponseRouterData { response, data: current, http_code } = item;
        let transaction_response = response.transaction_response;
        let refund_status = RefundStatus::from(transaction_response.response_code);
        let answer = match transaction_response.normalized_error(http_code) {
            Some(error) => {
                let approved = matches!(
                    transaction_response.response_code,
                    AuthorizedotnetPaymentStatus::Approved
                );
                if error.message.as_str().is_empty() || approved {
                    return Err(ConnectorError::ResponseHandlingFailed);
                }
                Err(error)
            },
            None => {
                if transaction_response.transaction_id.as_str().is_empty() {
                    return Err(ConnectorError::ResponseHandlingFailed);
                }
                Ok(
                    RefundsResponseData {
                        connector_refund_id: transaction_response.transaction_id,
                        refund_status,
                    },
                )
            },
        };
        Ok(RouterData { response: answer, ..current })
    }
}

impl<F> TryFromSpecImpl<RefundsResponseRouterData<F, AuthorizedotnetRefundResponse>> for RefundsRouterData<F> {
    /// The record holds text that is built anew, which only a view describes:
    /// `try_from` states its result in its own contract.
    open spec fn obeys_try_from_spec() -> bool {
        false
    }

    open spec fn try_from_spec(
        item: RefundsResponseRouterData<F, AuthorizedotnetRefundResponse>,
    ) -> Result<Self, ConnectorError> {
        arbitrary()
    }
}

/// The credentials and the transaction of a status query.
#[derive(Clone, Debug, PartialEq, Eq)]
pub struct TransactionDetails {
    pub merchant_authentication: MerchantAuthentication,
    pub transaction_id: Option<String>,
}

/// The wire request of the status queries.
#[derive(Clone, Debug, PartialEq, Eq)]
pub struct AuthorizedotnetCreateSyncRequest {
    pub get_transaction_details_request: TransactionDetails,
}

/// The mathematical content of an [`AuthorizedotnetCreateSyncRequest`]: the
/// credentials and the transaction it asks about.
pub struct TransactionDetailsView {
    pub merchant_authentication: MerchantAuthenticationView,
    pub transaction_id: Option<Seq<char>>,
}

impl View for TransactionDetails {
    type V = TransactionDetailsView;

    open spec fn view(&self) -> TransactionDetailsView {
        TransactionDetailsView {
            merchant_authentication: self.merchant_authentication@,
            transaction_id: match self.transaction_id {
                Some(id) => Some(id@),
                None => None,
            },
        }
    }
}

impl View for AuthorizedotnetCreateSyncRequest {
    type V = TransactionDetailsView;

    open spec fn view(&self) -> TransactionDetailsView {
        self.get_transaction_details_request@
    }
}

/// The wire request of a refund status query. The refund must have been named
/// by the connector; then the credentials are obtained.
pub open spec fn refund_sync_request_of<F>(item: RefundsRouterData<F>) -> Result<
    TransactionDetailsView,
    ConnectorErrorView,
> {
    match item.request.connector_refund_id {
        Some(refund_id) => match merchant_authentication_of(item.connector_auth_type) {
            Ok(merchant_authentication) => Ok(
                TransactionDetailsView { merchant_authentication, transaction_id: Some(refund_id@) },
            ),
            Err(error) => Err(error),
        },
        None => Err(ConnectorErrorView::MissingConnectorRefundID),
    }
}

/// The transaction that a payment status query asks about: the one that the
/// record's response names. A record that holds an error names none; a
/// response of another kind, or one without a connector transaction id,
/// cannot be handled.
pub open spec fn sync_transaction_id_of(
    response: Result<PaymentsResponseData, ErrorResponse>,
) -> Result<Option<Seq<char>>, ConnectorErrorView> {
    match response {
        Ok(PaymentsResponseData::TransactionResponse { resource_id, .. }) => match resource_id@.connector_transaction_id() {
            Some(id) => Ok(Some(id)),
            None => Err(ConnectorErrorView::ResponseHandlingFailed),
        },
        Ok(_) => Err(ConnectorErrorView::ResponseHandlingFailed),
        Err(_) => Ok(None),
    }
}

/// The wire request of a payment status query. The transaction is looked up
/// first, so its failure comes before that of the credentials.
pub open spec fn payment_sync_request_of(item: PaymentsSyncRouterData) -> Result<
    TransactionDetailsView,
    ConnectorErrorView,
> {
    match sync_transaction_id_of(item.response) {
        Ok(transaction_id) => match merchant_authentication_of(item.connector_auth_type) {
            Ok(merchant_authentication) => Ok(
                TransactionDetailsView { merchant_authentication, transaction_id },
            ),
            Err(error) => Err(error),
        },
        Err(error) => Err(error),
    }
}

impl<F> TryFrom<&RefundsRouterData<F>> for AuthorizedotnetCreateSyncRequest {
    type Error = ConnectorError;

    /// Builds the wire request of a refund status query.
    fn try_from(item: &RefundsRouterData<F>) -> (request: Result<Self, ConnectorError>)
        ensures
            view_result(request) == refund_sync_request_of(*item),
    {
        let transaction_id = match &item.request.connector_refund_id {
            Some(refund_id) => refund_id.clone(),
            None => {
                return Err(ConnectorError::MissingConnectorRefundID);
            },
        };
        match MerchantAuthentication::try_from(&item.connector_auth_type) {
            Ok(merchant_authentication) => Ok(
                AuthorizedotnetCreateSyncRequest {
                    get_transaction_details_request: TransactionDetails {
                        merchant_authentication,
                        transaction_id: Some(transaction_id),
                    },
                },
            ),
            Err(error) => Err(error),
        }
    }
}

impl TryFrom<&PaymentsSyncRouterData> for AuthorizedotnetCreateSyncRequest {
    type Error = ConnectorError;

    /// Builds the wire request of a payment status query.
    fn try_from(item: &PaymentsSyncRouterData) -> (request: Result<Self, ConnectorError>)
        ensures
            view_result(request) == payment_sync_request_of(*item),
    {
        let transaction_id = match &item.response {
            Ok(PaymentsResponseData::TransactionResponse { resource_id, .. }) => {
                match resource_id.get_connector_transaction_id() {
                    Some(id) => Some(id),
                    None => {
                        return Err(ConnectorError::ResponseHandlingFailed);
                    },
                }
            },
            Ok(_) => {
                return Err(ConnectorError::ResponseHandlingFailed);
            },
            Err(_) => None,
        };
        match MerchantAuthentication::try_from(&item.connector_auth_type) {
            Ok(merchant_authentication) => Ok(
                AuthorizedotnetCreateSyncRequest {
                    get_transaction_details_request: TransactionDetails {
                        merchant_authentication,
                        transaction_id,
                    },
                },
            ),
            Err(error) => Err(error),
        }
    }
}

impl<F> TryFromSpecImpl<&RefundsRouterData<F>> for AuthorizedotnetCreateSyncRequest {
    /// The request holds text that is built anew, which only a view
    /// describes: `try_from` states its result in its own contract.
    open spec fn obeys_try_from_spec() -> bool {
        false
    }

    open spec fn try_from_spec(item: &RefundsRouterData<F>) -> Result<Self, ConnectorError> {
        arbitrary()
    }
}

impl TryFromSpecImpl<&PaymentsSyncRouterData> for AuthorizedotnetCreateSyncRequest {
    /// As for the refund query, the contract stands on `try_from` itself.
    open spec fn obeys_try_from_spec() -> bool {
        false
    }

    open spec fn try_from_spec(item: &PaymentsSyncRouterData) -> Result<Self, ConnectorError> {
        arbitrary()
    }
}

/// The state of a transaction as a status query reports it.
#[derive(Clone, Copy, Debug, PartialEq, Eq, Structural)]
pub enum SyncStatus {
    RefundSettledSuccessfully,
    RefundPendingSettlement,
    AuthorizedPendingCapture,
    CapturedPendingSettlement,
    SettledSuccessfully,
    Declined,
    Voided,
    CouldNotVoid,
    GeneralError,
}

/// The transaction of a status query's response.
#[derive(Clone, Debug, PartialEq, Eq)]
pub struct SyncTransactionResponse {
    pub transaction_id: String,
    pub transaction_status: SyncStatus,
}

/// The wire response of the status queries.
#[derive(Clone, Debug, PartialEq, Eq)]
pub struct AuthorizedotnetSyncResponse {
    pub transaction: SyncTransactionResponse,
}

/// The canonical refund status of a reported state. A settled refund is a
/// success and a refund that awaits settlement is pending. The terminal
/// states that tell of no refund (declined, voided, could not void, general
/// error) are failures. Every other state says nothing final of a refund and
/// leaves it pending, so that the query is made again.
pub open spec fn sync_refund_status_of(transaction_status: SyncStatus) -> RefundStatus {
    match transaction_status {
        SyncStatus::RefundSettledSuccessfully => RefundStatus::Success,
        SyncStatus::RefundPendingSettlement => RefundStatus::Pending,
        SyncStatus::AuthorizedPendingCapture => RefundStatus::Pending,
        SyncStatus::CapturedPendingSettlement => RefundStatus::Pending,
        SyncStatus::SettledSuccessfully => RefundStatus::Pending,
        SyncStatus::Declined => RefundStatus::Failure,
        SyncStatus::Voided => RefundStatus::Failure,
        SyncStatus::CouldNotVoid => RefundStatus::Failure,
        SyncStatus::GeneralError => RefundStatus::Failure,
    }
}

/// The canonical attempt status of a reported state. A settled or captured
/// payment is charged; a declined one failed authentication; a void and a
/// failed void are themselves; a general error is a failure. Every other
/// state leaves the attempt pending, so that the query is made again.
pub open spec fn sync_attempt_status_of(transaction_status: SyncStatus) -> AttemptStatus {
    match transaction_status {
        SyncStatus::RefundSettledSuccessfully => AttemptStatus::Pending,
        SyncStatus::RefundPendingSettlement => AttemptStatus::Pending,
        SyncStatus::AuthorizedPendingCapture => AttemptStatus::Pending,
        SyncStatus::CapturedPendingSettlement => AttemptStatus::Charged,
        SyncStatus::SettledSuccessfully => AttemptStatus::Charged,
        SyncStatus::Declined => AttemptStatus::AuthenticationFailed,
        SyncStatus::Voided => AttemptStatus::Voided,
        SyncStatus::CouldNotVoid => AttemptStatus::VoidFailed,
        SyncStatus::GeneralError => AttemptStatus::Failure,
    }
}

impl From<SyncStatus> for RefundStatus {
    /// Normalizes the state that a refund status query reports.
    fn from(transaction_status: SyncStatus) -> (status: Self) {
        match transaction_status {
            SyncStatus::RefundSettledSuccessfully => RefundStatus::Success,
            SyncStatus::RefundPendingSettlement => RefundStatus::Pending,
            SyncStatus::Declined
            | SyncStatus::Voided
            | SyncStatus::CouldNotVoid
            | SyncStatus::GeneralError => RefundStatus::Failure,
            _ => RefundStatus::Pending,
        }
    }
}

impl FromSpecImpl<SyncStatus> for RefundStatus {
    open spec fn obeys_from_spec() -> bool {
        true
    }

    open spec fn from_spec(transaction_status: SyncStatus) -> Self {
        sync_refund_status_of(transaction_status)
    }
}

impl From<SyncStatus> for AttemptStatus {
    /// Normalizes the state that a payment status query reports.
    fn from(transaction_status: SyncStatus) -> (status: Self) {
        match transaction_status {
            SyncStatus::SettledSuccessfully | SyncStatus::CapturedPendingSettlement => {
                AttemptStatus::Charged
            },
            SyncStatus::Declined => AttemptStatus::AuthenticationFailed,
            SyncStatus::Voided => AttemptStatus::Voided,
            SyncStatus::CouldNotVoid => AttemptStatus::VoidFailed,
            SyncStatus::GeneralError => AttemptStatus::Failure,
            _ => AttemptStatus::Pending,
        }
    }
}

impl FromSpecImpl<SyncStatus> for AttemptStatus {
    open spec fn obeys_from_spec() -> bool {
        true
    }

    open spec fn from_spec(transaction_status: SyncStatus) -> Self {
        sync_attempt_status_of(transaction_status)
    }
}

/// The refund status that the record held before the query, where its
/// response is that of a refund.
pub open spec fn known_refund_status(
    response: Result<RefundsResponseData, ErrorResponse>,
) -> Option<RefundStatus> {
    match response {
        Ok(refund) => Some(refund.refund_status),
        Err(_) => None,
    }
}

/// What a refund status query comes to: the refund under the id that the
/// connector reports, with the normalized status. A report without an id
/// breaks the connector's contract, and so does one that would move a refund
/// that the record knows as terminal.
pub open spec fn refund_sync_response_of(
    response: AuthorizedotnetSyncResponse,
    known: Option<RefundStatus>,
) -> Result<RefundsResponseDataView, ConnectorErrorView> {
    let reported = sync_refund_status_of(response.transaction.transaction_status);
    let accepted = match known {
        Some(current) => current.spec_advance(reported),
        None => Some(reported),
    };
    match accepted {
        Some(refund_status) => if response.transaction.transaction_id@.len() == 0 {
            Err(ConnectorErrorView::ResponseHandlingFailed)
        } else {
            Ok(
                RefundsResponseDataView {
                    connector_refund_id: response.transaction.transaction_id@,
                    refund_status,
                },
            )
        },
        None => Err(ConnectorErrorView::ResponseHandlingFailed),
    }
}

impl TryFrom<RefundsResponseRouterData<RSync, AuthorizedotnetSyncResponse>> for RefundsRouterData<RSync> {
    type Error = ConnectorError;

    /// Answers the record of a refund status query with the connector's
    /// report. The status of the payment attempt stays as it is.
    fn try_from(item: RefundsResponseRouterData<RSync, AuthorizedotnetSyncResponse>) -> (record: Result<
        Self,
        ConnectorError,
    >)
        ensures
            match refund_sync_response_of(item.response, known_refund_status(item.data.response)) {
                Ok(refund) => record matches Ok(answered) && answered.status == item.data.status
                    && view_result(answered.response) == Ok::<
                    RefundsResponseDataView,
                    ErrorResponseView,
                >(refund) && answered.same_context(item.data),
                Err(error) => record matches Err(found) && found@ == error,
            },
            record matches Ok(answered) ==> has_refund_id(view_result(answered.response))
                && !has_error(view_result(answered.response)),
    {
        let ResponseRouterData { response, data: current, http_code: _ } = item;
        let reported = RefundStatus::from(response.transaction.transaction_status);
        let refund_status = match &current.response {
            Ok(refund) => match refund.refund_status.advance(reported) {
                Ok(refund_status) => refund_status,
                Err(error) => {
                    return Err(error);
                },
            },
            Err(_) => reported,
        };
        if response.transaction.transaction_id.as_str().is_empty() {
            return Err(ConnectorError::ResponseHandlingFailed);
        }
        Ok(
            RouterData {
                response: Ok(
                    RefundsResponseData {
                        connector_refund_id: response.transaction.transaction_id,
                        refund_status,
                    },
                ),
                ..current
            },
        )
    }
}

impl TryFromSpecImpl<RefundsResponseRouterData<RSync, AuthorizedotnetSyncResponse>> for RefundsRouterData<RSync> {
    /// The record holds text that is built anew, which only a view describes:
    /// `try_from` states its result in its own contract.
    open spec fn obeys_try_from_spec() -> bool {
        false
    }

    open spec fn try_from_spec(
        item: RefundsResponseRouterData<RSync, AuthorizedotnetSyncResponse>,
    ) -> Result<Self, ConnectorError> {
        arbitrary()
    }
}

/// What a payment status query comes to: the normalized status, and the
/// transaction under the id that the connector reports. A report without an
/// id breaks the connector's contract, and so does one that would move an
/// attempt that is terminal.
pub open spec fn payment_sync_response_of(
    response: AuthorizedotnetSyncResponse,
    current: AttemptStatus,
) -> Result<(AttemptStatus, PaymentsResponseDataView), ConnectorErrorView> {
    match current.spec_advance(sync_attempt_status_of(response.transaction.transaction_status)) {
        Some(status) => if response.transaction.transaction_id@.len() == 0 {
            Err(ConnectorErrorView::ResponseHandlingFailed)
        } else {
            Ok(
                (
                    status,
                    PaymentsResponseDataView::TransactionResponse {
                        resource_id: ResponseIdView::ConnectorTransactionId(
                            response.transaction.transaction_id@,
                        ),
                        redirection_data: None,
                        redirect: false,
                        mandate_reference: None,
                        connector_metadata: None,
                    },
                ),
            )
        },
        None => Err(ConnectorErrorView::ResponseHandlingFailed),
    }
}

impl<F, Req> TryFrom<
    ResponseRouterData<F, AuthorizedotnetSyncResponse, Req, PaymentsResponseData>,
> for RouterData<F, Req, PaymentsResponseData> {
    type Error = ConnectorError;

    /// Answers the record of a payment status query with the connector's
    /// report.
    fn try_from(
        item: ResponseRouterData<F, AuthorizedotnetSyncResponse, Req, PaymentsResponseData>,
    ) -> (record: Result<Self, ConnectorError>)
        ensures
            match payment_sync_response_of(item.response, item.data.status) {
                Ok(outcome) => record matches Ok(answered) && answered.status == outcome.0
                    && view_result(answered.response) == Ok::<
                    PaymentsResponseDataView,
                    ErrorResponseView,
                >(outcome.1) && answered.same_context(item.data),
                Err(error) => record matches Err(found) && found@ == error,
            },
            record matches Ok(answered) ==> has_resource_id(view_result(answered.response))
                && !has_error(view_result(answered.response)),
    {
        let ResponseRouterData { response, data: current, http_code: _ } = item;
        let reported = AttemptStatus::from(response.transaction.transaction_status);
        let status = match current.status.advance(reported) {
            Ok(status) => status,
            Err(error) => {
                return Err(error);
            },
        };
        if response.transaction.transaction_id.as_str().is_empty() {
            return Err(ConnectorError::ResponseHandlingFailed);
        }
        Ok(
            RouterData {
                response: Ok(
                    PaymentsResponseData::TransactionResponse {
                        resource_id: ResponseId::ConnectorTransactionId(
                            response.transaction.transaction_id,
                        ),
                        redirection_data: None,
                        redirect: false,
                        mandate_reference: None,
                        connector_metadata: None,
                    },
                ),
                status,
                ..current
            },
        )
    }
}

impl<F, Req> TryFromSpecImpl<
    ResponseRouterData<F, AuthorizedotnetSyncResponse, Req, PaymentsResponseData>,
> for RouterData<F, Req, PaymentsResponseData> {
    /// The record holds text that is built anew, which only a view describes:
    /// `try_from` states its result in its own contract.
    open spec fn obeys_try_from_spec() -> bool {
        false
    }

    open spec fn try_from_spec(
        item: ResponseRouterData<F, AuthorizedotnetSyncResponse, Req, PaymentsResponseData>,
    ) -> Result<Self, ConnectorError> {
        arbitrary()
    }
}

/// The identifier of a webhook, as the connector sends it.
#[derive(Clone, Debug, PartialEq, Eq)]
pub struct AuthorizedotnetWebhookObjectId {
    pub webhook_id: String,
}

/// The event type of a webhook, as the connector sends it.
#[derive(Clone, Debug, PartialEq, Eq)]
pub struct AuthorizedotnetWebhookEventType {
    pub event_type: String,
}

/// The details of an error that the connector reports for a whole call.
#[derive(Clone, Debug, Default, PartialEq, Eq)]
pub struct ErrorDetails {
    pub code: Option<String>,
    pub error_type: Option<String>,
    pub message: Option<String>,
    pub param: Option<String>,
}

/// The wire response of a call that the connector refused.
#[derive(Clone, Debug, Default, PartialEq, Eq)]
pub struct AuthorizedotnetErrorResponse {
    pub error: ErrorDetails,
}


/// The normalized error of a call that the connector refused: its code and
/// its message, with the kind of error as further context. A refusal that
/// names no code or gives no message cannot be normalized.
pub open spec fn refused_call_error_of(response: AuthorizedotnetErrorResponse, http_code: u16) -> Result<
    ErrorResponseView,
    ConnectorErrorView,
> {
    match (response.error.code, response.error.message) {
        (Some(code), Some(message)) => if message@.len() == 0 {
            Err(ConnectorErrorView::ResponseHandlingFailed)
        } else {
            Ok(
                ErrorResponseView {
                    code: code@,
                    message: message@,
                    reason: match response.error.error_type {
                        Some(error_type) => Some(error_type@),
                        None => None,
                    },
                    status_code: http_code,
                },
            )
        },
        _ => Err(ConnectorErrorView::ResponseHandlingFailed),
    }
}

impl TryFrom<(AuthorizedotnetErrorResponse, u16)> for ErrorResponse {
    type Error = ConnectorError;

    /// Normalizes the error of a call that the connector refused. The second
    /// part is the transport status of the call.
    fn try_from(data: (AuthorizedotnetErrorResponse, u16)) -> (error: Result<Self, ConnectorError>)
        ensures
            view_result(error) == refused_call_error_of(data.0, data.1),
    {
        let (response, http_code) = data;
        let details = response.error;
        match (details.code, details.message) {
            (Some(code), Some(message)) => {
                if message.as_str().is_empty() {
                    Err(ConnectorError::ResponseHandlingFailed)
                } else {
                    Ok(
                        ErrorResponse {
                            code,
                            message,
                            reason: details.error_type,
                            status_code: http_code,
                        },
                    )
                }
            },
            _ => Err(ConnectorError::ResponseHandlingFailed),
        }
    }
}

impl TryFromSpecImpl<(AuthorizedotnetErrorResponse, u16)> for ErrorResponse {
    /// The contract stands on `try_from` itself, over views.
    open spec fn obeys_try_from_spec() -> bool {
        false
    }

    open spec fn try_from_spec(data: (AuthorizedotnetErrorResponse, u16)) -> Result<
        Self,
        ConnectorError,
    > {
        arbitrary()
    }
}

/// The mapping of the connector's verdict on a payment is total: each verdict
/// has one canonical status, which is a charge exactly for an approval, a
/// failure exactly for a decline or an error, and pending exactly for a
/// transaction held for review.
pub proof fn lemma_payment_status_mapping_total(native: AuthorizedotnetPaymentStatus)
    ensures
        attempt_status_of(native) is Charged <==> native is Approved,
        attempt_status_of(native) is Failure <==> native is Declined || native is Error,
        attempt_status_of(native) is Pending <==> native is HeldForReview,
        attempt_status_of(native) is Charged || attempt_status_of(native) is Failure
            || attempt_status_of(native) is Pending,
{
}

/// The mapping of the connector's verdict on a refund is total: each verdict
/// has one canonical status, which is a success exactly for an approval, a
/// failure exactly for a decline or an error, and pending exactly for a
/// transaction held for review.
pub proof fn lemma_refund_status_mapping_total(native: AuthorizedotnetRefundStatus)
    ensures
        refund_status_of(native) is Success <==> native is Approved,
        refund_status_of(native) is Failure <==> native is Declined || native is Error,
        refund_status_of(native) is Pending <==> native is HeldForReview,
{
}

/// The mapping of a reported state to an attempt status is total, and only
/// the five states that are final for a payment leave `Pending`.
pub proof fn lemma_sync_attempt_status_mapping_total(reported: SyncStatus)
    ensures
        sync_attempt_status_of(reported) is Charged <==> reported is SettledSuccessfully
            || reported is CapturedPendingSettlement,
        sync_attempt_status_of(reported) is AuthenticationFailed <==> reported is Declined,
        sync_attempt_status_of(reported) is Voided <==> reported is Voided,
        sync_attempt_status_of(reported) is VoidFailed <==> reported is CouldNotVoid,
        sync_attempt_status_of(reported) is Failure <==> reported is GeneralError,
        sync_attempt_status_of(reported) is Pending <==> reported is RefundSettledSuccessfully
            || reported is RefundPendingSettlement || reported is AuthorizedPendingCapture,
        !(sync_attempt_status_of(reported) is Authorized),
{
}

/// The mapping of a reported state to a refund status is total. Only a
/// settled refund is a success, only the four terminal states that tell of no
/// refund are failures, and every other state is pending.
pub proof fn lemma_sync_refund_status_mapping_total(reported: SyncStatus)
    ensures
        sync_refund_status_of(reported) is Success <==> reported is RefundSettledSuccessfully,
        sync_refund_status_of(reported) is Failure <==> reported is Declined || reported is Voided
            || reported is CouldNotVoid || reported is GeneralError,
        sync_refund_status_of(reported) is Pending <==> !(reported is RefundSettledSuccessfully)
            && !(reported is Declined) && !(reported is Voided) && !(reported is CouldNotVoid)
            && !(reported is GeneralError),
{
}

/// An approval is an authorization where the payment was asked for as
/// authorize-only, and a charge where it was not. No other status depends on
/// the request's intent.
pub proof fn lemma_auth_only_disambiguation(is_auth_only: bool, native: AuthorizedotnetPaymentStatus)
    ensures
        native is Approved ==> payment_status_of(true, attempt_status_of(native))
            == AttemptStatus::Authorized,
        native is Approved ==> payment_status_of(false, attempt_status_of(native))
            == AttemptStatus::Charged,
        !(native is Approved) ==> payment_status_of(is_auth_only, attempt_status_of(native))
            == attempt_status_of(native),
{
}

/// No response moves a terminal attempt: where the record's status is
/// terminal, a payment response and a status query either leave it as it is
/// or cannot be handled.
pub proof fn lemma_responses_keep_terminal_status(
    response: TransactionResponse,
    is_auth_only: bool,
    report: AuthorizedotnetSyncResponse,
    current: AttemptStatus,
)
    requires
        current.spec_is_terminal(),
    ensures
        payments_response_status_of(response, is_auth_only, current) matches Some(status)
            ==> status == current,
        payment_sync_response_of(report, current) matches Ok(outcome) ==> outcome.0 == current,
{
}

/// No status query moves a terminal refund: where the record knows the
/// refund as terminal, the query either leaves it as it is or cannot be
/// handled.
pub proof fn lemma_refund_sync_keeps_terminal_status(
    report: AuthorizedotnetSyncResponse,
    known: RefundStatus,
)
    requires
        known.spec_is_terminal(),
    ensures
        refund_sync_response_of(report, Some(known)) matches Ok(refund) ==> refund.refund_status
            == known,
{
}

/// Of every payment response that can be handled, exactly one holds: the
/// record's response names the resource at the connector, or it carries the
/// connector's error. Which of the two is decided by the native error
/// entries alone, and an approval never carries an error.
pub proof fn lemma_payments_response_exclusive(response: TransactionResponse, http_code: u16)
    ensures
        payments_response_data_of(response, http_code) matches Ok(answer) ==> {
            &&& has_resource_id(answer) != has_error(answer)
            &&& has_error(answer) <==> response.first_error() is Some
            &&& has_resource_id(answer) <==> answer is Ok
            &&& has_error(answer) ==> !(response.response_code is Approved)
        },
{
}

/// Of every refund response that can be handled, exactly one holds: the
/// record's response names the refund at the connector, or it carries the
/// connector's error.
pub proof fn lemma_refunds_response_exclusive(response: TransactionResponse, http_code: u16)
    ensures
        refunds_response_data_of(response, http_code) matches Ok(answer) ==> {
            &&& has_refund_id(answer) != has_error(answer)
            &&& has_error(answer) <==> response.first_error() is Some
            &&& has_refund_id(answer) <==> answer is Ok
            &&& has_error(answer) ==> !(response.response_code is Approved)
        },
{
}

/// The metadata that a handled payment response leaves, when the response
/// gave an account number, is enough to build the refund: a refund request
/// that holds this metadata and no inline payment details fails only where
/// the credentials do, and otherwise presents the masked card that the
/// account number stands for.
pub proof fn lemma_refund_from_payment_metadata<F>(
    response: TransactionResponse,
    http_code: u16,
    refund: RefundsRouterData<F>,
)
    requires
        response.account_number is Some,
        payments_response_data_of(response, http_code) matches Ok(Ok(answer)) && (
        answer matches PaymentsResponseDataView::TransactionResponse { connector_metadata, .. }
            && refund.request.connector_metadata matches Some(metadata) && connector_metadata
            == Some(metadata@)),
        refund.request.payment_method_data is None,
    ensures
        refund_request_of(refund) is Ok <==> merchant_authentication_of(
            refund.connector_auth_type,
        ) is Ok,
        refund_request_of(refund) matches Err(error) ==> error
            == ConnectorErrorView::FailedToObtainAuthType,
        refund_request_of(refund) matches Ok(request) ==> request.transaction_request
            == TransactionRequestView::RefundRequest(
            RefundRequestDataView {
                transaction_type: TransactionType::Refund,
                amount: refund.request.refund_amount,
                currency_code: refund.request.currency.spec_code(),
                payment: refund_payment_details(response.account_number->0@),
                reference_transaction_id: refund.request.connector_transaction_id@,
            },
        ),
{
}

/// A refund that has neither inline payment details nor metadata fails, and
/// the failure names the metadata as the missing field, whatever else the
/// record holds.
pub proof fn lemma_refund_without_payment_details<F>(refund: RefundsRouterData<F>)
    requires
        refund.request.payment_method_data is None,
        refund.request.connector_metadata is None,
    ensures
        refund_request_of(refund) == Err::<CreateTransactionRequestView, ConnectorErrorView>(
            ConnectorErrorView::MissingRequiredField { field_name: "connector_metadata"@ },
        ),
        refund_request_of(refund)->Err_0.message() == "Missing required field: "@
            + "connector_metadata"@,
{
}

} // verus!
