//! The canonical model: the flow-parameterized transaction record that the
//! switch and every connector exchange, with its requests and responses.

pub mod api;

use vstd::prelude::*;
use std::marker::PhantomData;
use crate::connector::authorizedotnet::transformers::{PaymentDetails, PaymentDetailsView};
use crate::enums::{AttemptStatus, CaptureMethod, Currency, RefundStatus};
use crate::errors::{ErrorResponse, ErrorResponseView};
use crate::types::api::{Authorize, Capture, PSync, PaymentMethod, Void};

verus! {

/// The credential shapes a merchant can configure for a connector. Each
/// connector accepts one of them and refuses the others.
#[derive(Clone, Debug, PartialEq, Eq)]
pub enum ConnectorAuthType {
    HeaderKey { api_key: String },
    BodyKey { api_key: String, key1: String },
    SignatureKey { api_key: String, key1: String, api_secret: String },
    NoKey,
}

/// Data that a connector's transformer wrote while handling one flow, for its
/// own use in a later flow. The payload is tagged with the connector that
/// wrote it; only that connector's transformer reads it.
#[derive(Debug, PartialEq, Eq)]
pub enum ConnectorMetadata {
    /// Written by the Authorize.Net transformer: the payment details that a
    /// later refund presents.
    Authorizedotnet(PaymentDetails),
    /// Anything else, in its encoded form.
    Other(String),
}

/// The mathematical content of a [`ConnectorMetadata`].
pub enum ConnectorMetadataView {
    Authorizedotnet(PaymentDetailsView),
    Other(Seq<char>),
}

impl View for ConnectorMetadata {
    type V = ConnectorMetadataView;

    open spec fn view(&self) -> ConnectorMetadataView {
        match *self {
            ConnectorMetadata::Authorizedotnet(details) => ConnectorMetadataView::Authorizedotnet(
                details@,
            ),
            ConnectorMetadata::Other(encoded) => ConnectorMetadataView::Other(encoded@),
        }
    }
}

impl Clone for ConnectorMetadata {
    fn clone(&self) -> (copy: Self)
        ensures
            copy@ == self@,
    {
        match self {
            ConnectorMetadata::Authorizedotnet(details) => ConnectorMetadata::Authorizedotnet(
                details.clone(),
            ),
            ConnectorMetadata::Other(encoded) => ConnectorMetadata::Other(encoded.clone()),
        }
    }
}

/// The identifier under which the connector knows a resource.
#[derive(Clone, Debug, PartialEq, Eq)]
pub enum ResponseId {
    ConnectorTransactionId(String),
    EncodedData(String),
    NoResponseId,
}

/// The mathematical content of a [`ResponseId`].
pub enum ResponseIdView {
    ConnectorTransactionId(Seq<char>),
    EncodedData(Seq<char>),
    NoResponseId,
}

impl View for ResponseId {
    type V = ResponseIdView;

    open spec fn view(&self) -> ResponseIdView {
        match *self {
            ResponseId::ConnectorTransactionId(id) => ResponseIdView::ConnectorTransactionId(id@),
            ResponseId::EncodedData(data) => ResponseIdView::EncodedData(data@),
            ResponseId::NoResponseId => ResponseIdView::NoResponseId,
        }
    }
}

impl ResponseIdView {
    /// The connector's transaction id, where the identifier is one.
    pub open spec fn connector_transaction_id(self) -> Option<Seq<char>> {
        match self {
            ResponseIdView::ConnectorTransactionId(id) => Some(id),
            _ => None,
        }
    }
}

impl ResponseId {
    /// The connector's transaction id, where the identifier is one.
    pub fn get_connector_transaction_id(&self) -> (id: Option<String>)
        ensures
            match self@.connector_transaction_id() {
                Some(text) => id matches Some(found) && found@ == text,
                None => id is None,
            },
    {
        match self {
            ResponseId::ConnectorTransactionId(id) => Some(id.clone()),
            _ => None,
        }
    }
}

/// How a redirection is to be submitted.
#[derive(Clone, Copy, Debug, PartialEq, Eq, Structural)]
pub enum Method {
    Get,
    Post,
}

/// Where the payer has to be sent to complete a payment.
#[derive(Clone, Debug, PartialEq, Eq)]
pub struct RedirectForm {
    pub url: String,
    pub method: Method,
}

/// The mathematical content of a [`RedirectForm`].
pub struct RedirectFormView {
    pub url: Seq<char>,
    pub method: Method,
}

impl View for RedirectForm {
    type V = RedirectFormView;

    open spec fn view(&self) -> RedirectFormView {
        RedirectFormView { url: self.url@, method: self.method }
    }
}

/// What a payment flow answers on success.
#[derive(Clone, Debug, PartialEq, Eq)]
pub enum PaymentsResponseData {
    TransactionResponse {
        resource_id: ResponseId,
        redirection_data: Option<RedirectForm>,
        redirect: bool,
        mandate_reference: Option<String>,
        connector_metadata: Option<ConnectorMetadata>,
    },
    SessionResponse { session_token: String },
}

/// The mathematical content of a [`PaymentsResponseData`].
pub enum PaymentsResponseDataView {
    TransactionResponse {
        resource_id: ResponseIdView,
        redirection_data: Option<RedirectFormView>,
        redirect: bool,
        mandate_reference: Option<Seq<char>>,
        connector_metadata: Option<ConnectorMetadataView>,
    },
    SessionResponse { session_token: Seq<char> },
}

impl View for PaymentsResponseData {
    type V = PaymentsResponseDataView;

    open spec fn view(&self) -> PaymentsResponseDataView {
        match *self {
            PaymentsResponseData::TransactionResponse {
                resource_id,
                redirection_data,
                redirect,
                mandate_reference,
                connector_metadata,
            } => PaymentsResponseDataView::TransactionResponse {
                resource_id: resource_id@,
                redirection_data: match redirection_data {
                    Some(form) => Some(form@),
                    None => None,
                },
                redirect,
                mandate_reference: match mandate_reference {
                    Some(reference) => Some(reference@),
                    None => None,
                },
                connector_metadata: match connector_metadata {
                    Some(metadata) => Some(metadata@),
                    None => None,
                },
            },
            PaymentsResponseData::SessionResponse { session_token } => {
                PaymentsResponseDataView::SessionResponse { session_token: session_token@ }
            },
        }
    }
}

/// What a refund flow answers on success.
#[derive(Clone, Debug, PartialEq, Eq)]
pub struct RefundsResponseData {
    pub connector_refund_id: String,
    pub refund_status: RefundStatus,
}

/// The mathematical content of a [`RefundsResponseData`].
pub struct RefundsResponseDataView {
    pub connector_refund_id: Seq<char>,
    pub refund_status: RefundStatus,
}

impl View for RefundsResponseData {
    type V = RefundsResponseDataView;

    open spec fn view(&self) -> RefundsResponseDataView {
        RefundsResponseDataView {
            connector_refund_id: self.connector_refund_id@,
            refund_status: self.refund_status,
        }
    }
}

/// The request of the authorize flow.
#[derive(Clone, Debug, PartialEq, Eq)]
pub struct PaymentsAuthorizeData {
    pub payment_method_data: PaymentMethod,
    pub amount: i64,
    pub currency: Currency,
    pub capture_method: Option<CaptureMethod>,
}

/// The request of the capture flow.
#[derive(Clone, Debug, PartialEq, Eq)]
pub struct PaymentsCaptureData {
    pub amount: i64,
    pub connector_transaction_id: String,
}

/// The request of the void flow.
#[derive(Clone, Debug, PartialEq, Eq)]
pub struct PaymentsCancelData {
    pub connector_transaction_id: String,
    pub cancellation_reason: Option<String>,
}

/// The request of the payment status query.
#[derive(Clone, Debug, PartialEq, Eq)]
pub struct PaymentsSyncData {
    pub connector_transaction_id: ResponseId,
    pub encoded_data: Option<String>,
}

/// The request of the refund flows. A refund presents payment details again:
/// those given inline, or else those that the connector's transformer kept as
/// metadata when the payment was made.
#[derive(Clone, Debug, PartialEq, Eq)]
pub struct RefundsData {
    pub refund_id: String,
    pub connector_transaction_id: String,
    pub connector_refund_id: Option<String>,
    pub currency: Currency,
    pub refund_amount: i64,
    pub payment_method_data: Option<PaymentMethod>,
    pub connector_metadata: Option<ConnectorMetadata>,
}

/// The canonical transaction record of one operation: built once from stored
/// state and the caller's request, answered once by a transformer.
#[derive(Debug, PartialEq, Eq)]
pub struct RouterData<Flow, Request, Response> {
    pub flow: PhantomData<Flow>,
    pub merchant_id: String,
    pub payment_id: String,
    pub status: AttemptStatus,
    pub connector_auth_type: ConnectorAuthType,
    pub request: Request,
    pub response: Result<Response, ErrorResponse>,
}

/// A connector's parsed wire response, with the record it answers and the
/// transport status of the call that carried it.
#[derive(Debug, PartialEq, Eq)]
pub struct ResponseRouterData<Flow, R, Request, Response> {
    pub response: R,
    pub data: RouterData<Flow, Request, Response>,
    pub http_code: u16,
}

pub type PaymentsAuthorizeRouterData = RouterData<Authorize, PaymentsAuthorizeData, PaymentsResponseData>;

pub type PaymentsCaptureRouterData = RouterData<Capture, PaymentsCaptureData, PaymentsResponseData>;

pub type PaymentsCancelRouterData = RouterData<Void, PaymentsCancelData, PaymentsResponseData>;

pub type PaymentsSyncRouterData = RouterData<PSync, PaymentsSyncData, PaymentsResponseData>;

pub type RefundsRouterData<F> = RouterData<F, RefundsData, RefundsResponseData>;

pub type RefundsResponseRouterData<F, R> = ResponseRouterData<F, R, RefundsData, RefundsResponseData>;

impl<Flow, Request, Response> RouterData<Flow, Request, Response> {
    /// Everything but the status and the response is the same in both
    /// records: a transformer answers a record, it does not rewrite it.
    pub open spec fn same_context(self, other: Self) -> bool {
        &&& self.flow == other.flow
        &&& self.merchant_id == other.merchant_id
        &&& self.payment_id == other.payment_id
        &&& self.connector_auth_type == other.connector_auth_type
        &&& self.request == other.request
    }
}

/// A successful payment response names the resource at the connector: it
/// holds a connector transaction id that is not empty.
pub open spec fn has_resource_id(response: Result<PaymentsResponseDataView, ErrorResponseView>) -> bool {
    response matches Ok(data) && data matches PaymentsResponseDataView::TransactionResponse {
        resource_id,
        ..
    } && resource_id matches ResponseIdView::ConnectorTransactionId(id) && id.len() > 0
}

/// A successful refund response names the refund at the connector.
pub open spec fn has_refund_id(response: Result<RefundsResponseDataView, ErrorResponseView>) -> bool {
    response matches Ok(data) && data.connector_refund_id.len() > 0
}

/// A failed response carries the connector's error, with its message.
pub open spec fn has_error<T>(response: Result<T, ErrorResponseView>) -> bool {
    response matches Err(error) && error.message.len() > 0
}

} // verus!
