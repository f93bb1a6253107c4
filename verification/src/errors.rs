//! The typed failures of the transformers, and the normalized error record that
//! every connector's native error shape is flattened into.

use vstd::prelude::*;
use vstd::string::*;

verus! {

/// Why a transformer could not build a request or handle a response.
#[derive(Clone, Debug, PartialEq, Eq)]
pub enum ConnectorError {
    /// The credential shape handed over is not the one the connector expects.
    FailedToObtainAuthType,
    /// A field that the requested flow needs is absent.
    MissingRequiredField { field_name: &'static str },
    /// The payment method, or the issuer within it, has no mapping.
    NotImplemented(String),
    /// The request could not be put into the connector's encoding.
    RequestEncodingFailed,
    /// A refund status query was asked for a refund the connector never named.
    MissingConnectorRefundID,
    /// The connector's answer breaks the contract that normalization relies on.
    ResponseHandlingFailed,
}

/// The mathematical content of a [`ConnectorError`].
pub enum ConnectorErrorView {
    FailedToObtainAuthType,
    MissingRequiredField { field_name: Seq<char> },
    NotImplemented(Seq<char>),
    RequestEncodingFailed,
    MissingConnectorRefundID,
    ResponseHandlingFailed,
}

impl View for ConnectorError {
    type V = ConnectorErrorView;

    open spec fn view(&self) -> ConnectorErrorView {
        match *self {
            ConnectorError::FailedToObtainAuthType => ConnectorErrorView::FailedToObtainAuthType,
            ConnectorError::MissingRequiredField { field_name } => ConnectorErrorView::MissingRequiredField {
                field_name: field_name@,
            },
            ConnectorError::NotImplemented(what) => ConnectorErrorView::NotImplemented(what@),
            ConnectorError::RequestEncodingFailed => ConnectorErrorView::RequestEncodingFailed,
            ConnectorError::MissingConnectorRefundID => ConnectorErrorView::MissingConnectorRefundID,
            ConnectorError::ResponseHandlingFailed => ConnectorErrorView::ResponseHandlingFailed,
        }
    }
}

impl ConnectorErrorView {
    /// The text that describes the error to a caller.
    pub open spec fn message(self) -> Seq<char> {
        match self {
            ConnectorErrorView::FailedToObtainAuthType => "Failed to obtain authentication type"@,
            ConnectorErrorView::MissingRequiredField { field_name } => "Missing required field: "@
                + field_name,
            ConnectorErrorView::NotImplemented(what) => what + " is not implemented"@,
            ConnectorErrorView::RequestEncodingFailed => "Failed to encode connector request"@,
            ConnectorErrorView::MissingConnectorRefundID => "Missing connector refund ID"@,
            ConnectorErrorView::ResponseHandlingFailed => "Failed to handle connector response"@,
        }
    }
}

/// The kinds of failure, by which a caller decides what to do next. None of
/// them is mended by sending the same request again.
#[derive(Clone, Copy, Debug, PartialEq, Eq, Structural)]
pub enum ErrorKind {
    /// The merchant's setup does not fit the connector: fail fast.
    Configuration,
    /// The request lacks what the flow needs: report to the caller.
    Validation,
    /// The connector's answer broke its contract: surface as unexpected.
    NormalizationDefect,
}

impl ConnectorErrorView {
    /// The kind of the failure.
    pub open spec fn kind(self) -> ErrorKind {
        match self {
            ConnectorErrorView::FailedToObtainAuthType => ErrorKind::Configuration,
            ConnectorErrorView::NotImplemented(_) => ErrorKind::Configuration,
            ConnectorErrorView::MissingRequiredField { .. } => ErrorKind::Validation,
            ConnectorErrorView::RequestEncodingFailed => ErrorKind::Validation,
            ConnectorErrorView::MissingConnectorRefundID => ErrorKind::Validation,
            ConnectorErrorView::ResponseHandlingFailed => ErrorKind::NormalizationDefect,
        }
    }
}

impl ConnectorError {
    /// The kind of the failure: a wrong credential shape and an unsupported
    /// payment method are configuration errors, a missing field is a
    /// validation error, and an answer that cannot be handled is a defect of
    /// normalization.
    pub fn kind(&self) -> (kind: ErrorKind)
        ensures
            kind == self@.kind(),
    {
        match self {
            ConnectorError::FailedToObtainAuthType => ErrorKind::Configuration,
            ConnectorError::NotImplemented(_) => ErrorKind::Configuration,
            ConnectorError::MissingRequiredField { .. } => ErrorKind::Validation,
            ConnectorError::RequestEncodingFailed => ErrorKind::Validation,
            ConnectorError::MissingConnectorRefundID => ErrorKind::Validation,
            ConnectorError::ResponseHandlingFailed => ErrorKind::NormalizationDefect,
        }
    }

    /// The text that describes the error to a caller. It names the missing
    /// field or the unsupported method where the error carries one.
    pub fn message(&self) -> (text: String)
        ensures
            text@ == self@.message(),
    {
        match self {
            ConnectorError::FailedToObtainAuthType => "Failed to obtain authentication type".to_owned(),
            ConnectorError::MissingRequiredField { field_name } => {
                let mut text = "Missing required field: ".to_owned();
                text.append(field_name);
                text
            },
            ConnectorError::NotImplemented(what) => {
                let mut text = what.clone();
                text.append(" is not implemented");
                text
            },
            ConnectorError::RequestEncodingFailed => "Failed to encode connector request".to_owned(),
            ConnectorError::MissingConnectorRefundID => "Missing connector refund ID".to_owned(),
            ConnectorError::ResponseHandlingFailed => "Failed to handle connector response".to_owned(),
        }
    }
}

/// The normalized error record: the connector's own code and text, and the
/// transport status of the call that carried them.
#[derive(Clone, Debug, PartialEq, Eq)]
pub struct ErrorResponse {
    pub code: String,
    pub message: String,
    pub reason: Option<String>,
    pub status_code: u16,
}

/// The mathematical content of an [`ErrorResponse`].
pub struct ErrorResponseView {
    pub code: Seq<char>,
    pub message: Seq<char>,
    pub reason: Option<Seq<char>>,
    pub status_code: u16,
}

impl View for ErrorResponse {
    type V = ErrorResponseView;

    open spec fn view(&self) -> ErrorResponseView {
        ErrorResponseView {
            code: self.code@,
            message: self.message@,
            reason: match self.reason {
                Some(reason) => Some(reason@),
                None => None,
            },
            status_code: self.status_code,
        }
    }
}

/// The view of a fallible result: the view of whichever side it holds.
pub open spec fn view_result<T: View, E: View>(r: Result<T, E>) -> Result<T::V, E::V> {
    match r {
        Ok(value) => Ok(value@),
        Err(error) => Err(error@),
    }
}

} // verus!
