use router::connector::authorizedotnet::transformers::{
    get_payment_status, is_auth_only, AuthorizationType, AuthorizedotnetPaymentStatus, SyncStatus,
    TransactionType,
};
use router::enums::{AttemptStatus, CaptureMethod, Currency, RefundStatus};
use router::errors::{ConnectorError, ErrorKind};

#[test]
fn payment_verdicts_map_to_attempt_statuses() {
    assert_eq!(AttemptStatus::from(AuthorizedotnetPaymentStatus::Approved), AttemptStatus::Charged);
    assert_eq!(AttemptStatus::from(AuthorizedotnetPaymentStatus::Declined), AttemptStatus::Failure);
    assert_eq!(AttemptStatus::from(AuthorizedotnetPaymentStatus::Error), AttemptStatus::Failure);
    assert_eq!(
        AttemptStatus::from(AuthorizedotnetPaymentStatus::HeldForReview),
        AttemptStatus::Pending
    );
}

#[test]
fn payment_verdicts_map_to_refund_statuses() {
    assert_eq!(RefundStatus::from(AuthorizedotnetPaymentStatus::Approved), RefundStatus::Success);
    assert_eq!(RefundStatus::from(AuthorizedotnetPaymentStatus::Declined), RefundStatus::Failure);
    assert_eq!(RefundStatus::from(AuthorizedotnetPaymentStatus::Error), RefundStatus::Failure);
    assert_eq!(
        RefundStatus::from(AuthorizedotnetPaymentStatus::HeldForReview),
        RefundStatus::Pending
    );
}

#[test]
fn a_response_without_a_verdict_is_held_for_review() {
    assert_eq!(
        AuthorizedotnetPaymentStatus::default(),
        AuthorizedotnetPaymentStatus::HeldForReview
    );
    assert_eq!(
        AttemptStatus::from(AuthorizedotnetPaymentStatus::default()),
        AttemptStatus::Pending
    );
}

#[test]
fn approved_with_auth_only_is_authorized() {
    let mapped = AttemptStatus::from(AuthorizedotnetPaymentStatus::Approved);
    assert_eq!(get_payment_status(true, mapped), AttemptStatus::Authorized);
}

#[test]
fn approved_without_auth_only_is_charged() {
    let mapped = AttemptStatus::from(AuthorizedotnetPaymentStatus::Approved);
    assert_eq!(get_payment_status(false, mapped), AttemptStatus::Charged);
}

#[test]
fn auth_only_changes_no_other_status() {
    let all = [
        AttemptStatus::Pending,
        AttemptStatus::Authorized,
        AttemptStatus::Failure,
        AttemptStatus::Voided,
        AttemptStatus::VoidFailed,
        AttemptStatus::AuthenticationFailed,
    ];
    for status in all {
        assert_eq!(get_payment_status(true, status), status);
        assert_eq!(get_payment_status(false, status), status);
    }
}

#[test]
fn only_manual_capture_is_auth_only() {
    assert!(is_auth_only(Some(CaptureMethod::Manual)));
    assert!(!is_auth_only(None));
    assert!(!is_auth_only(Some(CaptureMethod::Automatic)));
    assert!(!is_auth_only(Some(CaptureMethod::ManualMultiple)));
    assert!(!is_auth_only(Some(CaptureMethod::Scheduled)));
}

#[test]
fn capture_methods_map_to_authorization_types() {
    assert_eq!(AuthorizationType::from(CaptureMethod::Manual), AuthorizationType::Pre);
    assert_eq!(AuthorizationType::from(CaptureMethod::Automatic), AuthorizationType::Final);
    assert_eq!(AuthorizationType::from(CaptureMethod::ManualMultiple), AuthorizationType::Final);
    assert_eq!(AuthorizationType::from(CaptureMethod::Scheduled), AuthorizationType::Final);
}

#[test]
fn sync_states_map_to_attempt_statuses() {
    assert_eq!(AttemptStatus::from(SyncStatus::SettledSuccessfully), AttemptStatus::Charged);
    assert_eq!(AttemptStatus::from(SyncStatus::CapturedPendingSettlement), AttemptStatus::Charged);
    assert_eq!(AttemptStatus::from(SyncStatus::Declined), AttemptStatus::AuthenticationFailed);
    assert_eq!(AttemptStatus::from(SyncStatus::Voided), AttemptStatus::Voided);
    assert_eq!(AttemptStatus::from(SyncStatus::CouldNotVoid), AttemptStatus::VoidFailed);
    assert_eq!(AttemptStatus::from(SyncStatus::GeneralError), AttemptStatus::Failure);
    assert_eq!(AttemptStatus::from(SyncStatus::RefundSettledSuccessfully), AttemptStatus::Pending);
    assert_eq!(AttemptStatus::from(SyncStatus::RefundPendingSettlement), AttemptStatus::Pending);
    assert_eq!(AttemptStatus::from(SyncStatus::AuthorizedPendingCapture), AttemptStatus::Pending);
}

#[test]
fn sync_states_map_to_refund_statuses() {
    assert_eq!(RefundStatus::from(SyncStatus::RefundSettledSuccessfully), RefundStatus::Success);
    assert_eq!(RefundStatus::from(SyncStatus::RefundPendingSettlement), RefundStatus::Pending);
    assert_eq!(RefundStatus::from(SyncStatus::Declined), RefundStatus::Failure);
    assert_eq!(RefundStatus::from(SyncStatus::Voided), RefundStatus::Failure);
    assert_eq!(RefundStatus::from(SyncStatus::CouldNotVoid), RefundStatus::Failure);
    assert_eq!(RefundStatus::from(SyncStatus::GeneralError), RefundStatus::Failure);
}

#[test]
fn sync_states_that_say_nothing_of_a_refund_leave_it_pending() {
    assert_eq!(RefundStatus::from(SyncStatus::AuthorizedPendingCapture), RefundStatus::Pending);
    assert_eq!(RefundStatus::from(SyncStatus::CapturedPendingSettlement), RefundStatus::Pending);
    assert_eq!(RefundStatus::from(SyncStatus::SettledSuccessfully), RefundStatus::Pending);
}

#[test]
fn attempt_terminal_statuses() {
    assert!(!AttemptStatus::Pending.is_terminal());
    assert!(!AttemptStatus::Authorized.is_terminal());
    assert!(AttemptStatus::Charged.is_terminal());
    assert!(AttemptStatus::Failure.is_terminal());
    assert!(AttemptStatus::Voided.is_terminal());
    assert!(AttemptStatus::VoidFailed.is_terminal());
    assert!(AttemptStatus::AuthenticationFailed.is_terminal());
}

#[test]
fn refund_terminal_statuses() {
    assert!(!RefundStatus::Pending.is_terminal());
    assert!(RefundStatus::Success.is_terminal());
    assert!(RefundStatus::Failure.is_terminal());
}

#[test]
fn a_status_that_is_not_terminal_moves() {
    assert_eq!(AttemptStatus::Pending.advance(AttemptStatus::Charged), Ok(AttemptStatus::Charged));
    assert_eq!(
        AttemptStatus::Authorized.advance(AttemptStatus::Voided),
        Ok(AttemptStatus::Voided)
    );
    assert_eq!(
        AttemptStatus::Authorized.advance(AttemptStatus::Pending),
        Ok(AttemptStatus::Pending)
    );
    assert_eq!(RefundStatus::Pending.advance(RefundStatus::Success), Ok(RefundStatus::Success));
}

#[test]
fn a_terminal_status_stays() {
    assert_eq!(AttemptStatus::Charged.advance(AttemptStatus::Charged), Ok(AttemptStatus::Charged));
    assert_eq!(
        AttemptStatus::Charged.advance(AttemptStatus::Pending),
        Err(ConnectorError::ResponseHandlingFailed)
    );
    assert_eq!(
        AttemptStatus::Failure.advance(AttemptStatus::Charged),
        Err(ConnectorError::ResponseHandlingFailed)
    );
    assert_eq!(RefundStatus::Success.advance(RefundStatus::Success), Ok(RefundStatus::Success));
    assert_eq!(
        RefundStatus::Success.advance(RefundStatus::Pending),
        Err(ConnectorError::ResponseHandlingFailed)
    );
    assert_eq!(
        RefundStatus::Failure.advance(RefundStatus::Success),
        Err(ConnectorError::ResponseHandlingFailed)
    );
}

#[test]
fn an_unanswered_call_leaves_the_attempt_pending() {
    assert_eq!(AttemptStatus::Pending.after_unanswered_call(), AttemptStatus::Pending);
    assert_eq!(AttemptStatus::Authorized.after_unanswered_call(), AttemptStatus::Pending);
    assert_eq!(AttemptStatus::Charged.after_unanswered_call(), AttemptStatus::Charged);
    assert_eq!(AttemptStatus::Voided.after_unanswered_call(), AttemptStatus::Voided);
    assert_eq!(AttemptStatus::Failure.after_unanswered_call(), AttemptStatus::Failure);
}

#[test]
fn transaction_types_have_their_wire_names() {
    assert_eq!(TransactionType::Payment.wire_name(), "authCaptureTransaction");
    assert_eq!(TransactionType::PaymentAuthOnly.wire_name(), "authOnlyTransaction");
    assert_eq!(TransactionType::Capture.wire_name(), "priorAuthCaptureTransaction");
    assert_eq!(TransactionType::Refund.wire_name(), "refundTransaction");
    assert_eq!(TransactionType::Void.wire_name(), "voidTransaction");
}

#[test]
fn currencies_have_their_codes() {
    assert_eq!(Currency::USD.code(), "USD");
    assert_eq!(Currency::EUR.code(), "EUR");
    assert_eq!(Currency::INR.code(), "INR");
    assert_eq!(Currency::JPY.code(), "JPY");
    assert_eq!(Currency::ZAR.code(), "ZAR");
}

#[test]
fn errors_describe_themselves() {
    assert_eq!(
        ConnectorError::FailedToObtainAuthType.message(),
        "Failed to obtain authentication type"
    );
    assert_eq!(
        ConnectorError::MissingRequiredField { field_name: "connector_metadata" }.message(),
        "Missing required field: connector_metadata"
    );
    assert_eq!(
        ConnectorError::NotImplemented("Unknown Wallet in Payment Method".to_string()).message(),
        "Unknown Wallet in Payment Method is not implemented"
    );
    assert_eq!(
        ConnectorError::RequestEncodingFailed.message(),
        "Failed to encode connector request"
    );
    assert_eq!(ConnectorError::MissingConnectorRefundID.message(), "Missing connector refund ID");
    assert_eq!(
        ConnectorError::ResponseHandlingFailed.message(),
        "Failed to handle connector response"
    );
}

#[test]
fn errors_have_their_kinds() {
    assert_eq!(ConnectorError::FailedToObtainAuthType.kind(), ErrorKind::Configuration);
    assert_eq!(ConnectorError::NotImplemented("x".to_string()).kind(), ErrorKind::Configuration);
    assert_eq!(
        ConnectorError::MissingRequiredField { field_name: "token" }.kind(),
        ErrorKind::Validation
    );
    assert_eq!(ConnectorError::RequestEncodingFailed.kind(), ErrorKind::Validation);
    assert_eq!(ConnectorError::MissingConnectorRefundID.kind(), ErrorKind::Validation);
    assert_eq!(ConnectorError::ResponseHandlingFailed.kind(), ErrorKind::NormalizationDefect);
}
