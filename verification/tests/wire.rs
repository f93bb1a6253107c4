use router::connector::authorizedotnet::wire::{write_object, JsonMember};
use router::connector::authorizedotnet::transformers::{
    AuthorizedotnetCreateSyncRequest, AuthorizedotnetPaymentsRequest, BankAccountDetails,
    CaptureRequestData, CreateTransactionRequest, CreditCardDetails, MerchantAuthentication,
    PaymentDetails, PaymentRequestData, RefundRequestData, TransactionDetails, TransactionRequest,
    TransactionType, VoidRequestData, WalletDetails,
};

fn wire_merchant() -> MerchantAuthentication {
    MerchantAuthentication { name: "login-id".to_string(), transaction_key: "txn-key".to_string() }
}

fn wire_request(transaction_request: TransactionRequest) -> CreateTransactionRequest {
    CreateTransactionRequest {
        create_transaction_request: AuthorizedotnetPaymentsRequest {
            merchant_authentication: wire_merchant(),
            transaction_request,
        },
    }
}

fn wire_card(card_code: Option<String>) -> PaymentDetails {
    PaymentDetails::CreditCard(CreditCardDetails {
        card_number: "4111111111111111".to_string(),
        expiration_date: "2025-12".to_string(),
        card_code,
    })
}

#[test]
fn an_authorize_request_is_written_member_by_member() {
    let request = wire_request(TransactionRequest::AuthRequest(PaymentRequestData {
        transaction_type: TransactionType::PaymentAuthOnly,
        amount: 1000,
        currency_code: "USD".to_string(),
        payment: wire_card(Some("123".to_string())),
    }));
    assert_eq!(
        request.to_json().unwrap(),
        "{\"createTransactionRequest\":{\"merchantAuthentication\":{\"name\":\"login-id\",\
         \"transactionKey\":\"txn-key\"},\"transactionRequest\":{\"transactionType\":\
         \"authOnlyTransaction\",\"amount\":1000,\"currencyCode\":\"USD\",\"payment\":\
         {\"creditCard\":{\"cardNumber\":\"4111111111111111\",\"expirationDate\":\"2025-12\",\
         \"cardCode\":\"123\"}}}}}"
    );
}

#[test]
fn a_capture_request_is_written_member_by_member() {
    let request = wire_request(TransactionRequest::CaptureRequest(CaptureRequestData {
        transaction_type: TransactionType::Capture,
        amount: -5,
        ref_trans_id: "60123".to_string(),
    }));
    assert_eq!(
        request.to_json().unwrap(),
        "{\"createTransactionRequest\":{\"merchantAuthentication\":{\"name\":\"login-id\",\
         \"transactionKey\":\"txn-key\"},\"transactionRequest\":{\"transactionType\":\
         \"priorAuthCaptureTransaction\",\"amount\":-5,\"refTransId\":\"60123\"}}}"
    );
}

#[test]
fn a_void_request_is_written_member_by_member() {
    let request = wire_request(TransactionRequest::VoidRequest(VoidRequestData {
        transaction_type: TransactionType::Void,
        ref_trans_id: "60123".to_string(),
    }));
    assert_eq!(
        request.to_json().unwrap(),
        "{\"createTransactionRequest\":{\"merchantAuthentication\":{\"name\":\"login-id\",\
         \"transactionKey\":\"txn-key\"},\"transactionRequest\":{\"transactionType\":\
         \"voidTransaction\",\"refTransId\":\"60123\"}}}"
    );
}

#[test]
fn a_refund_request_is_written_member_by_member() {
    let request = wire_request(TransactionRequest::RefundRequest(RefundRequestData {
        transaction_type: TransactionType::Refund,
        amount: 250,
        currency_code: "EUR".to_string(),
        payment: PaymentDetails::CreditCard(CreditCardDetails {
            card_number: "XXXX1111".to_string(),
            expiration_date: "XXXX".to_string(),
            card_code: None,
        }),
        reference_transaction_id: "60123".to_string(),
    }));
    assert_eq!(
        request.to_json().unwrap(),
        "{\"createTransactionRequest\":{\"merchantAuthentication\":{\"name\":\"login-id\",\
         \"transactionKey\":\"txn-key\"},\"transactionRequest\":{\"transactionType\":\
         \"refundTransaction\",\"amount\":250,\"currencyCode\":\"EUR\",\"payment\":\
         {\"creditCard\":{\"cardNumber\":\"XXXX1111\",\"expirationDate\":\"XXXX\"}},\
         \"refTransId\":\"60123\"}}}"
    );
}

#[test]
fn payment_details_are_written_under_the_name_of_their_kind() {
    assert_eq!(
        wire_card(None).to_json().unwrap(),
        "{\"creditCard\":{\"cardNumber\":\"4111111111111111\",\"expirationDate\":\"2025-12\"}}"
    );
    assert_eq!(
        PaymentDetails::BankAccount(BankAccountDetails { account_number: "XXXXX".to_string() })
            .to_json()
            .unwrap(),
        "{\"bankAccount\":{\"accountNumber\":\"XXXXX\"}}"
    );
    assert_eq!(
        PaymentDetails::Wallet(WalletDetails {
            data_descriptor: "COMMON.GOOGLE.INAPP.PAYMENT".to_string(),
            data_value: "YWJj".to_string(),
        })
        .to_json()
        .unwrap(),
        "{\"opaqueData\":{\"dataDescriptor\":\"COMMON.GOOGLE.INAPP.PAYMENT\",\"dataValue\":\"YWJj\"}}"
    );
    assert_eq!(PaymentDetails::Klarna.to_json().unwrap(), "\"Klarna\"");
    assert_eq!(PaymentDetails::Paypal.to_json().unwrap(), "\"Paypal\"");
}

#[test]
fn text_is_escaped_as_json_asks() {
    let details = PaymentDetails::BankAccount(BankAccountDetails {
        account_number: "a\"b\\c\nd".to_string(),
    });
    assert_eq!(
        details.to_json().unwrap(),
        "{\"bankAccount\":{\"accountNumber\":\"a\\\"b\\\\c\\nd\"}}"
    );
}

#[test]
fn the_wire_form_reads_back_as_the_same_document() {
    let request = wire_request(TransactionRequest::AuthRequest(PaymentRequestData {
        transaction_type: TransactionType::Payment,
        amount: 9223372036854775807,
        currency_code: "USD".to_string(),
        payment: wire_card(Some("0\u{7f}\u{1}".to_string())),
    }));
    let text = request.to_json().unwrap();
    let document = serde_json::from_str::<serde_json::Value>(&text).unwrap();
    let transaction = &document["createTransactionRequest"]["transactionRequest"];
    assert_eq!(transaction["transactionType"].as_str(), Some("authCaptureTransaction"));
    assert_eq!(transaction["amount"].as_i64(), Some(9223372036854775807));
    assert_eq!(
        transaction["payment"]["creditCard"]["cardCode"].as_str(),
        Some("0\u{7f}\u{1}")
    );
    assert_eq!(
        document["createTransactionRequest"]["merchantAuthentication"]["name"].as_str(),
        Some("login-id")
    );
}

#[test]
fn a_status_query_is_written_member_by_member() {
    let query = AuthorizedotnetCreateSyncRequest {
        get_transaction_details_request: TransactionDetails {
            merchant_authentication: wire_merchant(),
            transaction_id: Some("60123".to_string()),
        },
    };
    assert_eq!(
        query.to_json().unwrap(),
        "{\"getTransactionDetailsRequest\":{\"merchantAuthentication\":{\"name\":\"login-id\",\
         \"transactionKey\":\"txn-key\"},\"transId\":\"60123\"}}"
    );
}

#[test]
fn a_status_query_without_a_transaction_asks_about_null() {
    let query = AuthorizedotnetCreateSyncRequest {
        get_transaction_details_request: TransactionDetails {
            merchant_authentication: wire_merchant(),
            transaction_id: None,
        },
    };
    assert_eq!(
        query.to_json().unwrap(),
        "{\"getTransactionDetailsRequest\":{\"merchantAuthentication\":{\"name\":\"login-id\",\
         \"transactionKey\":\"txn-key\"},\"transId\":null}}"
    );
}

#[test]
fn an_object_without_members_is_a_pair_of_braces() {
    assert_eq!(write_object(&Vec::new()), "{}");
}

#[test]
fn an_object_lists_its_members_in_the_order_given() {
    let members = vec![
        JsonMember { name: "zeta", value: "1".to_string() },
        JsonMember { name: "alpha", value: "\"two\"".to_string() },
        JsonMember { name: "mid", value: "{\"inner\":null}".to_string() },
    ];
    assert_eq!(write_object(&members), "{\"zeta\":1,\"alpha\":\"two\",\"mid\":{\"inner\":null}}");
    let one = vec![JsonMember { name: "only", value: "true".to_string() }];
    assert_eq!(write_object(&one), "{\"only\":true}");
}
