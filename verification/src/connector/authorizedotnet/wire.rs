//! The wire form of the requests: the JSON text that the connector reads. The
//! connector takes the members of an object in the order of its
//! documentation, so each request lists its members in that order and the
//! text is written from the list.

use vstd::prelude::*;
use vstd::string::*;
use crate::connector::authorizedotnet::transformers::{
    AuthorizedotnetCreateSyncRequest, AuthorizedotnetPaymentsRequest, BankAccountDetails,
    BankAccountDetailsView, CaptureRequestData, CaptureRequestDataView, CreateTransactionRequest,
    CreateTransactionRequestView, CreditCardDetails, CreditCardDetailsView, MerchantAuthentication,
    MerchantAuthenticationView, PaymentDetails, PaymentDetailsView, PaymentRequestData,
    PaymentRequestDataView, RefundRequestData, RefundRequestDataView, TransactionDetails,
    TransactionDetailsView, TransactionRequest, TransactionRequestView, TransactionType,
    VoidRequestData, VoidRequestDataView, WalletDetails, WalletDetailsView,
};
use crate::encoding::{encode_json_integer, encode_json_string, json_integer, json_string};
use crate::errors::ConnectorError;

verus! {

/// One member of a JSON object: its name, as it stands between the quotes,
/// and its value, already in JSON.
#[derive(Clone, Debug, PartialEq, Eq)]
pub struct JsonMember {
    pub name: &'static str,
    pub value: String,
}

/// The members of an object as mathematical pairs of name and value.
pub open spec fn members_view(members: Seq<JsonMember>) -> Seq<(Seq<char>, Seq<char>)> {
    members.map_values(|member: JsonMember| (member.name@, member.value@))
}

/// The members of an object in JSON: each name in quotes, a colon, the value;
/// a comma between one member and the next.
pub open spec fn members_json(members: Seq<(Seq<char>, Seq<char>)>) -> Seq<char>
    decreases members.len(),
{
    if members.len() == 0 {
        Seq::empty()
    } else {
        let separator = if members.len() == 1 {
            Seq::<char>::empty()
        } else {
            ","@
        };
        members_json(members.drop_last()) + separator + "\""@ + members.last().0 + "\":"@
            + members.last().1
    }
}

/// A JSON object: its members, in their order, between braces.
pub open spec fn object_json(members: Seq<(Seq<char>, Seq<char>)>) -> Seq<char> {
    "{"@ + members_json(members) + "}"@
}

/// Writes a JSON object from its members, in the order in which they are
/// given. A name is written as it is, so it must hold nothing that JSON
/// escapes for the text to be JSON; the text is the same either way.
pub fn write_object(members: &Vec<JsonMember>) -> (text: String)
    ensures
        text@ == object_json(members_view(members@)),
{
    let ghost pairs = members_view(members@);
    let mut text = "{".to_owned();
    let mut at: usize = 0;
    while at < members.len()
        invariant
            at <= members.len(),
            pairs == members_view(members@),
            text@ == "{"@ + members_json(pairs.take(at as int)),
        decreases members.len() - at,
    {
        if at > 0 {
            text.append(",");
        }
        text.append("\"");
        text.append(members[at].name);
        text.append("\":");
        text.append(members[at].value.as_str());
        assert(pairs.take(at + 1).drop_last() == pairs.take(at as int));
        at += 1;
    }
    assert(pairs.take(at as int) == pairs);
    text.append("}");
    text
}

/// The JSON string literal of a text.
fn quoted(text: &str) -> (json: Result<String, ConnectorError>)
    ensures
        json matches Ok(literal) && literal@ == json_string(text@),
{
    match encode_json_string(text) {
        Ok(literal) => Ok(literal),
        Err(_) => Err(ConnectorError::RequestEncodingFailed),
    }
}

/// The JSON number of an amount.
fn number(amount: i64) -> (json: Result<String, ConnectorError>)
    ensures
        json matches Ok(literal) && literal@ == json_integer(amount),
{
    match encode_json_integer(amount) {
        Ok(literal) => Ok(literal),
        Err(_) => Err(ConnectorError::RequestEncodingFailed),
    }
}

impl TransactionType {
    /// The transaction type as a JSON string literal: its wire name between
    /// quotes. A wire name holds nothing that JSON escapes.
    pub open spec fn json(self) -> Seq<char> {
        "\""@ + self.spec_wire_name() + "\""@
    }

    fn to_json(self) -> (json: String)
        ensures
            json@ == self.json(),
    {
        let mut json = "\"".to_owned();
        json.append(self.wire_name());
        json.append("\"");
        json
    }
}

impl MerchantAuthenticationView {
    /// The credentials on the wire: the name, then the transaction key.
    pub open spec fn members(self) -> Seq<(Seq<char>, Seq<char>)> {
        seq![
            ("name"@, json_string(self.name)),
            ("transactionKey"@, json_string(self.transaction_key)),
        ]
    }

    pub open spec fn json(self) -> Seq<char> {
        object_json(self.members())
    }
}

impl MerchantAuthentication {
    fn to_json(&self) -> (json: Result<String, ConnectorError>)
        ensures
            json matches Ok(text) && text@ == self@.json(),
    {
        let mut members: Vec<JsonMember> = Vec::new();
        members.push(JsonMember { name: "name", value: quoted(self.name.as_str())? });
        members.push(
            JsonMember { name: "transactionKey", value: quoted(self.transaction_key.as_str())? },
        );
        assert(members_view(members@) == self@.members());
        Ok(write_object(&members))
    }
}

impl CreditCardDetailsView {
    /// A card on the wire: the number, the expiry, and the code if the card
    /// has one. A card without a code has no such member.
    pub open spec fn members(self) -> Seq<(Seq<char>, Seq<char>)> {
        let always = seq![
            ("cardNumber"@, json_string(self.card_number)),
            ("expirationDate"@, json_string(self.expiration_date)),
        ];
        match self.card_code {
            Some(code) => always.push(("cardCode"@, json_string(code))),
            None => always,
        }
    }

    pub open spec fn json(self) -> Seq<char> {
        object_json(self.members())
    }
}

impl CreditCardDetails {
    fn to_json(&self) -> (json: Result<String, ConnectorError>)
        ensures
            json matches Ok(text) && text@ == self@.json(),
    {
        let mut members: Vec<JsonMember> = Vec::new();
        members.push(JsonMember { name: "cardNumber", value: quoted(self.card_number.as_str())? });
        members.push(
            JsonMember { name: "expirationDate", value: quoted(self.expiration_date.as_str())? },
        );
        match &self.card_code {
            Some(code) => {
                members.push(JsonMember { name: "cardCode", value: quoted(code.as_str())? });
            },
            None => {},
        }
        assert(members_view(members@) == self@.members());
        Ok(write_object(&members))
    }
}

impl BankAccountDetailsView {
    /// A bank account on the wire.
    pub open spec fn members(self) -> Seq<(Seq<char>, Seq<char>)> {
        seq![("accountNumber"@, json_string(self.account_number))]
    }

    pub open spec fn json(self) -> Seq<char> {
        object_json(self.members())
    }
}

impl BankAccountDetails {
    fn to_json(&self) -> (json: Result<String, ConnectorError>)
        ensures
            json matches Ok(text) && text@ == self@.json(),
    {
        let mut members: Vec<JsonMember> = Vec::new();
        members.push(
            JsonMember { name: "accountNumber", value: quoted(self.account_number.as_str())? },
        );
        assert(members_view(members@) == self@.members());
        Ok(write_object(&members))
    }
}

impl WalletDetailsView {
    /// A wallet token on the wire: the descriptor, then the value.
    pub open spec fn members(self) -> Seq<(Seq<char>, Seq<char>)> {
        seq![
            ("dataDescriptor"@, json_string(self.data_descriptor)),
            ("dataValue"@, json_string(self.data_value)),
        ]
    }

    pub open spec fn json(self) -> Seq<char> {
        object_json(self.members())
    }
}

impl WalletDetails {
    fn to_json(&self) -> (json: Result<String, ConnectorError>)
        ensures
            json matches Ok(text) && text@ == self@.json(),
    {
        let mut members: Vec<JsonMember> = Vec::new();
        members.push(
            JsonMember { name: "dataDescriptor", value: quoted(self.data_descriptor.as_str())? },
        );
        members.push(JsonMember { name: "dataValue", value: quoted(self.data_value.as_str())? });
        assert(members_view(members@) == self@.members());
        Ok(write_object(&members))
    }
}

impl PaymentDetailsView {
    /// The payment method on the wire: an object with one member, named after
    /// the kind of payment method, or the bare name of a kind that carries
    /// nothing.
    pub open spec fn json(self) -> Seq<char> {
        match self {
            PaymentDetailsView::CreditCard(card) => object_json(seq![("creditCard"@, card.json())]),
            PaymentDetailsView::BankAccount(account) => object_json(
                seq![("bankAccount"@, account.json())],
            ),
            PaymentDetailsView::Wallet(wallet) => object_json(seq![("opaqueData"@, wallet.json())]),
            PaymentDetailsView::Klarna => "\"Klarna\""@,
            PaymentDetailsView::Paypal => "\"Paypal\""@,
        }
    }
}

impl PaymentDetails {
    /// Writes the payment method in its wire form. This is also the form in
    /// which the payment details are kept as connector metadata.
    pub fn to_json(&self) -> (json: Result<String, ConnectorError>)
        ensures
            json matches Ok(text) && text@ == self@.json(),
    {
        let mut members: Vec<JsonMember> = Vec::new();
        match self {
            PaymentDetails::CreditCard(card) => {
                members.push(JsonMember { name: "creditCard", value: card.to_json()? });
                assert(members_view(members@) == seq![("creditCard"@, card@.json())]);
            },
            PaymentDetails::BankAccount(account) => {
                members.push(JsonMember { name: "bankAccount", value: account.to_json()? });
                assert(members_view(members@) == seq![("bankAccount"@, account@.json())]);
            },
            PaymentDetails::Wallet(wallet) => {
                members.push(JsonMember { name: "opaqueData", value: wallet.to_json()? });
                assert(members_view(members@) == seq![("opaqueData"@, wallet@.json())]);
            },
            PaymentDetails::Klarna => {
                return Ok("\"Klarna\"".to_owned());
            },
            PaymentDetails::Paypal => {
                return Ok("\"Paypal\"".to_owned());
            },
        }
        Ok(write_object(&members))
    }
}

impl PaymentRequestDataView {
    /// An authorize request on the wire: the transaction type, the amount,
    /// the currency, the payment method.
    pub open spec fn members(self) -> Seq<(Seq<char>, Seq<char>)> {
        seq![
            ("transactionType"@, self.transaction_type.json()),
            ("amount"@, json_integer(self.amount)),
            ("currencyCode"@, json_string(self.currency_code)),
            ("payment"@, self.payment.json()),
        ]
    }

    pub open spec fn json(self) -> Seq<char> {
        object_json(self.members())
    }
}

impl PaymentRequestData {
    fn to_json(&self) -> (json: Result<String, ConnectorError>)
        ensures
            json matches Ok(text) && text@ == self@.json(),
    {
        let mut members: Vec<JsonMember> = Vec::new();
        members.push(JsonMember { name: "transactionType", value: self.transaction_type.to_json() });
        members.push(JsonMember { name: "amount", value: number(self.amount)? });
        members.push(
            JsonMember { name: "currencyCode", value: quoted(self.currency_code.as_str())? },
        );
        members.push(JsonMember { name: "payment", value: self.payment.to_json()? });
        assert(members_view(members@) == self@.members());
        Ok(write_object(&members))
    }
}

impl CaptureRequestDataView {
    /// A capture request on the wire: the transaction type, the amount, the
    /// transaction that was authorized.
    pub open spec fn members(self) -> Seq<(Seq<char>, Seq<char>)> {
        seq![
            ("transactionType"@, self.transaction_type.json()),
            ("amount"@, json_integer(self.amount)),
            ("refTransId"@, json_string(self.ref_trans_id)),
        ]
    }

    pub open spec fn json(self) -> Seq<char> {
        object_json(self.members())
    }
}

impl CaptureRequestData {
    fn to_json(&self) -> (json: Result<String, ConnectorError>)
        ensures
            json matches Ok(text) && text@ == self@.json(),
    {
        let mut members: Vec<JsonMember> = Vec::new();
        members.push(JsonMember { name: "transactionType", value: self.transaction_type.to_json() });
        members.push(JsonMember { name: "amount", value: number(self.amount)? });
        members.push(JsonMember { name: "refTransId", value: quoted(self.ref_trans_id.as_str())? });
        assert(members_view(members@) == self@.members());
        Ok(write_object(&members))
    }
}

impl VoidRequestDataView {
    /// A void request on the wire: the transaction type, the transaction
    /// that was authorized.
    pub open spec fn members(self) -> Seq<(Seq<char>, Seq<char>)> {
        seq![
            ("transactionType"@, self.transaction_type.json()),
            ("refTransId"@, json_string(self.ref_trans_id)),
        ]
    }

    pub open spec fn json(self) -> Seq<char> {
        object_json(self.members())
    }
}

impl VoidRequestData {
    fn to_json(&self) -> (json: Result<String, ConnectorError>)
        ensures
            json matches Ok(text) && text@ == self@.json(),
    {
        let mut members: Vec<JsonMember> = Vec::new();
        members.push(JsonMember { name: "transactionType", value: self.transaction_type.to_json() });
        members.push(JsonMember { name: "refTransId", value: quoted(self.ref_trans_id.as_str())? });
        assert(members_view(members@) == self@.members());
        Ok(write_object(&members))
    }
}

impl RefundRequestDataView {
    /// A refund request on the wire: the transaction type, the amount, the
    /// currency, the payment method, the transaction that is refunded.
    pub open spec fn members(self) -> Seq<(Seq<char>, Seq<char>)> {
        seq![
            ("transactionType"@, self.transaction_type.json()),
            ("amount"@, json_integer(self.amount)),
            ("currencyCode"@, json_string(self.currency_code)),
            ("payment"@, self.payment.json()),
            ("refTransId"@, json_string(self.reference_transaction_id)),
        ]
    }

    pub open spec fn json(self) -> Seq<char> {
        object_json(self.members())
    }
}

impl RefundRequestData {
    fn to_json(&self) -> (json: Result<String, ConnectorError>)
        ensures
            json matches Ok(text) && text@ == self@.json(),
    {
        let mut members: Vec<JsonMember> = Vec::new();
        members.push(JsonMember { name: "transactionType", value: self.transaction_type.to_json() });
        members.push(JsonMember { name: "amount", value: number(self.amount)? });
        members.push(
            JsonMember { name: "currencyCode", value: quoted(self.currency_code.as_str())? },
        );
        members.push(JsonMember { name: "payment", value: self.payment.to_json()? });
        members.push(
            JsonMember {
                name: "refTransId",
                value: quoted(self.reference_transaction_id.as_str())?,
            },
        );
        assert(members_view(members@) == self@.members());
        Ok(write_object(&members))
    }
}

impl TransactionRequestView {
    /// The transaction on the wire: the request it holds, untagged.
    pub open spec fn json(self) -> Seq<char> {
        match self {
            TransactionRequestView::AuthRequest(request) => request.json(),
            TransactionRequestView::CaptureRequest(request) => request.json(),
            TransactionRequestView::VoidRequest(request) => request.json(),
            TransactionRequestView::RefundRequest(request) => request.json(),
        }
    }
}

impl TransactionRequest {
    fn to_json(&self) -> (json: Result<String, ConnectorError>)
        ensures
            json matches Ok(text) && text@ == self@.json(),
    {
        match self {
            TransactionRequest::AuthRequest(request) => request.to_json(),
            TransactionRequest::CaptureRequest(request) => request.to_json(),
            TransactionRequest::VoidRequest(request) => request.to_json(),
            TransactionRequest::RefundRequest(request) => request.to_json(),
        }
    }
}

impl CreateTransactionRequestView {
    /// The credentials and the transaction on the wire, in that order.
    pub open spec fn members(self) -> Seq<(Seq<char>, Seq<char>)> {
        seq![
            ("merchantAuthentication"@, self.merchant_authentication.json()),
            ("transactionRequest"@, self.transaction_request.json()),
        ]
    }

    /// The whole request on the wire: one object with one member.
    pub open spec fn json(self) -> Seq<char> {
        object_json(seq![("createTransactionRequest"@, object_json(self.members()))])
    }
}

impl AuthorizedotnetPaymentsRequest {
    fn to_json(&self) -> (json: Result<String, ConnectorError>)
        ensures
            json matches Ok(text) && text@ == object_json(self@.members()),
    {
        let mut members: Vec<JsonMember> = Vec::new();
        members.push(
            JsonMember {
                name: "merchantAuthentication",
                value: self.merchant_authentication.to_json()?,
            },
        );
        members.push(
            JsonMember { name: "transactionRequest", value: self.transaction_request.to_json()? },
        );
        assert(members_view(members@) == self@.members());
        Ok(write_object(&members))
    }
}

impl CreateTransactionRequest {
    /// Writes the request in its wire form: every member under the name and
    /// in the place that the connector expects.
    pub fn to_json(&self) -> (json: Result<String, ConnectorError>)
        ensures
            json matches Ok(text) && text@ == self@.json(),
    {
        let mut members: Vec<JsonMember> = Vec::new();
        members.push(
            JsonMember {
                name: "createTransactionRequest",
                value: self.create_transaction_request.to_json()?,
            },
        );
        assert(members_view(members@) == seq![
            ("createTransactionRequest"@, object_json(self@.members())),
        ]);
        Ok(write_object(&members))
    }
}

impl TransactionDetailsView {
    /// The transaction that a status query asks about, or `null`.
    pub open spec fn transaction_id_json(self) -> Seq<char> {
        match self.transaction_id {
            Some(id) => json_string(id),
            None => "null"@,
        }
    }

    /// The credentials and the transaction of a status query on the wire, in
    /// that order.
    pub open spec fn members(self) -> Seq<(Seq<char>, Seq<char>)> {
        seq![
            ("merchantAuthentication"@, self.merchant_authentication.json()),
            ("transId"@, self.transaction_id_json()),
        ]
    }

    /// The whole status query on the wire: one object with one member.
    pub open spec fn json(self) -> Seq<char> {
        object_json(seq![("getTransactionDetailsRequest"@, object_json(self.members()))])
    }
}

impl TransactionDetails {
    fn to_json(&self) -> (json: Result<String, ConnectorError>)
        ensures
            json matches Ok(text) && text@ == object_json(self@.members()),
    {
        let transaction_id = match &self.transaction_id {
            Some(id) => quoted(id.as_str())?,
            None => "null".to_owned(),
        };
        let mut members: Vec<JsonMember> = Vec::new();
        members.push(
            JsonMember {
                name: "merchantAuthentication",
                value: self.merchant_authentication.to_json()?,
            },
        );
        members.push(JsonMember { name: "transId", value: transaction_id });
        assert(members_view(members@) == self@.members());
        Ok(write_object(&members))
    }
}

impl AuthorizedotnetCreateSyncRequest {
    /// Writes the status query in its wire form.
    pub fn to_json(&self) -> (json: Result<String, ConnectorError>)
        ensures
            json matches Ok(text) && text@ == self@.json(),
    {
        let mut members: Vec<JsonMember> = Vec::new();
        members.push(
            JsonMember {
                name: "getTransactionDetailsRequest",
                value: self.get_transaction_details_request.to_json()?,
            },
        );
        assert(members_view(members@) == seq![
            ("getTransactionDetailsRequest"@, object_json(self@.members())),
        ]);
        Ok(write_object(&members))
    }
}

} // verus!
