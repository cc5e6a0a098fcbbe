//! The bodies of the requests that create and capture a payment.

use vstd::prelude::*;
use crate::error::{YooKassaError, YooKassaErrorView};
use crate::fields::{
    bool_json, decoded, decoded_opt, get_opt_bool, get_opt_json, get_opt_text, get_text,
    opt_bool_at, opt_text_at, opt_view, put_opt_json, text_at, text_json, with_opt_bool,
    with_opt_text, with_text,
};
use crate::json::{empty_object, json_view, member, opt_json, present_member, with_member, JsonView};
use crate::amount::{Amount, AmountView};
use crate::receipt::{Receipt, ReceiptView};

verus! {

/// How the payer is to confirm the payment.
#[derive(Debug, Clone)]
pub struct ConfirmationRequest {
    pub confirmation_type: String,
    pub return_url: String,
    pub enforce: Option<bool>,
    pub locale: Option<String>,
}

/// What a [`ConfirmationRequest`] holds, as mathematical values.
pub struct ConfirmationRequestView {
    pub confirmation_type: Seq<char>,
    pub return_url: Seq<char>,
    pub enforce: Option<bool>,
    pub locale: Option<Seq<char>>,
}

impl View for ConfirmationRequest {
    type V = ConfirmationRequestView;

    open spec fn view(&self) -> ConfirmationRequestView {
        ConfirmationRequestView {
            confirmation_type: self.confirmation_type@,
            return_url: self.return_url@,
            enforce: self.enforce,
            locale: opt_view(self.locale),
        }
    }
}

impl ConfirmationRequestView {
    /// What a JSON document decodes to: the members in the order of the
    /// fields, the first one that fails deciding the error.
    pub open spec fn of_json(j: JsonView) -> Result<ConfirmationRequestView, YooKassaErrorView> {
        if let Err(e) = text_at(j, "type"@) {
            Err(e)
        } else if let Err(e) = text_at(j, "return_url"@) {
            Err(e)
        } else if let Err(e) = opt_bool_at(j, "enforce"@) {
            Err(e)
        } else if let Err(e) = opt_text_at(j, "locale"@) {
            Err(e)
        } else {
            Ok(
                ConfirmationRequestView {
                    confirmation_type: text_at(j, "type"@)->Ok_0,
                    return_url: text_at(j, "return_url"@)->Ok_0,
                    enforce: opt_bool_at(j, "enforce"@)->Ok_0,
                    locale: opt_text_at(j, "locale"@)->Ok_0,
                },
            )
        }
    }

    /// The optional member under `key`, decoded where it is present.
    pub open spec fn opt_at(j: JsonView, key: Seq<char>) -> Result<
        Option<ConfirmationRequestView>,
        YooKassaErrorView,
    > {
        match j.get_present(key) {
            None => Ok(None),
            Some(x) => match Self::of_json(x) {
                Ok(t) => Ok(Some(t)),
                Err(e) => Err(e),
            },
        }
    }

    /// The JSON object that stands for this value: every required member, and
    /// each optional member that is set.
    pub open spec fn to_json(self) -> JsonView {
        JsonView::empty_object()
            .with("type"@, JsonView::Text(self.confirmation_type))
            .with("return_url"@, JsonView::Text(self.return_url))
            .with_opt("enforce"@, bool_json(self.enforce))
            .with_opt("locale"@, text_json(self.locale))
    }

    pub open spec fn opt_to_json(o: Option<ConfirmationRequestView>) -> Option<JsonView> {
        match o {
            Some(t) => Some(t.to_json()),
            None => None,
        }
    }

    /// What tells the names of the members apart: their lengths and, where
    /// two are of one length, a character.
    proof fn lemma_member_names()
        ensures
            "type"@.len() == 4,
            "return_url"@.len() == 10,
            "enforce"@.len() == 7,
            "locale"@.len() == 6,
    {
        reveal_strlit("type");
        reveal_strlit("return_url");
        reveal_strlit("enforce");
        reveal_strlit("locale");
    }

    /// Decoding the encoded value gives the value back.
    pub proof fn lemma_round_trip(self)
        ensures
            Self::of_json(self.to_json()) == Ok::<_, YooKassaErrorView>(self),
    {
        Self::lemma_member_names();
    }

    /// An optional field that is not set leaves no member in the encoded
    /// object, and one that is set leaves its member.
    pub proof fn lemma_unset_is_omitted(self)
        ensures
            self.enforce is None <==> self.to_json().get("enforce"@) is None,
            self.locale is None <==> self.to_json().get("locale"@) is None,
    {
        Self::lemma_member_names();
    }
}

impl ConfirmationRequest {
    /// Decodes a value from a JSON document. Members that the type does not
    /// know are passed over.
    pub fn from_json(v: &serde_json::Value) -> (r: Result<ConfirmationRequest, YooKassaError>)
        ensures
            decoded(r) == ConfirmationRequestView::of_json(json_view(*v)),
    {
        let confirmation_type = get_text(v, "type")?;
        let return_url = get_text(v, "return_url")?;
        let enforce = get_opt_bool(v, "enforce")?;
        let locale = get_opt_text(v, "locale")?;
        Ok(ConfirmationRequest { confirmation_type, return_url, enforce, locale })
    }

    /// Decodes the optional member under `key`.
    pub fn get_opt(v: &serde_json::Value, key: &str) -> (r: Result<
        Option<ConfirmationRequest>,
        YooKassaError,
    >)
        ensures
            decoded_opt(r) == ConfirmationRequestView::opt_at(json_view(*v), key@),
    {
        match present_member(v, key) {
            None => Ok(None),
            Some(x) => match Self::from_json(&x) {
                Ok(t) => Ok(Some(t)),
                Err(e) => Err(e),
            },
        }
    }

    /// Encodes the value as a JSON object. An optional field that is not set
    /// leaves no member behind.
    pub fn to_json(&self) -> (r: serde_json::Value)
        ensures
            json_view(r) == self@.to_json(),
    {
        let o = empty_object();
        let o = with_text(o, "type", &self.confirmation_type);
        let o = with_text(o, "return_url", &self.return_url);
        let o = with_opt_bool(o, "enforce", self.enforce);
        let o = with_opt_text(o, "locale", &self.locale);
        o
    }

    /// The object with this value under `key`, where there is a value.
    pub fn put_opt(object: serde_json::Value, key: &str, value: &Option<ConfirmationRequest>) -> (r:
        serde_json::Value)
        ensures
            json_view(r) == json_view(object).with_opt(
                key@,
                ConfirmationRequestView::opt_to_json(opt_view(*value)),
            ),
    {
        match value {
            Some(t) => with_member(object, key, t.to_json()),
            None => object,
        }
    }
}

/// Bank card data as the payer entered it.
#[derive(Debug, Clone)]
pub struct CardData {
    pub number: String,
    pub expiry_year: String,
    pub expiry_month: String,
    pub csc: Option<String>,
    pub cardholder: Option<String>,
}

/// What a [`CardData`] holds, as mathematical values.
pub struct CardDataView {
    pub number: Seq<char>,
    pub expiry_year: Seq<char>,
    pub expiry_month: Seq<char>,
    pub csc: Option<Seq<char>>,
    pub cardholder: Option<Seq<char>>,
}

impl View for CardData {
    type V = CardDataView;

    open spec fn view(&self) -> CardDataView {
        CardDataView {
            number: self.number@,
            expiry_year: self.expiry_year@,
            expiry_month: self.expiry_month@,
            csc: opt_view(self.csc),
            cardholder: opt_view(self.cardholder),
        }
    }
}

impl CardDataView {
    /// What a JSON document decodes to: the members in the order of the
    /// fields, the first one that fails deciding the error.
    pub open spec fn of_json(j: JsonView) -> Result<CardDataView, YooKassaErrorView> {
        if let Err(e) = text_at(j, "number"@) {
            Err(e)
        } else if let Err(e) = text_at(j, "expiry_year"@) {
            Err(e)
        } else if let Err(e) = text_at(j, "expiry_month"@) {
            Err(e)
        } else if let Err(e) = opt_text_at(j, "csc"@) {
            Err(e)
        } else if let Err(e) = opt_text_at(j, "cardholder"@) {
            Err(e)
        } else {
            Ok(
                CardDataView {
                    number: text_at(j, "number"@)->Ok_0,
                    expiry_year: text_at(j, "expiry_year"@)->Ok_0,
                    expiry_month: text_at(j, "expiry_month"@)->Ok_0,
                    csc: opt_text_at(j, "csc"@)->Ok_0,
                    cardholder: opt_text_at(j, "cardholder"@)->Ok_0,
                },
            )
        }
    }

    /// The optional member under `key`, decoded where it is present.
    pub open spec fn opt_at(j: JsonView, key: Seq<char>) -> Result<
        Option<CardDataView>,
        YooKassaErrorView,
    > {
        match j.get_present(key) {
            None => Ok(None),
            Some(x) => match Self::of_json(x) {
                Ok(t) => Ok(Some(t)),
                Err(e) => Err(e),
            },
        }
    }

    /// The JSON object that stands for this value: every required member, and
    /// each optional member that is set.
    pub open spec fn to_json(self) -> JsonView {
        JsonView::empty_object()
            .with("number"@, JsonView::Text(self.number))
            .with("expiry_year"@, JsonView::Text(self.expiry_year))
            .with("expiry_month"@, JsonView::Text(self.expiry_month))
            .with_opt("csc"@, text_json(self.csc))
            .with_opt("cardholder"@, text_json(self.cardholder))
    }

    pub open spec fn opt_to_json(o: Option<CardDataView>) -> Option<JsonView> {
        match o {
            Some(t) => Some(t.to_json()),
            None => None,
        }
    }

    /// What tells the names of the members apart: their lengths and, where
    /// two are of one length, a character.
    proof fn lemma_member_names()
        ensures
            "number"@.len() == 6,
            "expiry_year"@.len() == 11,
            "expiry_month"@.len() == 12,
            "csc"@.len() == 3,
            "cardholder"@.len() == 10,
    {
        reveal_strlit("number");
        reveal_strlit("expiry_year");
        reveal_strlit("expiry_month");
        reveal_strlit("csc");
        reveal_strlit("cardholder");
    }

    /// Decoding the encoded value gives the value back.
    pub proof fn lemma_round_trip(self)
        ensures
            Self::of_json(self.to_json()) == Ok::<_, YooKassaErrorView>(self),
    {
        Self::lemma_member_names();
    }

    /// An optional field that is not set leaves no member in the encoded
    /// object, and one that is set leaves its member.
    pub proof fn lemma_unset_is_omitted(self)
        ensures
            self.csc is None <==> self.to_json().get("csc"@) is None,
            self.cardholder is None <==> self.to_json().get("cardholder"@) is None,
    {
        Self::lemma_member_names();
    }
}

impl CardData {
    /// Decodes a value from a JSON document. Members that the type does not
    /// know are passed over.
    pub fn from_json(v: &serde_json::Value) -> (r: Result<CardData, YooKassaError>)
        ensures
            decoded(r) == CardDataView::of_json(json_view(*v)),
    {
        let number = get_text(v, "number")?;
        let expiry_year = get_text(v, "expiry_year")?;
        let expiry_month = get_text(v, "expiry_month")?;
        let csc = get_opt_text(v, "csc")?;
        let cardholder = get_opt_text(v, "cardholder")?;
        Ok(CardData { number, expiry_year, expiry_month, csc, cardholder })
    }

    /// Decodes the optional member under `key`.
    pub fn get_opt(v: &serde_json::Value, key: &str) -> (r: Result<
        Option<CardData>,
        YooKassaError,
    >)
        ensures
            decoded_opt(r) == CardDataView::opt_at(json_view(*v), key@),
    {
        match present_member(v, key) {
            None => Ok(None),
            Some(x) => match Self::from_json(&x) {
                Ok(t) => Ok(Some(t)),
                Err(e) => Err(e),
            },
        }
    }

    /// Encodes the value as a JSON object. An optional field that is not set
    /// leaves no member behind.
    pub fn to_json(&self) -> (r: serde_json::Value)
        ensures
            json_view(r) == self@.to_json(),
    {
        let o = empty_object();
        let o = with_text(o, "number", &self.number);
        let o = with_text(o, "expiry_year", &self.expiry_year);
        let o = with_text(o, "expiry_month", &self.expiry_month);
        let o = with_opt_text(o, "csc", &self.csc);
        let o = with_opt_text(o, "cardholder", &self.cardholder);
        o
    }

    /// The object with this value under `key`, where there is a value.
    pub fn put_opt(object: serde_json::Value, key: &str, value: &Option<CardData>) -> (r:
        serde_json::Value)
        ensures
            json_view(r) == json_view(object).with_opt(
                key@,
                CardDataView::opt_to_json(opt_view(*value)),
            ),
    {
        match value {
            Some(t) => with_member(object, key, t.to_json()),
            None => object,
        }
    }
}

/// The payment method that the payer is to use.
#[derive(Debug, Clone)]
pub struct PaymentMethodData {
    pub payment_method_type: String,
    pub card: Option<CardData>,
    pub login: Option<String>,
    pub phone: Option<String>,
}

/// What a [`PaymentMethodData`] holds, as mathematical values.
pub struct PaymentMethodDataView {
    pub payment_method_type: Seq<char>,
    pub card: Option<CardDataView>,
    pub login: Option<Seq<char>>,
    pub phone: Option<Seq<char>>,
}

impl View for PaymentMethodData {
    type V = PaymentMethodDataView;

    open spec fn view(&self) -> PaymentMethodDataView {
        PaymentMethodDataView {
            payment_method_type: self.payment_method_type@,
            card: opt_view(self.card),
            login: opt_view(self.login),
            phone: opt_view(self.phone),
        }
    }
}

impl PaymentMethodDataView {
    /// What a JSON document decodes to: the members in the order of the
    /// fields, the first one that fails deciding the error.
    pub open spec fn of_json(j: JsonView) -> Result<PaymentMethodDataView, YooKassaErrorView> {
        if let Err(e) = text_at(j, "type"@) {
            Err(e)
        } else if let Err(e) = CardDataView::opt_at(j, "card"@) {
            Err(e)
        } else if let Err(e) = opt_text_at(j, "login"@) {
            Err(e)
        } else if let Err(e) = opt_text_at(j, "phone"@) {
            Err(e)
        } else {
            Ok(
                PaymentMethodDataView {
                    payment_method_type: text_at(j, "type"@)->Ok_0,
                    card: CardDataView::opt_at(j, "card"@)->Ok_0,
                    login: opt_text_at(j, "login"@)->Ok_0,
                    phone: opt_text_at(j, "phone"@)->Ok_0,
                },
            )
        }
    }

    /// The optional member under `key`, decoded where it is present.
    pub open spec fn opt_at(j: JsonView, key: Seq<char>) -> Result<
        Option<PaymentMethodDataView>,
        YooKassaErrorView,
    > {
        match j.get_present(key) {
            None => Ok(None),
            Some(x) => match Self::of_json(x) {
                Ok(t) => Ok(Some(t)),
                Err(e) => Err(e),
            },
        }
    }

    /// The JSON object that stands for this value: every required member, and
    /// each optional member that is set.
    pub open spec fn to_json(self) -> JsonView {
        JsonView::empty_object()
            .with("type"@, JsonView::Text(self.payment_method_type))
            .with_opt("card"@, CardDataView::opt_to_json(self.card))
            .with_opt("login"@, text_json(self.login))
            .with_opt("phone"@, text_json(self.phone))
    }

    pub open spec fn opt_to_json(o: Option<PaymentMethodDataView>) -> Option<JsonView> {
        match o {
            Some(t) => Some(t.to_json()),
            None => None,
        }
    }

    /// What tells the names of the members apart: their lengths and, where
    /// two are of one length, a character.
    proof fn lemma_member_names()
        ensures
            "type"@.len() == 4,
            "card"@.len() == 4,
            "login"@.len() == 5,
            "phone"@.len() == 5,
            "card"@[0] == 'c',
            "type"@[0] == 't',
            "login"@[0] == 'l',
            "phone"@[0] == 'p',
    {
        reveal_strlit("type");
        reveal_strlit("card");
        reveal_strlit("login");
        reveal_strlit("phone");
    }

    /// Decoding the encoded value gives the value back.
    pub proof fn lemma_round_trip(self)
        ensures
            Self::of_json(self.to_json()) == Ok::<_, YooKassaErrorView>(self),
    {
        Self::lemma_member_names();
        match self.card {
            Some(x) => {
                x.lemma_round_trip();
            },
            None => {},
        }
    }

    /// An optional field that is not set leaves no member in the encoded
    /// object, and one that is set leaves its member.
    pub proof fn lemma_unset_is_omitted(self)
        ensures
            self.card is None <==> self.to_json().get("card"@) is None,
            self.login is None <==> self.to_json().get("login"@) is None,
            self.phone is None <==> self.to_json().get("phone"@) is None,
    {
        Self::lemma_member_names();
    }
}

impl PaymentMethodData {
    /// Decodes a value from a JSON document. Members that the type does not
    /// know are passed over.
    pub fn from_json(v: &serde_json::Value) -> (r: Result<PaymentMethodData, YooKassaError>)
        ensures
            decoded(r) == PaymentMethodDataView::of_json(json_view(*v)),
    {
        let payment_method_type = get_text(v, "type")?;
        let card = CardData::get_opt(v, "card")?;
        let login = get_opt_text(v, "login")?;
        let phone = get_opt_text(v, "phone")?;
        Ok(PaymentMethodData { payment_method_type, card, login, phone })
    }

    /// Decodes the optional member under `key`.
    pub fn get_opt(v: &serde_json::Value, key: &str) -> (r: Result<
        Option<PaymentMethodData>,
        YooKassaError,
    >)
        ensures
            decoded_opt(r) == PaymentMethodDataView::opt_at(json_view(*v), key@),
    {
        match present_member(v, key) {
            None => Ok(None),
            Some(x) => match Self::from_json(&x) {
                Ok(t) => Ok(Some(t)),
                Err(e) => Err(e),
            },
        }
    }

    /// Encodes the value as a JSON object. An optional field that is not set
    /// leaves no member behind.
    pub fn to_json(&self) -> (r: serde_json::Value)
        ensures
            json_view(r) == self@.to_json(),
    {
        let o = empty_object();
        let o = with_text(o, "type", &self.payment_method_type);
        let o = CardData::put_opt(o, "card", &self.card);
        let o = with_opt_text(o, "login", &self.login);
        let o = with_opt_text(o, "phone", &self.phone);
        o
    }

    /// The object with this value under `key`, where there is a value.
    pub fn put_opt(object: serde_json::Value, key: &str, value: &Option<PaymentMethodData>) -> (r:
        serde_json::Value)
        ensures
            json_view(r) == json_view(object).with_opt(
                key@,
                PaymentMethodDataView::opt_to_json(opt_view(*value)),
            ),
    {
        match value {
            Some(t) => with_member(object, key, t.to_json()),
            None => object,
        }
    }
}

/// What the gateway needs to create a payment.
#[derive(Debug, Clone)]
pub struct CreatePaymentRequest {
    pub amount: Amount,
    pub description: Option<String>,
    pub payment_method_data: Option<PaymentMethodData>,
    pub confirmation: Option<ConfirmationRequest>,
    pub capture: Option<bool>,
    pub save_payment_method: Option<bool>,
    pub metadata: Option<serde_json::Value>,
    pub receipt: Option<Receipt>,
    pub payment_token: Option<String>,
    pub payment_method_id: Option<String>,
    pub client_ip: Option<String>,
}

/// What a [`CreatePaymentRequest`] holds, as mathematical values.
pub struct CreatePaymentRequestView {
    pub amount: AmountView,
    pub description: Option<Seq<char>>,
    pub payment_method_data: Option<PaymentMethodDataView>,
    pub confirmation: Option<ConfirmationRequestView>,
    pub capture: Option<bool>,
    pub save_payment_method: Option<bool>,
    pub metadata: Option<JsonView>,
    pub receipt: Option<ReceiptView>,
    pub payment_token: Option<Seq<char>>,
    pub payment_method_id: Option<Seq<char>>,
    pub client_ip: Option<Seq<char>>,
}

impl View for CreatePaymentRequest {
    type V = CreatePaymentRequestView;

    open spec fn view(&self) -> CreatePaymentRequestView {
        CreatePaymentRequestView {
            amount: self.amount@,
            description: opt_view(self.description),
            payment_method_data: opt_view(self.payment_method_data),
            confirmation: opt_view(self.confirmation),
            capture: self.capture,
            save_payment_method: self.save_payment_method,
            metadata: opt_json(self.metadata),
            receipt: opt_view(self.receipt),
            payment_token: opt_view(self.payment_token),
            payment_method_id: opt_view(self.payment_method_id),
            client_ip: opt_view(self.client_ip),
        }
    }
}

impl CreatePaymentRequestView {
    /// What a JSON document decodes to: the members in the order of the
    /// fields, the first one that fails deciding the error.
    pub open spec fn of_json(j: JsonView) -> Result<CreatePaymentRequestView, YooKassaErrorView> {
        if let Err(e) = AmountView::at(j, "amount"@) {
            Err(e)
        } else if let Err(e) = opt_text_at(j, "description"@) {
            Err(e)
        } else if let Err(e) = PaymentMethodDataView::opt_at(j, "payment_method_data"@) {
            Err(e)
        } else if let Err(e) = ConfirmationRequestView::opt_at(j, "confirmation"@) {
            Err(e)
        } else if let Err(e) = opt_bool_at(j, "capture"@) {
            Err(e)
        } else if let Err(e) = opt_bool_at(j, "save_payment_method"@) {
            Err(e)
        } else if let Err(e) = ReceiptView::opt_at(j, "receipt"@) {
            Err(e)
        } else if let Err(e) = opt_text_at(j, "payment_token"@) {
            Err(e)
        } else if let Err(e) = opt_text_at(j, "payment_method_id"@) {
            Err(e)
        } else if let Err(e) = opt_text_at(j, "client_ip"@) {
            Err(e)
        } else {
            Ok(
                CreatePaymentRequestView {
                    amount: AmountView::at(j, "amount"@)->Ok_0,
                    description: opt_text_at(j, "description"@)->Ok_0,
                    payment_method_data:
                        PaymentMethodDataView::opt_at(j, "payment_method_data"@)->Ok_0,
                    confirmation: ConfirmationRequestView::opt_at(j, "confirmation"@)->Ok_0,
                    capture: opt_bool_at(j, "capture"@)->Ok_0,
                    save_payment_method: opt_bool_at(j, "save_payment_method"@)->Ok_0,
                    metadata: j.get_present("metadata"@),
                    receipt: ReceiptView::opt_at(j, "receipt"@)->Ok_0,
                    payment_token: opt_text_at(j, "payment_token"@)->Ok_0,
                    payment_method_id: opt_text_at(j, "payment_method_id"@)->Ok_0,
                    client_ip: opt_text_at(j, "client_ip"@)->Ok_0,
                },
            )
        }
    }

    /// The JSON object that stands for this value: every required member, and
    /// each optional member that is set.
    pub open spec fn to_json(self) -> JsonView {
        JsonView::empty_object()
            .with("amount"@, self.amount.to_json())
            .with_opt("description"@, text_json(self.description))
            .with_opt(
                "payment_method_data"@,
                PaymentMethodDataView::opt_to_json(self.payment_method_data),
            )
            .with_opt("confirmation"@, ConfirmationRequestView::opt_to_json(self.confirmation))
            .with_opt("capture"@, bool_json(self.capture))
            .with_opt("save_payment_method"@, bool_json(self.save_payment_method))
            .with_opt("metadata"@, self.metadata)
            .with_opt("receipt"@, ReceiptView::opt_to_json(self.receipt))
            .with_opt("payment_token"@, text_json(self.payment_token))
            .with_opt("payment_method_id"@, text_json(self.payment_method_id))
            .with_opt("client_ip"@, text_json(self.client_ip))
    }

    /// What tells the names of the members apart: their lengths and, where
    /// two are of one length, a character.
    proof fn lemma_member_names()
        ensures
            "amount"@.len() == 6,
            "description"@.len() == 11,
            "payment_method_data"@.len() == 19,
            "confirmation"@.len() == 12,
            "capture"@.len() == 7,
            "save_payment_method"@.len() == 19,
            "metadata"@.len() == 8,
            "receipt"@.len() == 7,
            "payment_token"@.len() == 13,
            "payment_method_id"@.len() == 17,
            "client_ip"@.len() == 9,
            "payment_method_data"@[0] == 'p',
            "save_payment_method"@[0] == 's',
            "capture"@[0] == 'c',
            "receipt"@[0] == 'r',
    {
        reveal_strlit("amount");
        reveal_strlit("description");
        reveal_strlit("payment_method_data");
        reveal_strlit("confirmation");
        reveal_strlit("capture");
        reveal_strlit("save_payment_method");
        reveal_strlit("metadata");
        reveal_strlit("receipt");
        reveal_strlit("payment_token");
        reveal_strlit("payment_method_id");
        reveal_strlit("client_ip");
    }

    /// Decoding the encoded value gives the value back, unless free-form
    /// data is set to `null`, which the wire form cannot tell from unset data.
    #[verifier::rlimit(50)]
    pub proof fn lemma_round_trip(self)
        requires
            self.metadata != Some(JsonView::Null),
        ensures
            Self::of_json(self.to_json()) == Ok::<_, YooKassaErrorView>(self),
    {
        Self::lemma_member_names();
        self.amount.lemma_round_trip();
        match self.payment_method_data {
            Some(x) => {
                x.lemma_round_trip();
            },
            None => {},
        }
        match self.confirmation {
            Some(x) => {
                x.lemma_round_trip();
            },
            None => {},
        }
        match self.receipt {
            Some(x) => {
                x.lemma_round_trip();
            },
            None => {},
        }
        let j = self.to_json();
        assert(AmountView::at(j, "amount"@) == Ok::<AmountView, YooKassaErrorView>(self.amount));
        assert(opt_text_at(j, "description"@)
            == Ok::<Option<Seq<char>>, YooKassaErrorView>(self.description));
        assert(PaymentMethodDataView::opt_at(j, "payment_method_data"@)
            == Ok::<Option<PaymentMethodDataView>, YooKassaErrorView>(self.payment_method_data));
        assert(ConfirmationRequestView::opt_at(j, "confirmation"@)
            == Ok::<Option<ConfirmationRequestView>, YooKassaErrorView>(self.confirmation));
        assert(opt_bool_at(j, "capture"@) == Ok::<Option<bool>, YooKassaErrorView>(self.capture));
        assert(opt_bool_at(j, "save_payment_method"@)
            == Ok::<Option<bool>, YooKassaErrorView>(self.save_payment_method));
        assert(j.get_present("metadata"@) == self.metadata);
        assert(ReceiptView::opt_at(j, "receipt"@)
            == Ok::<Option<ReceiptView>, YooKassaErrorView>(self.receipt));
        assert(opt_text_at(j, "payment_token"@)
            == Ok::<Option<Seq<char>>, YooKassaErrorView>(self.payment_token));
        assert(opt_text_at(j, "payment_method_id"@)
            == Ok::<Option<Seq<char>>, YooKassaErrorView>(self.payment_method_id));
        assert(opt_text_at(j, "client_ip"@)
            == Ok::<Option<Seq<char>>, YooKassaErrorView>(self.client_ip));
    }

    /// An optional field that is not set leaves no member in the encoded
    /// object, and one that is set leaves its member.
    pub proof fn lemma_unset_is_omitted(self)
        ensures
            self.description is None <==> self.to_json().get("description"@) is None,
            self.payment_method_data is None
                <==> self.to_json().get("payment_method_data"@) is None,
            self.confirmation is None <==> self.to_json().get("confirmation"@) is None,
            self.capture is None <==> self.to_json().get("capture"@) is None,
            self.save_payment_method is None
                <==> self.to_json().get("save_payment_method"@) is None,
            self.metadata is None <==> self.to_json().get("metadata"@) is None,
            self.receipt is None <==> self.to_json().get("receipt"@) is None,
            self.payment_token is None <==> self.to_json().get("payment_token"@) is None,
            self.payment_method_id is None <==> self.to_json().get("payment_method_id"@) is None,
            self.client_ip is None <==> self.to_json().get("client_ip"@) is None,
    {
        Self::lemma_member_names();
    }
}

impl CreatePaymentRequest {
    /// Decodes a value from a JSON document. Members that the type does not
    /// know are passed over.
    pub fn from_json(v: &serde_json::Value) -> (r: Result<CreatePaymentRequest, YooKassaError>)
        ensures
            decoded(r) == CreatePaymentRequestView::of_json(json_view(*v)),
    {
        let amount = Amount::get(v, "amount")?;
        let description = get_opt_text(v, "description")?;
        let payment_method_data = PaymentMethodData::get_opt(v, "payment_method_data")?;
        let confirmation = ConfirmationRequest::get_opt(v, "confirmation")?;
        let capture = get_opt_bool(v, "capture")?;
        let save_payment_method = get_opt_bool(v, "save_payment_method")?;
        let metadata = get_opt_json(v, "metadata");
        let receipt = Receipt::get_opt(v, "receipt")?;
        let payment_token = get_opt_text(v, "payment_token")?;
        let payment_method_id = get_opt_text(v, "payment_method_id")?;
        let client_ip = get_opt_text(v, "client_ip")?;
        Ok(
            CreatePaymentRequest {
                amount,
                description,
                payment_method_data,
                confirmation,
                capture,
                save_payment_method,
                metadata,
                receipt,
                payment_token,
                payment_method_id,
                client_ip,
            },
        )
    }

    /// Encodes the value as a JSON object. An optional field that is not set
    /// leaves no member behind.
    pub fn to_json(&self) -> (r: serde_json::Value)
        ensures
            json_view(r) == self@.to_json(),
    {
        let o = empty_object();
        let o = with_member(o, "amount", self.amount.to_json());
        let o = with_opt_text(o, "description", &self.description);
        let o = PaymentMethodData::put_opt(o, "payment_method_data", &self.payment_method_data);
        let o = ConfirmationRequest::put_opt(o, "confirmation", &self.confirmation);
        let o = with_opt_bool(o, "capture", self.capture);
        let o = with_opt_bool(o, "save_payment_method", self.save_payment_method);
        let o = put_opt_json(o, "metadata", &self.metadata);
        let o = Receipt::put_opt(o, "receipt", &self.receipt);
        let o = with_opt_text(o, "payment_token", &self.payment_token);
        let o = with_opt_text(o, "payment_method_id", &self.payment_method_id);
        let o = with_opt_text(o, "client_ip", &self.client_ip);
        o
    }
}

/// What may accompany a capture: a partial amount and a receipt.
#[derive(Debug, Clone)]
pub struct CapturePaymentRequest {
    pub amount: Option<Amount>,
    pub receipt: Option<Receipt>,
}

/// What a [`CapturePaymentRequest`] holds, as mathematical values.
pub struct CapturePaymentRequestView {
    pub amount: Option<AmountView>,
    pub receipt: Option<ReceiptView>,
}

impl View for CapturePaymentRequest {
    type V = CapturePaymentRequestView;

    open spec fn view(&self) -> CapturePaymentRequestView {
        CapturePaymentRequestView {
            amount: opt_view(self.amount),
            receipt: opt_view(self.receipt),
        }
    }
}

impl CapturePaymentRequestView {
    /// What a JSON document decodes to: the members in the order of the
    /// fields, the first one that fails deciding the error.
    pub open spec fn of_json(j: JsonView) -> Result<CapturePaymentRequestView, YooKassaErrorView> {
        if let Err(e) = AmountView::opt_at(j, "amount"@) {
            Err(e)
        } else if let Err(e) = ReceiptView::opt_at(j, "receipt"@) {
            Err(e)
        } else {
            Ok(
                CapturePaymentRequestView {
                    amount: AmountView::opt_at(j, "amount"@)->Ok_0,
                    receipt: ReceiptView::opt_at(j, "receipt"@)->Ok_0,
                },
            )
        }
    }

    /// The JSON object that stands for this value: every required member, and
    /// each optional member that is set.
    pub open spec fn to_json(self) -> JsonView {
        JsonView::empty_object()
            .with_opt("amount"@, AmountView::opt_to_json(self.amount))
            .with_opt("receipt"@, ReceiptView::opt_to_json(self.receipt))
    }

    /// What tells the names of the members apart: their lengths and, where
    /// two are of one length, a character.
    proof fn lemma_member_names()
        ensures
            "amount"@.len() == 6,
            "receipt"@.len() == 7,
    {
        reveal_strlit("amount");
        reveal_strlit("receipt");
    }

    /// Decoding the encoded value gives the value back.
    pub proof fn lemma_round_trip(self)
        ensures
            Self::of_json(self.to_json()) == Ok::<_, YooKassaErrorView>(self),
    {
        Self::lemma_member_names();
        match self.amount {
            Some(x) => {
                x.lemma_round_trip();
            },
            None => {},
        }
        match self.receipt {
            Some(x) => {
                x.lemma_round_trip();
            },
            None => {},
        }
    }

    /// An optional field that is not set leaves no member in the encoded
    /// object, and one that is set leaves its member.
    pub proof fn lemma_unset_is_omitted(self)
        ensures
            self.amount is None <==> self.to_json().get("amount"@) is None,
            self.receipt is None <==> self.to_json().get("receipt"@) is None,
    {
        Self::lemma_member_names();
    }
}

impl CapturePaymentRequest {
    /// Decodes a value from a JSON document. Members that the type does not
    /// know are passed over.
    pub fn from_json(v: &serde_json::Value) -> (r: Result<CapturePaymentRequest, YooKassaError>)
        ensures
            decoded(r) == CapturePaymentRequestView::of_json(json_view(*v)),
    {
        let amount = Amount::get_opt(v, "amount")?;
        let receipt = Receipt::get_opt(v, "receipt")?;
        Ok(CapturePaymentRequest { amount, receipt })
    }

    /// Encodes the value as a JSON object. An optional field that is not set
    /// leaves no member behind.
    pub fn to_json(&self) -> (r: serde_json::Value)
        ensures
            json_view(r) == self@.to_json(),
    {
        let o = empty_object();
        let o = Amount::put_opt(o, "amount", &self.amount);
        let o = Receipt::put_opt(o, "receipt", &self.receipt);
        o
    }
}
impl Default for CapturePaymentRequest {
    /// A capture of the whole amount, without a receipt.
    fn default() -> (r: CapturePaymentRequest)
        ensures
            r.amount is None,
            r.receipt is None,
    {
        CapturePaymentRequest { amount: None, receipt: None }
    }
}

impl CreatePaymentRequestView {
    /// How many of the three ways to name the payer's instrument are used:
    /// a payment token, a saved payment method, or payment method data.
    pub open spec fn instrument_count(self) -> nat {
        let token: nat = if self.payment_token is Some {
            1
        } else {
            0
        };
        let saved: nat = if self.payment_method_id is Some {
            1
        } else {
            0
        };
        let data: nat = if self.payment_method_data is Some {
            1
        } else {
            0
        };
        token + saved + data
    }

    /// The invariant of a request: a well-formed amount, and at most one way
    /// to name the payer's instrument. With none the gateway lets the payer
    /// choose on its own page.
    pub open spec fn well_formed(self) -> bool {
        self.amount.well_formed() && self.instrument_count() <= 1
    }
}

impl CreatePaymentRequest {
    /// Whether the request keeps its invariant. The client sends a request
    /// as it is: the gateway is the one to refuse it.
    pub fn is_well_formed(&self) -> (r: bool)
        ensures
            r == self@.well_formed(),
    {
        let mut count: u8 = 0;
        if self.payment_token.is_some() {
            count = count + 1;
        }
        if self.payment_method_id.is_some() {
            count = count + 1;
        }
        if self.payment_method_data.is_some() {
            count = count + 1;
        }
        self.amount.is_well_formed() && count <= 1
    }
}

} // verus!
