//! Payments as the gateway reports them, and the states they pass through.

use vstd::prelude::*;
use crate::error::{YooKassaError, YooKassaErrorView};
use crate::fields::{
    bool_at, decoded, decoded_list, decoded_opt, get_bool, get_opt_bool, get_opt_json,
    get_opt_text, get_text, invalid, missing, opt_bool_at, opt_text_at, opt_view, seq_view,
    text_at,
};
use crate::json::{
    as_list, as_text, json_view, json_views, member, opt_json, present_member, JsonView,
};
use crate::amount::{Amount, AmountView};

verus! {

/// The state of a payment. A payment starts as `Pending`, may wait for its
/// capture, and ends as `Succeeded` or `Canceled`.
#[derive(Debug, Clone, PartialEq, Eq, Structural)]
pub enum PaymentStatus {
    Pending,
    WaitingForCapture,
    Succeeded,
    Canceled,
}

impl PaymentStatus {
    /// The status that a wire name stands for. There are four names and no
    /// default.
    pub open spec fn of_name(name: Seq<char>) -> Option<PaymentStatus> {
        if name == "pending"@ {
            Some(PaymentStatus::Pending)
        } else if name == "waiting_for_capture"@ {
            Some(PaymentStatus::WaitingForCapture)
        } else if name == "succeeded"@ {
            Some(PaymentStatus::Succeeded)
        } else if name == "canceled"@ {
            Some(PaymentStatus::Canceled)
        } else {
            None
        }
    }

    /// Whether no further state follows this one.
    pub open spec fn spec_is_terminal(self) -> bool {
        self == PaymentStatus::Succeeded || self == PaymentStatus::Canceled
    }

    /// Whether the gateway's lifecycle lets a payment pass from this state
    /// directly to `next`.
    pub open spec fn spec_can_become(self, next: PaymentStatus) -> bool {
        match (self, next) {
            (PaymentStatus::Pending, PaymentStatus::WaitingForCapture) => true,
            (PaymentStatus::Pending, PaymentStatus::Canceled) => true,
            (PaymentStatus::WaitingForCapture, PaymentStatus::Succeeded) => true,
            (PaymentStatus::WaitingForCapture, PaymentStatus::Canceled) => true,
            _ => false,
        }
    }

    /// Reads a wire name.
    pub fn from_name(name: &String) -> (r: Option<PaymentStatus>)
        ensures
            r == Self::of_name(name@),
    {
        if *name == "pending".to_owned() {
            Some(PaymentStatus::Pending)
        } else if *name == "waiting_for_capture".to_owned() {
            Some(PaymentStatus::WaitingForCapture)
        } else if *name == "succeeded".to_owned() {
            Some(PaymentStatus::Succeeded)
        } else if *name == "canceled".to_owned() {
            Some(PaymentStatus::Canceled)
        } else {
            None
        }
    }

    #[verifier::when_used_as_spec(spec_is_terminal)]
    pub fn is_terminal(self) -> (r: bool)
        ensures
            r == self.spec_is_terminal(),
    {
        match self {
            PaymentStatus::Succeeded => true,
            PaymentStatus::Canceled => true,
            _ => false,
        }
    }

    /// Whether the gateway lets a payment in this state be captured: only
    /// one that waits for its capture.
    pub fn can_be_captured(self) -> (r: bool)
        ensures
            r == self.spec_can_become(PaymentStatus::Succeeded),
            r == (self == PaymentStatus::WaitingForCapture),
    {
        match self {
            PaymentStatus::WaitingForCapture => true,
            _ => false,
        }
    }

    /// Whether the gateway lets a payment in this state be canceled: one
    /// that is pending or waits for its capture.
    pub fn can_be_canceled(self) -> (r: bool)
        ensures
            r == self.spec_can_become(PaymentStatus::Canceled),
            r == !self.spec_is_terminal(),
    {
        match self {
            PaymentStatus::Pending => true,
            PaymentStatus::WaitingForCapture => true,
            _ => false,
        }
    }

    #[verifier::when_used_as_spec(spec_can_become)]
    pub fn can_become(self, next: PaymentStatus) -> (r: bool)
        ensures
            r == self.spec_can_become(next),
    {
        match self {
            PaymentStatus::Pending => match next {
                PaymentStatus::WaitingForCapture => true,
                PaymentStatus::Canceled => true,
                _ => false,
            },
            PaymentStatus::WaitingForCapture => match next {
                PaymentStatus::Succeeded => true,
                PaymentStatus::Canceled => true,
                _ => false,
            },
            _ => false,
        }
    }
}

/// The required status under `key`: a text that is one of the four names.
pub open spec fn status_at(j: JsonView, key: Seq<char>)
    -> Result<PaymentStatus, YooKassaErrorView> {
    match j.get(key) {
        None => Err(YooKassaErrorView::MissingField(key)),
        Some(JsonView::Text(s)) => match PaymentStatus::of_name(s) {
            Some(status) => Ok(status),
            None => Err(YooKassaErrorView::Serde(key)),
        },
        Some(_) => Err(YooKassaErrorView::Serde(key)),
    }
}

/// Decodes the required status under `key`.
pub fn get_status(v: &serde_json::Value, key: &str) -> (r: Result<PaymentStatus, YooKassaError>)
    ensures
        match r {
            Ok(s) => status_at(json_view(*v), key@) == Ok::<_, YooKassaErrorView>(s),
            Err(e) => status_at(json_view(*v), key@) == Err::<PaymentStatus, _>(e@),
        },
{
    match member(v, key) {
        None => Err(missing(key)),
        Some(x) => match as_text(&x) {
            Some(s) => match PaymentStatus::from_name(&s) {
                Some(status) => Ok(status),
                None => Err(invalid(key)),
            },
            None => Err(invalid(key)),
        },
    }
}

/// A terminal state has no successor.
pub proof fn lemma_terminal_states_are_final(s: PaymentStatus, next: PaymentStatus)
    requires
        s.spec_is_terminal(),
    ensures
        !s.spec_can_become(next),
{
}

/// How the payer confirms the payment, as the gateway reports it.
#[derive(Debug, Clone)]
pub struct ConfirmationResponse {
    pub confirmation_type: String,
    pub confirmation_url: Option<String>,
    pub return_url: Option<String>,
    pub enforce: Option<bool>,
    pub locale: Option<String>,
    pub confirmation_data: Option<String>,
}

/// What a [`ConfirmationResponse`] holds, as mathematical values.
pub struct ConfirmationResponseView {
    pub confirmation_type: Seq<char>,
    pub confirmation_url: Option<Seq<char>>,
    pub return_url: Option<Seq<char>>,
    pub enforce: Option<bool>,
    pub locale: Option<Seq<char>>,
    pub confirmation_data: Option<Seq<char>>,
}

impl View for ConfirmationResponse {
    type V = ConfirmationResponseView;

    open spec fn view(&self) -> ConfirmationResponseView {
        ConfirmationResponseView {
            confirmation_type: self.confirmation_type@,
            confirmation_url: opt_view(self.confirmation_url),
            return_url: opt_view(self.return_url),
            enforce: self.enforce,
            locale: opt_view(self.locale),
            confirmation_data: opt_view(self.confirmation_data),
        }
    }
}

impl ConfirmationResponseView {
    /// What a JSON document decodes to: the members in the order of the
    /// fields, the first one that fails deciding the error.
    pub open spec fn of_json(j: JsonView) -> Result<ConfirmationResponseView, YooKassaErrorView> {
        if let Err(e) = text_at(j, "type"@) {
            Err(e)
        } else if let Err(e) = opt_text_at(j, "confirmation_url"@) {
            Err(e)
        } else if let Err(e) = opt_text_at(j, "return_url"@) {
            Err(e)
        } else if let Err(e) = opt_bool_at(j, "enforce"@) {
            Err(e)
        } else if let Err(e) = opt_text_at(j, "locale"@) {
            Err(e)
        } else if let Err(e) = opt_text_at(j, "confirmation_data"@) {
            Err(e)
        } else {
            Ok(
                ConfirmationResponseView {
                    confirmation_type: text_at(j, "type"@)->Ok_0,
                    confirmation_url: opt_text_at(j, "confirmation_url"@)->Ok_0,
                    return_url: opt_text_at(j, "return_url"@)->Ok_0,
                    enforce: opt_bool_at(j, "enforce"@)->Ok_0,
                    locale: opt_text_at(j, "locale"@)->Ok_0,
                    confirmation_data: opt_text_at(j, "confirmation_data"@)->Ok_0,
                },
            )
        }
    }

    /// The optional member under `key`, decoded where it is present.
    pub open spec fn opt_at(j: JsonView, key: Seq<char>) -> Result<
        Option<ConfirmationResponseView>,
        YooKassaErrorView,
    > {
        match j.get_present(key) {
            None => Ok(None),
            Some(x) => match Self::of_json(x) {
                Ok(t) => Ok(Some(t)),
                Err(e) => Err(e),
            },
        }
    }
}

impl ConfirmationResponse {
    /// Decodes a value from a JSON document. Members that the type does not
    /// know are passed over.
    pub fn from_json(v: &serde_json::Value) -> (r: Result<ConfirmationResponse, YooKassaError>)
        ensures
            decoded(r) == ConfirmationResponseView::of_json(json_view(*v)),
    {
        let confirmation_type = get_text(v, "type")?;
        let confirmation_url = get_opt_text(v, "confirmation_url")?;
        let return_url = get_opt_text(v, "return_url")?;
        let enforce = get_opt_bool(v, "enforce")?;
        let locale = get_opt_text(v, "locale")?;
        let confirmation_data = get_opt_text(v, "confirmation_data")?;
        Ok(
            ConfirmationResponse {
                confirmation_type,
                confirmation_url,
                return_url,
                enforce,
                locale,
                confirmation_data,
            },
        )
    }

    /// Decodes the optional member under `key`.
    pub fn get_opt(v: &serde_json::Value, key: &str) -> (r: Result<
        Option<ConfirmationResponse>,
        YooKassaError,
    >)
        ensures
            decoded_opt(r) == ConfirmationResponseView::opt_at(json_view(*v), key@),
    {
        match present_member(v, key) {
            None => Ok(None),
            Some(x) => match Self::from_json(&x) {
                Ok(t) => Ok(Some(t)),
                Err(e) => Err(e),
            },
        }
    }
}

/// Who receives the payment.
#[derive(Debug, Clone)]
pub struct Recipient {
    pub account_id: String,
    pub gateway_id: String,
}

/// What a [`Recipient`] holds, as mathematical values.
pub struct RecipientView {
    pub account_id: Seq<char>,
    pub gateway_id: Seq<char>,
}

impl View for Recipient {
    type V = RecipientView;

    open spec fn view(&self) -> RecipientView {
        RecipientView {
            account_id: self.account_id@,
            gateway_id: self.gateway_id@,
        }
    }
}

impl RecipientView {
    /// What a JSON document decodes to: the members in the order of the
    /// fields, the first one that fails deciding the error.
    pub open spec fn of_json(j: JsonView) -> Result<RecipientView, YooKassaErrorView> {
        if let Err(e) = text_at(j, "account_id"@) {
            Err(e)
        } else if let Err(e) = text_at(j, "gateway_id"@) {
            Err(e)
        } else {
            Ok(
                RecipientView {
                    account_id: text_at(j, "account_id"@)->Ok_0,
                    gateway_id: text_at(j, "gateway_id"@)->Ok_0,
                },
            )
        }
    }

    /// The required member under `key`, decoded.
    pub open spec fn at(j: JsonView, key: Seq<char>) -> Result<RecipientView, YooKassaErrorView> {
        match j.get(key) {
            None => Err(YooKassaErrorView::MissingField(key)),
            Some(x) => Self::of_json(x),
        }
    }
}

impl Recipient {
    /// Decodes a value from a JSON document. Members that the type does not
    /// know are passed over.
    pub fn from_json(v: &serde_json::Value) -> (r: Result<Recipient, YooKassaError>)
        ensures
            decoded(r) == RecipientView::of_json(json_view(*v)),
    {
        let account_id = get_text(v, "account_id")?;
        let gateway_id = get_text(v, "gateway_id")?;
        Ok(Recipient { account_id, gateway_id })
    }

    /// Decodes the required member under `key`.
    pub fn get(v: &serde_json::Value, key: &str) -> (r: Result<Recipient, YooKassaError>)
        ensures
            decoded(r) == RecipientView::at(json_view(*v), key@),
    {
        match member(v, key) {
            None => Err(missing(key)),
            Some(x) => Self::from_json(&x),
        }
    }
}

/// The product of a bank card.
#[derive(Debug, Clone)]
pub struct CardProduct {
    pub code: Option<String>,
    pub name: Option<String>,
}

/// What a [`CardProduct`] holds, as mathematical values.
pub struct CardProductView {
    pub code: Option<Seq<char>>,
    pub name: Option<Seq<char>>,
}

impl View for CardProduct {
    type V = CardProductView;

    open spec fn view(&self) -> CardProductView {
        CardProductView {
            code: opt_view(self.code),
            name: opt_view(self.name),
        }
    }
}

impl CardProductView {
    /// What a JSON document decodes to: the members in the order of the
    /// fields, the first one that fails deciding the error.
    pub open spec fn of_json(j: JsonView) -> Result<CardProductView, YooKassaErrorView> {
        if let Err(e) = opt_text_at(j, "code"@) {
            Err(e)
        } else if let Err(e) = opt_text_at(j, "name"@) {
            Err(e)
        } else {
            Ok(
                CardProductView {
                    code: opt_text_at(j, "code"@)->Ok_0,
                    name: opt_text_at(j, "name"@)->Ok_0,
                },
            )
        }
    }

    /// The optional member under `key`, decoded where it is present.
    pub open spec fn opt_at(j: JsonView, key: Seq<char>) -> Result<
        Option<CardProductView>,
        YooKassaErrorView,
    > {
        match j.get_present(key) {
            None => Ok(None),
            Some(x) => match Self::of_json(x) {
                Ok(t) => Ok(Some(t)),
                Err(e) => Err(e),
            },
        }
    }
}

impl CardProduct {
    /// Decodes a value from a JSON document. Members that the type does not
    /// know are passed over.
    pub fn from_json(v: &serde_json::Value) -> (r: Result<CardProduct, YooKassaError>)
        ensures
            decoded(r) == CardProductView::of_json(json_view(*v)),
    {
        let code = get_opt_text(v, "code")?;
        let name = get_opt_text(v, "name")?;
        Ok(CardProduct { code, name })
    }

    /// Decodes the optional member under `key`.
    pub fn get_opt(v: &serde_json::Value, key: &str) -> (r: Result<
        Option<CardProduct>,
        YooKassaError,
    >)
        ensures
            decoded_opt(r) == CardProductView::opt_at(json_view(*v), key@),
    {
        match present_member(v, key) {
            None => Ok(None),
            Some(x) => match Self::from_json(&x) {
                Ok(t) => Ok(Some(t)),
                Err(e) => Err(e),
            },
        }
    }
}

/// The bank card that was used, as the gateway reports it.
#[derive(Debug, Clone)]
pub struct CardDetails {
    pub first6: Option<String>,
    pub last4: String,
    pub expiry_year: String,
    pub expiry_month: String,
    pub card_type: String,
    pub issuer_country: Option<String>,
    pub issuer_name: Option<String>,
    pub source: Option<String>,
    pub card_product: Option<CardProduct>,
}

/// What a [`CardDetails`] holds, as mathematical values.
pub struct CardDetailsView {
    pub first6: Option<Seq<char>>,
    pub last4: Seq<char>,
    pub expiry_year: Seq<char>,
    pub expiry_month: Seq<char>,
    pub card_type: Seq<char>,
    pub issuer_country: Option<Seq<char>>,
    pub issuer_name: Option<Seq<char>>,
    pub source: Option<Seq<char>>,
    pub card_product: Option<CardProductView>,
}

impl View for CardDetails {
    type V = CardDetailsView;

    open spec fn view(&self) -> CardDetailsView {
        CardDetailsView {
            first6: opt_view(self.first6),
            last4: self.last4@,
            expiry_year: self.expiry_year@,
            expiry_month: self.expiry_month@,
            card_type: self.card_type@,
            issuer_country: opt_view(self.issuer_country),
            issuer_name: opt_view(self.issuer_name),
            source: opt_view(self.source),
            card_product: opt_view(self.card_product),
        }
    }
}

impl CardDetailsView {
    /// What a JSON document decodes to: the members in the order of the
    /// fields, the first one that fails deciding the error.
    pub open spec fn of_json(j: JsonView) -> Result<CardDetailsView, YooKassaErrorView> {
        if let Err(e) = opt_text_at(j, "first6"@) {
            Err(e)
        } else if let Err(e) = text_at(j, "last4"@) {
            Err(e)
        } else if let Err(e) = text_at(j, "expiry_year"@) {
            Err(e)
        } else if let Err(e) = text_at(j, "expiry_month"@) {
            Err(e)
        } else if let Err(e) = text_at(j, "card_type"@) {
            Err(e)
        } else if let Err(e) = opt_text_at(j, "issuer_country"@) {
            Err(e)
        } else if let Err(e) = opt_text_at(j, "issuer_name"@) {
            Err(e)
        } else if let Err(e) = opt_text_at(j, "source"@) {
            Err(e)
        } else if let Err(e) = CardProductView::opt_at(j, "card_product"@) {
            Err(e)
        } else {
            Ok(
                CardDetailsView {
                    first6: opt_text_at(j, "first6"@)->Ok_0,
                    last4: text_at(j, "last4"@)->Ok_0,
                    expiry_year: text_at(j, "expiry_year"@)->Ok_0,
                    expiry_month: text_at(j, "expiry_month"@)->Ok_0,
                    card_type: text_at(j, "card_type"@)->Ok_0,
                    issuer_country: opt_text_at(j, "issuer_country"@)->Ok_0,
                    issuer_name: opt_text_at(j, "issuer_name"@)->Ok_0,
                    source: opt_text_at(j, "source"@)->Ok_0,
                    card_product: CardProductView::opt_at(j, "card_product"@)->Ok_0,
                },
            )
        }
    }

    /// The optional member under `key`, decoded where it is present.
    pub open spec fn opt_at(j: JsonView, key: Seq<char>) -> Result<
        Option<CardDetailsView>,
        YooKassaErrorView,
    > {
        match j.get_present(key) {
            None => Ok(None),
            Some(x) => match Self::of_json(x) {
                Ok(t) => Ok(Some(t)),
                Err(e) => Err(e),
            },
        }
    }
}

impl CardDetails {
    /// Decodes a value from a JSON document. Members that the type does not
    /// know are passed over.
    pub fn from_json(v: &serde_json::Value) -> (r: Result<CardDetails, YooKassaError>)
        ensures
            decoded(r) == CardDetailsView::of_json(json_view(*v)),
    {
        let first6 = get_opt_text(v, "first6")?;
        let last4 = get_text(v, "last4")?;
        let expiry_year = get_text(v, "expiry_year")?;
        let expiry_month = get_text(v, "expiry_month")?;
        let card_type = get_text(v, "card_type")?;
        let issuer_country = get_opt_text(v, "issuer_country")?;
        let issuer_name = get_opt_text(v, "issuer_name")?;
        let source = get_opt_text(v, "source")?;
        let card_product = CardProduct::get_opt(v, "card_product")?;
        Ok(
            CardDetails {
                first6,
                last4,
                expiry_year,
                expiry_month,
                card_type,
                issuer_country,
                issuer_name,
                source,
                card_product,
            },
        )
    }

    /// Decodes the optional member under `key`.
    pub fn get_opt(v: &serde_json::Value, key: &str) -> (r: Result<
        Option<CardDetails>,
        YooKassaError,
    >)
        ensures
            decoded_opt(r) == CardDetailsView::opt_at(json_view(*v), key@),
    {
        match present_member(v, key) {
            None => Ok(None),
            Some(x) => match Self::from_json(&x) {
                Ok(t) => Ok(Some(t)),
                Err(e) => Err(e),
            },
        }
    }
}

/// The payer's bank.
#[derive(Debug, Clone)]
pub struct PayerBankDetails {
    pub bic: Option<String>,
    pub bank_id: Option<String>,
}

/// What a [`PayerBankDetails`] holds, as mathematical values.
pub struct PayerBankDetailsView {
    pub bic: Option<Seq<char>>,
    pub bank_id: Option<Seq<char>>,
}

impl View for PayerBankDetails {
    type V = PayerBankDetailsView;

    open spec fn view(&self) -> PayerBankDetailsView {
        PayerBankDetailsView {
            bic: opt_view(self.bic),
            bank_id: opt_view(self.bank_id),
        }
    }
}

impl PayerBankDetailsView {
    /// What a JSON document decodes to: the members in the order of the
    /// fields, the first one that fails deciding the error.
    pub open spec fn of_json(j: JsonView) -> Result<PayerBankDetailsView, YooKassaErrorView> {
        if let Err(e) = opt_text_at(j, "bic"@) {
            Err(e)
        } else if let Err(e) = opt_text_at(j, "bank_id"@) {
            Err(e)
        } else {
            Ok(
                PayerBankDetailsView {
                    bic: opt_text_at(j, "bic"@)->Ok_0,
                    bank_id: opt_text_at(j, "bank_id"@)->Ok_0,
                },
            )
        }
    }

    /// The optional member under `key`, decoded where it is present.
    pub open spec fn opt_at(j: JsonView, key: Seq<char>) -> Result<
        Option<PayerBankDetailsView>,
        YooKassaErrorView,
    > {
        match j.get_present(key) {
            None => Ok(None),
            Some(x) => match Self::of_json(x) {
                Ok(t) => Ok(Some(t)),
                Err(e) => Err(e),
            },
        }
    }
}

impl PayerBankDetails {
    /// Decodes a value from a JSON document. Members that the type does not
    /// know are passed over.
    pub fn from_json(v: &serde_json::Value) -> (r: Result<PayerBankDetails, YooKassaError>)
        ensures
            decoded(r) == PayerBankDetailsView::of_json(json_view(*v)),
    {
        let bic = get_opt_text(v, "bic")?;
        let bank_id = get_opt_text(v, "bank_id")?;
        Ok(PayerBankDetails { bic, bank_id })
    }

    /// Decodes the optional member under `key`.
    pub fn get_opt(v: &serde_json::Value, key: &str) -> (r: Result<
        Option<PayerBankDetails>,
        YooKassaError,
    >)
        ensures
            decoded_opt(r) == PayerBankDetailsView::opt_at(json_view(*v), key@),
    {
        match present_member(v, key) {
            None => Ok(None),
            Some(x) => match Self::from_json(&x) {
                Ok(t) => Ok(Some(t)),
                Err(e) => Err(e),
            },
        }
    }
}

/// The payment method that was used, as the gateway reports it.
#[derive(Debug, Clone)]
pub struct PaymentMethod {
    pub payment_method_type: String,
    pub id: String,
    pub saved: bool,
    pub title: Option<String>,
    pub card: Option<CardDetails>,
    pub login: Option<String>,
    pub phone: Option<String>,
    pub sbp_operation_id: Option<String>,
    pub payer_bank_details: Option<PayerBankDetails>,
}

/// What a [`PaymentMethod`] holds, as mathematical values.
pub struct PaymentMethodView {
    pub payment_method_type: Seq<char>,
    pub id: Seq<char>,
    pub saved: bool,
    pub title: Option<Seq<char>>,
    pub card: Option<CardDetailsView>,
    pub login: Option<Seq<char>>,
    pub phone: Option<Seq<char>>,
    pub sbp_operation_id: Option<Seq<char>>,
    pub payer_bank_details: Option<PayerBankDetailsView>,
}

impl View for PaymentMethod {
    type V = PaymentMethodView;

    open spec fn view(&self) -> PaymentMethodView {
        PaymentMethodView {
            payment_method_type: self.payment_method_type@,
            id: self.id@,
            saved: self.saved,
            title: opt_view(self.title),
            card: opt_view(self.card),
            login: opt_view(self.login),
            phone: opt_view(self.phone),
            sbp_operation_id: opt_view(self.sbp_operation_id),
            payer_bank_details: opt_view(self.payer_bank_details),
        }
    }
}

impl PaymentMethodView {
    /// What a JSON document decodes to: the members in the order of the
    /// fields, the first one that fails deciding the error.
    pub open spec fn of_json(j: JsonView) -> Result<PaymentMethodView, YooKassaErrorView> {
        if let Err(e) = text_at(j, "type"@) {
            Err(e)
        } else if let Err(e) = text_at(j, "id"@) {
            Err(e)
        } else if let Err(e) = bool_at(j, "saved"@) {
            Err(e)
        } else if let Err(e) = opt_text_at(j, "title"@) {
            Err(e)
        } else if let Err(e) = CardDetailsView::opt_at(j, "card"@) {
            Err(e)
        } else if let Err(e) = opt_text_at(j, "login"@) {
            Err(e)
        } else if let Err(e) = opt_text_at(j, "phone"@) {
            Err(e)
        } else if let Err(e) = opt_text_at(j, "sbp_operation_id"@) {
            Err(e)
        } else if let Err(e) = PayerBankDetailsView::opt_at(j, "payer_bank_details"@) {
            Err(e)
        } else {
            Ok(
                PaymentMethodView {
                    payment_method_type: text_at(j, "type"@)->Ok_0,
                    id: text_at(j, "id"@)->Ok_0,
                    saved: bool_at(j, "saved"@)->Ok_0,
                    title: opt_text_at(j, "title"@)->Ok_0,
                    card: CardDetailsView::opt_at(j, "card"@)->Ok_0,
                    login: opt_text_at(j, "login"@)->Ok_0,
                    phone: opt_text_at(j, "phone"@)->Ok_0,
                    sbp_operation_id: opt_text_at(j, "sbp_operation_id"@)->Ok_0,
                    payer_bank_details:
                        PayerBankDetailsView::opt_at(j, "payer_bank_details"@)->Ok_0,
                },
            )
        }
    }

    /// The optional member under `key`, decoded where it is present.
    pub open spec fn opt_at(j: JsonView, key: Seq<char>) -> Result<
        Option<PaymentMethodView>,
        YooKassaErrorView,
    > {
        match j.get_present(key) {
            None => Ok(None),
            Some(x) => match Self::of_json(x) {
                Ok(t) => Ok(Some(t)),
                Err(e) => Err(e),
            },
        }
    }
}

impl PaymentMethod {
    /// Decodes a value from a JSON document. Members that the type does not
    /// know are passed over.
    pub fn from_json(v: &serde_json::Value) -> (r: Result<PaymentMethod, YooKassaError>)
        ensures
            decoded(r) == PaymentMethodView::of_json(json_view(*v)),
    {
        let payment_method_type = get_text(v, "type")?;
        let id = get_text(v, "id")?;
        let saved = get_bool(v, "saved")?;
        let title = get_opt_text(v, "title")?;
        let card = CardDetails::get_opt(v, "card")?;
        let login = get_opt_text(v, "login")?;
        let phone = get_opt_text(v, "phone")?;
        let sbp_operation_id = get_opt_text(v, "sbp_operation_id")?;
        let payer_bank_details = PayerBankDetails::get_opt(v, "payer_bank_details")?;
        Ok(
            PaymentMethod {
                payment_method_type,
                id,
                saved,
                title,
                card,
                login,
                phone,
                sbp_operation_id,
                payer_bank_details,
            },
        )
    }

    /// Decodes the optional member under `key`.
    pub fn get_opt(v: &serde_json::Value, key: &str) -> (r: Result<
        Option<PaymentMethod>,
        YooKassaError,
    >)
        ensures
            decoded_opt(r) == PaymentMethodView::opt_at(json_view(*v), key@),
    {
        match present_member(v, key) {
            None => Ok(None),
            Some(x) => match Self::from_json(&x) {
                Ok(t) => Ok(Some(t)),
                Err(e) => Err(e),
            },
        }
    }
}

/// Who canceled a payment, and why.
#[derive(Debug, Clone)]
pub struct CancellationDetails {
    pub party: String,
    pub reason: String,
}

/// What a [`CancellationDetails`] holds, as mathematical values.
pub struct CancellationDetailsView {
    pub party: Seq<char>,
    pub reason: Seq<char>,
}

impl View for CancellationDetails {
    type V = CancellationDetailsView;

    open spec fn view(&self) -> CancellationDetailsView {
        CancellationDetailsView {
            party: self.party@,
            reason: self.reason@,
        }
    }
}

impl CancellationDetailsView {
    /// What a JSON document decodes to: the members in the order of the
    /// fields, the first one that fails deciding the error.
    pub open spec fn of_json(j: JsonView) -> Result<CancellationDetailsView, YooKassaErrorView> {
        if let Err(e) = text_at(j, "party"@) {
            Err(e)
        } else if let Err(e) = text_at(j, "reason"@) {
            Err(e)
        } else {
            Ok(
                CancellationDetailsView {
                    party: text_at(j, "party"@)->Ok_0,
                    reason: text_at(j, "reason"@)->Ok_0,
                },
            )
        }
    }

    /// The optional member under `key`, decoded where it is present.
    pub open spec fn opt_at(j: JsonView, key: Seq<char>) -> Result<
        Option<CancellationDetailsView>,
        YooKassaErrorView,
    > {
        match j.get_present(key) {
            None => Ok(None),
            Some(x) => match Self::of_json(x) {
                Ok(t) => Ok(Some(t)),
                Err(e) => Err(e),
            },
        }
    }
}

impl CancellationDetails {
    /// Decodes a value from a JSON document. Members that the type does not
    /// know are passed over.
    pub fn from_json(v: &serde_json::Value) -> (r: Result<CancellationDetails, YooKassaError>)
        ensures
            decoded(r) == CancellationDetailsView::of_json(json_view(*v)),
    {
        let party = get_text(v, "party")?;
        let reason = get_text(v, "reason")?;
        Ok(CancellationDetails { party, reason })
    }

    /// Decodes the optional member under `key`.
    pub fn get_opt(v: &serde_json::Value, key: &str) -> (r: Result<
        Option<CancellationDetails>,
        YooKassaError,
    >)
        ensures
            decoded_opt(r) == CancellationDetailsView::opt_at(json_view(*v), key@),
    {
        match present_member(v, key) {
            None => Ok(None),
            Some(x) => match Self::from_json(&x) {
                Ok(t) => Ok(Some(t)),
                Err(e) => Err(e),
            },
        }
    }
}

/// Whether 3-D Secure was applied.
#[derive(Debug, Clone)]
pub struct ThreeDSecure {
    pub applied: bool,
    pub method_relevant: Option<bool>,
}

/// What a [`ThreeDSecure`] holds, as mathematical values.
pub struct ThreeDSecureView {
    pub applied: bool,
    pub method_relevant: Option<bool>,
}

impl View for ThreeDSecure {
    type V = ThreeDSecureView;

    open spec fn view(&self) -> ThreeDSecureView {
        ThreeDSecureView {
            applied: self.applied,
            method_relevant: self.method_relevant,
        }
    }
}

impl ThreeDSecureView {
    /// What a JSON document decodes to: the members in the order of the
    /// fields, the first one that fails deciding the error.
    pub open spec fn of_json(j: JsonView) -> Result<ThreeDSecureView, YooKassaErrorView> {
        if let Err(e) = bool_at(j, "applied"@) {
            Err(e)
        } else if let Err(e) = opt_bool_at(j, "method_relevant"@) {
            Err(e)
        } else {
            Ok(
                ThreeDSecureView {
                    applied: bool_at(j, "applied"@)->Ok_0,
                    method_relevant: opt_bool_at(j, "method_relevant"@)->Ok_0,
                },
            )
        }
    }

    /// The optional member under `key`, decoded where it is present.
    pub open spec fn opt_at(j: JsonView, key: Seq<char>) -> Result<
        Option<ThreeDSecureView>,
        YooKassaErrorView,
    > {
        match j.get_present(key) {
            None => Ok(None),
            Some(x) => match Self::of_json(x) {
                Ok(t) => Ok(Some(t)),
                Err(e) => Err(e),
            },
        }
    }
}

impl ThreeDSecure {
    /// Decodes a value from a JSON document. Members that the type does not
    /// know are passed over.
    pub fn from_json(v: &serde_json::Value) -> (r: Result<ThreeDSecure, YooKassaError>)
        ensures
            decoded(r) == ThreeDSecureView::of_json(json_view(*v)),
    {
        let applied = get_bool(v, "applied")?;
        let method_relevant = get_opt_bool(v, "method_relevant")?;
        Ok(ThreeDSecure { applied, method_relevant })
    }

    /// Decodes the optional member under `key`.
    pub fn get_opt(v: &serde_json::Value, key: &str) -> (r: Result<
        Option<ThreeDSecure>,
        YooKassaError,
    >)
        ensures
            decoded_opt(r) == ThreeDSecureView::opt_at(json_view(*v), key@),
    {
        match present_member(v, key) {
            None => Ok(None),
            Some(x) => match Self::from_json(&x) {
                Ok(t) => Ok(Some(t)),
                Err(e) => Err(e),
            },
        }
    }
}

/// How the payment was authorized.
#[derive(Debug, Clone)]
pub struct AuthorizationDetails {
    pub rrn: Option<String>,
    pub auth_code: Option<String>,
    pub three_d_secure: Option<ThreeDSecure>,
}

/// What a [`AuthorizationDetails`] holds, as mathematical values.
pub struct AuthorizationDetailsView {
    pub rrn: Option<Seq<char>>,
    pub auth_code: Option<Seq<char>>,
    pub three_d_secure: Option<ThreeDSecureView>,
}

impl View for AuthorizationDetails {
    type V = AuthorizationDetailsView;

    open spec fn view(&self) -> AuthorizationDetailsView {
        AuthorizationDetailsView {
            rrn: opt_view(self.rrn),
            auth_code: opt_view(self.auth_code),
            three_d_secure: opt_view(self.three_d_secure),
        }
    }
}

impl AuthorizationDetailsView {
    /// What a JSON document decodes to: the members in the order of the
    /// fields, the first one that fails deciding the error.
    pub open spec fn of_json(j: JsonView) -> Result<AuthorizationDetailsView, YooKassaErrorView> {
        if let Err(e) = opt_text_at(j, "rrn"@) {
            Err(e)
        } else if let Err(e) = opt_text_at(j, "auth_code"@) {
            Err(e)
        } else if let Err(e) = ThreeDSecureView::opt_at(j, "three_d_secure"@) {
            Err(e)
        } else {
            Ok(
                AuthorizationDetailsView {
                    rrn: opt_text_at(j, "rrn"@)->Ok_0,
                    auth_code: opt_text_at(j, "auth_code"@)->Ok_0,
                    three_d_secure: ThreeDSecureView::opt_at(j, "three_d_secure"@)->Ok_0,
                },
            )
        }
    }

    /// The optional member under `key`, decoded where it is present.
    pub open spec fn opt_at(j: JsonView, key: Seq<char>) -> Result<
        Option<AuthorizationDetailsView>,
        YooKassaErrorView,
    > {
        match j.get_present(key) {
            None => Ok(None),
            Some(x) => match Self::of_json(x) {
                Ok(t) => Ok(Some(t)),
                Err(e) => Err(e),
            },
        }
    }
}

impl AuthorizationDetails {
    /// Decodes a value from a JSON document. Members that the type does not
    /// know are passed over.
    pub fn from_json(v: &serde_json::Value) -> (r: Result<AuthorizationDetails, YooKassaError>)
        ensures
            decoded(r) == AuthorizationDetailsView::of_json(json_view(*v)),
    {
        let rrn = get_opt_text(v, "rrn")?;
        let auth_code = get_opt_text(v, "auth_code")?;
        let three_d_secure = ThreeDSecure::get_opt(v, "three_d_secure")?;
        Ok(AuthorizationDetails { rrn, auth_code, three_d_secure })
    }

    /// Decodes the optional member under `key`.
    pub fn get_opt(v: &serde_json::Value, key: &str) -> (r: Result<
        Option<AuthorizationDetails>,
        YooKassaError,
    >)
        ensures
            decoded_opt(r) == AuthorizationDetailsView::opt_at(json_view(*v), key@),
    {
        match present_member(v, key) {
            None => Ok(None),
            Some(x) => match Self::from_json(&x) {
                Ok(t) => Ok(Some(t)),
                Err(e) => Err(e),
            },
        }
    }
}

/// A snapshot of a payment as the gateway reports it.
#[derive(Debug, Clone)]
pub struct Payment {
    pub id: String,
    pub status: PaymentStatus,
    pub amount: Amount,
    pub income_amount: Option<Amount>,
    pub description: Option<String>,
    pub recipient: Recipient,
    pub payment_method: Option<PaymentMethod>,
    pub captured_at: Option<String>,
    pub created_at: String,
    pub expires_at: Option<String>,
    pub confirmation: Option<ConfirmationResponse>,
    pub test: bool,
    pub paid: bool,
    pub refundable: bool,
    pub refunded_amount: Option<Amount>,
    pub receipt_registration: Option<String>,
    pub metadata: Option<serde_json::Value>,
    pub cancellation_details: Option<CancellationDetails>,
    pub authorization_details: Option<AuthorizationDetails>,
}

/// What a [`Payment`] holds, as mathematical values.
pub struct PaymentView {
    pub id: Seq<char>,
    pub status: PaymentStatus,
    pub amount: AmountView,
    pub income_amount: Option<AmountView>,
    pub description: Option<Seq<char>>,
    pub recipient: RecipientView,
    pub payment_method: Option<PaymentMethodView>,
    pub captured_at: Option<Seq<char>>,
    pub created_at: Seq<char>,
    pub expires_at: Option<Seq<char>>,
    pub confirmation: Option<ConfirmationResponseView>,
    pub test: bool,
    pub paid: bool,
    pub refundable: bool,
    pub refunded_amount: Option<AmountView>,
    pub receipt_registration: Option<Seq<char>>,
    pub metadata: Option<JsonView>,
    pub cancellation_details: Option<CancellationDetailsView>,
    pub authorization_details: Option<AuthorizationDetailsView>,
}

impl View for Payment {
    type V = PaymentView;

    open spec fn view(&self) -> PaymentView {
        PaymentView {
            id: self.id@,
            status: self.status,
            amount: self.amount@,
            income_amount: opt_view(self.income_amount),
            description: opt_view(self.description),
            recipient: self.recipient@,
            payment_method: opt_view(self.payment_method),
            captured_at: opt_view(self.captured_at),
            created_at: self.created_at@,
            expires_at: opt_view(self.expires_at),
            confirmation: opt_view(self.confirmation),
            test: self.test,
            paid: self.paid,
            refundable: self.refundable,
            refunded_amount: opt_view(self.refunded_amount),
            receipt_registration: opt_view(self.receipt_registration),
            metadata: opt_json(self.metadata),
            cancellation_details: opt_view(self.cancellation_details),
            authorization_details: opt_view(self.authorization_details),
        }
    }
}

impl PaymentView {
    /// What a JSON document decodes to: the members in the order of the
    /// fields, the first one that fails deciding the error.
    pub open spec fn of_json(j: JsonView) -> Result<PaymentView, YooKassaErrorView> {
        if let Err(e) = text_at(j, "id"@) {
            Err(e)
        } else if let Err(e) = status_at(j, "status"@) {
            Err(e)
        } else if let Err(e) = AmountView::at(j, "amount"@) {
            Err(e)
        } else if let Err(e) = AmountView::opt_at(j, "income_amount"@) {
            Err(e)
        } else if let Err(e) = opt_text_at(j, "description"@) {
            Err(e)
        } else if let Err(e) = RecipientView::at(j, "recipient"@) {
            Err(e)
        } else if let Err(e) = PaymentMethodView::opt_at(j, "payment_method"@) {
            Err(e)
        } else if let Err(e) = opt_text_at(j, "captured_at"@) {
            Err(e)
        } else if let Err(e) = text_at(j, "created_at"@) {
            Err(e)
        } else if let Err(e) = opt_text_at(j, "expires_at"@) {
            Err(e)
        } else if let Err(e) = ConfirmationResponseView::opt_at(j, "confirmation"@) {
            Err(e)
        } else if let Err(e) = bool_at(j, "test"@) {
            Err(e)
        } else if let Err(e) = bool_at(j, "paid"@) {
            Err(e)
        } else if let Err(e) = bool_at(j, "refundable"@) {
            Err(e)
        } else if let Err(e) = AmountView::opt_at(j, "refunded_amount"@) {
            Err(e)
        } else if let Err(e) = opt_text_at(j, "receipt_registration"@) {
            Err(e)
        } else if let Err(e) = CancellationDetailsView::opt_at(j, "cancellation_details"@) {
            Err(e)
        } else if let Err(e) = AuthorizationDetailsView::opt_at(j, "authorization_details"@) {
            Err(e)
        } else {
            Ok(
                PaymentView {
                    id: text_at(j, "id"@)->Ok_0,
                    status: status_at(j, "status"@)->Ok_0,
                    amount: AmountView::at(j, "amount"@)->Ok_0,
                    income_amount: AmountView::opt_at(j, "income_amount"@)->Ok_0,
                    description: opt_text_at(j, "description"@)->Ok_0,
                    recipient: RecipientView::at(j, "recipient"@)->Ok_0,
                    payment_method: PaymentMethodView::opt_at(j, "payment_method"@)->Ok_0,
                    captured_at: opt_text_at(j, "captured_at"@)->Ok_0,
                    created_at: text_at(j, "created_at"@)->Ok_0,
                    expires_at: opt_text_at(j, "expires_at"@)->Ok_0,
                    confirmation: ConfirmationResponseView::opt_at(j, "confirmation"@)->Ok_0,
                    test: bool_at(j, "test"@)->Ok_0,
                    paid: bool_at(j, "paid"@)->Ok_0,
                    refundable: bool_at(j, "refundable"@)->Ok_0,
                    refunded_amount: AmountView::opt_at(j, "refunded_amount"@)->Ok_0,
                    receipt_registration: opt_text_at(j, "receipt_registration"@)->Ok_0,
                    metadata: j.get_present("metadata"@),
                    cancellation_details:
                        CancellationDetailsView::opt_at(j, "cancellation_details"@)->Ok_0,
                    authorization_details:
                        AuthorizationDetailsView::opt_at(j, "authorization_details"@)->Ok_0,
                },
            )
        }
    }

    /// The elements decoded in their order; the first that fails decides the
    /// error.
    pub open spec fn list_of(items: Seq<JsonView>) -> Result<Seq<PaymentView>, YooKassaErrorView>
        decreases items.len(),
    {
        if items.len() == 0 {
            Ok(Seq::empty())
        } else {
            match Self::list_of(items.drop_last()) {
                Err(e) => Err(e),
                Ok(front) => match Self::of_json(items.last()) {
                    Err(e) => Err(e),
                    Ok(t) => Ok(front.push(t)),
                },
            }
        }
    }

    /// The required array under `key`, decoded.
    pub open spec fn list_at(j: JsonView, key: Seq<char>)
        -> Result<Seq<PaymentView>, YooKassaErrorView> {
        match j.get(key) {
            None => Err(YooKassaErrorView::MissingField(key)),
            Some(JsonView::List(items)) => Self::list_of(items),
            Some(_) => Err(YooKassaErrorView::Serde(key)),
        }
    }

    /// An error among the first `n` elements is the error of the whole array.
    pub proof fn lemma_list_of_prefix(items: Seq<JsonView>, n: int)
        requires
            0 <= n <= items.len(),
            Self::list_of(items.take(n)) is Err,
        ensures
            Self::list_of(items) == Self::list_of(items.take(n)),
        decreases items.len(),
    {
        if n < items.len() {
            assert(items.drop_last().take(n) =~= items.take(n));
            Self::lemma_list_of_prefix(items.drop_last(), n);
        } else {
            assert(items.take(n) =~= items);
        }
    }
}

impl Payment {
    /// Decodes a value from a JSON document. Members that the type does not
    /// know are passed over.
    pub fn from_json(v: &serde_json::Value) -> (r: Result<Payment, YooKassaError>)
        ensures
            decoded(r) == PaymentView::of_json(json_view(*v)),
    {
        let id = get_text(v, "id")?;
        let status = get_status(v, "status")?;
        let amount = Amount::get(v, "amount")?;
        let income_amount = Amount::get_opt(v, "income_amount")?;
        let description = get_opt_text(v, "description")?;
        let recipient = Recipient::get(v, "recipient")?;
        let payment_method = PaymentMethod::get_opt(v, "payment_method")?;
        let captured_at = get_opt_text(v, "captured_at")?;
        let created_at = get_text(v, "created_at")?;
        let expires_at = get_opt_text(v, "expires_at")?;
        let confirmation = ConfirmationResponse::get_opt(v, "confirmation")?;
        let test = get_bool(v, "test")?;
        let paid = get_bool(v, "paid")?;
        let refundable = get_bool(v, "refundable")?;
        let refunded_amount = Amount::get_opt(v, "refunded_amount")?;
        let receipt_registration = get_opt_text(v, "receipt_registration")?;
        let metadata = get_opt_json(v, "metadata");
        let cancellation_details = CancellationDetails::get_opt(v, "cancellation_details")?;
        let authorization_details = AuthorizationDetails::get_opt(v, "authorization_details")?;
        Ok(
            Payment {
                id,
                status,
                amount,
                income_amount,
                description,
                recipient,
                payment_method,
                captured_at,
                created_at,
                expires_at,
                confirmation,
                test,
                paid,
                refundable,
                refunded_amount,
                receipt_registration,
                metadata,
                cancellation_details,
                authorization_details,
            },
        )
    }

    /// Decodes the elements of an array in their order.
    pub fn list_from_json(items: &Vec<serde_json::Value>)
        -> (r: Result<Vec<Payment>, YooKassaError>)
        ensures
            decoded_list(r) == PaymentView::list_of(json_views(items@)),
    {
        let ghost js = json_views(items@);
        let mut out: Vec<Payment> = Vec::new();
        let mut i: usize = 0;
        proof {
            assert(seq_view(out@) =~= Seq::<PaymentView>::empty());
        }
        while i < items.len()
            invariant
                i <= items.len(),
                js == json_views(items@),
                PaymentView::list_of(js.take(i as int))
                    == Ok::<_, YooKassaErrorView>(seq_view(out@)),
            decreases items.len() - i,
        {
            proof {
                assert(js.take(i + 1).drop_last() =~= js.take(i as int));
                assert(js.take(i + 1).last() == json_view(items@[i as int]));
            }
            match Self::from_json(&items[i]) {
                Err(e) => {
                    proof {
                        PaymentView::lemma_list_of_prefix(js, i + 1);
                    }
                    return Err(e);
                },
                Ok(t) => {
                    proof {
                        assert(seq_view(out@.push(t)) =~= seq_view(out@).push(t@));
                    }
                    out.push(t);
                },
            }
            i += 1;
        }
        proof {
            assert(js.take(i as int) =~= js);
        }
        Ok(out)
    }

    /// Decodes the required array under `key`.
    pub fn get_list(v: &serde_json::Value, key: &str) -> (r: Result<Vec<Payment>, YooKassaError>)
        ensures
            decoded_list(r) == PaymentView::list_at(json_view(*v), key@),
    {
        match member(v, key) {
            None => Err(missing(key)),
            Some(x) => match as_list(&x) {
                Some(items) => Self::list_from_json(&items),
                None => Err(invalid(key)),
            },
        }
    }
}

/// One page of payments, with the cursor of the next page where there is one.
#[derive(Debug, Clone)]
pub struct PaymentList {
    pub list_type: String,
    pub items: Vec<Payment>,
    pub next_cursor: Option<String>,
}

/// What a [`PaymentList`] holds, as mathematical values.
pub struct PaymentListView {
    pub list_type: Seq<char>,
    pub items: Seq<PaymentView>,
    pub next_cursor: Option<Seq<char>>,
}

impl View for PaymentList {
    type V = PaymentListView;

    open spec fn view(&self) -> PaymentListView {
        PaymentListView {
            list_type: self.list_type@,
            items: seq_view(self.items@),
            next_cursor: opt_view(self.next_cursor),
        }
    }
}

impl PaymentListView {
    /// What a JSON document decodes to: the members in the order of the
    /// fields, the first one that fails deciding the error.
    pub open spec fn of_json(j: JsonView) -> Result<PaymentListView, YooKassaErrorView> {
        if let Err(e) = text_at(j, "type"@) {
            Err(e)
        } else if let Err(e) = PaymentView::list_at(j, "items"@) {
            Err(e)
        } else if let Err(e) = opt_text_at(j, "next_cursor"@) {
            Err(e)
        } else {
            Ok(
                PaymentListView {
                    list_type: text_at(j, "type"@)->Ok_0,
                    items: PaymentView::list_at(j, "items"@)->Ok_0,
                    next_cursor: opt_text_at(j, "next_cursor"@)->Ok_0,
                },
            )
        }
    }
}

impl PaymentList {
    /// Decodes a value from a JSON document. Members that the type does not
    /// know are passed over.
    pub fn from_json(v: &serde_json::Value) -> (r: Result<PaymentList, YooKassaError>)
        ensures
            decoded(r) == PaymentListView::of_json(json_view(*v)),
    {
        let list_type = get_text(v, "type")?;
        let items = Payment::get_list(v, "items")?;
        let next_cursor = get_opt_text(v, "next_cursor")?;
        Ok(PaymentList { list_type, items, next_cursor })
    }
}
impl PaymentList {
    /// Whether the gateway holds further pages: it does exactly when it sent
    /// a cursor, whatever the page itself holds.
    pub fn has_more_pages(&self) -> (r: bool)
        ensures
            r == (self.next_cursor is Some),
    {
        self.next_cursor.is_some()
    }
}

/// The members that every payment must hold.
pub open spec fn is_required_payment_member(key: Seq<char>) -> bool {
    key == "id"@ || key == "status"@ || key == "amount"@ || key == "recipient"@ || key
        == "created_at"@ || key == "test"@ || key == "paid"@ || key == "refundable"@
}

/// A document that lacks one of the required members decodes to no payment.
pub proof fn lemma_payment_needs_required_members(j: JsonView, key: Seq<char>)
    requires
        is_required_payment_member(key),
        j.get(key) is None,
    ensures
        PaymentView::of_json(j) is Err,
{
}

/// A document with an identifier and without a status is refused for the
/// missing status.
pub proof fn lemma_payment_without_status(j: JsonView)
    requires
        j.get("id"@) matches Some(JsonView::Text(_)),
        j.get("status"@) is None,
    ensures
        PaymentView::of_json(j) == Err::<PaymentView, _>(
            YooKassaErrorView::MissingField("status"@),
        ),
{
}

/// A status of another name than the four is refused, not replaced.
pub proof fn lemma_payment_with_unknown_status(j: JsonView, name: Seq<char>)
    requires
        j.get("id"@) matches Some(JsonView::Text(_)),
        j.get("status"@) == Some(JsonView::Text(name)),
        PaymentStatus::of_name(name) is None,
    ensures
        PaymentView::of_json(j) == Err::<PaymentView, _>(YooKassaErrorView::Serde("status"@)),
{
}

/// Whether a decoded page reports further pages depends on the cursor
/// alone: a page without payments may have successors, and a page with
/// payments may be the last.
pub proof fn lemma_cursor_decides_more_pages(j: JsonView, page: PaymentListView)
    requires
        PaymentListView::of_json(j) == Ok::<_, YooKassaErrorView>(page),
    ensures
        page.next_cursor is Some <==> j.get_present("next_cursor"@) is Some,
{
}

} // verus!
