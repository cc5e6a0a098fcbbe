//! Fiscal receipts.

use vstd::prelude::*;
use crate::error::{YooKassaError, YooKassaErrorView};
use crate::fields::{
    decoded, decoded_list, decoded_opt, decoded_opt_list, get_int, get_opt_int, get_opt_text,
    get_text, int_at, int_json, invalid, missing, opt_int_at, opt_int_json, opt_seq_view,
    opt_text_at, opt_view, seq_view, text_at, text_json, with_int, with_opt_int, with_opt_text,
    with_text,
};
use crate::json::{
    as_list, empty_object, json_view, json_views, list_value, member, present_member, with_member,
    JsonView,
};
use crate::amount::{Amount, AmountView};

verus! {

/// The customer named on a receipt.
#[derive(Debug, Clone)]
pub struct ReceiptCustomer {
    pub full_name: Option<String>,
    pub inn: Option<String>,
    pub email: Option<String>,
    pub phone: Option<String>,
}

/// What a [`ReceiptCustomer`] holds, as mathematical values.
pub struct ReceiptCustomerView {
    pub full_name: Option<Seq<char>>,
    pub inn: Option<Seq<char>>,
    pub email: Option<Seq<char>>,
    pub phone: Option<Seq<char>>,
}

impl View for ReceiptCustomer {
    type V = ReceiptCustomerView;

    open spec fn view(&self) -> ReceiptCustomerView {
        ReceiptCustomerView {
            full_name: opt_view(self.full_name),
            inn: opt_view(self.inn),
            email: opt_view(self.email),
            phone: opt_view(self.phone),
        }
    }
}

impl ReceiptCustomerView {
    /// What a JSON document decodes to: the members in the order of the
    /// fields, the first one that fails deciding the error.
    pub open spec fn of_json(j: JsonView) -> Result<ReceiptCustomerView, YooKassaErrorView> {
        if let Err(e) = opt_text_at(j, "full_name"@) {
            Err(e)
        } else if let Err(e) = opt_text_at(j, "inn"@) {
            Err(e)
        } else if let Err(e) = opt_text_at(j, "email"@) {
            Err(e)
        } else if let Err(e) = opt_text_at(j, "phone"@) {
            Err(e)
        } else {
            Ok(
                ReceiptCustomerView {
                    full_name: opt_text_at(j, "full_name"@)->Ok_0,
                    inn: opt_text_at(j, "inn"@)->Ok_0,
                    email: opt_text_at(j, "email"@)->Ok_0,
                    phone: opt_text_at(j, "phone"@)->Ok_0,
                },
            )
        }
    }

    /// The optional member under `key`, decoded where it is present.
    pub open spec fn opt_at(j: JsonView, key: Seq<char>) -> Result<
        Option<ReceiptCustomerView>,
        YooKassaErrorView,
    > {
        match j.get_present(key) {
            None => Ok(None),
            Some(x) => match Self::of_json(x) {
                Ok(t) => Ok(Some(t)),
                Err(e) => Err(e),
            },
        }
    }

    /// The JSON object that stands for this value: every required member, and
    /// each optional member that is set.
    pub open spec fn to_json(self) -> JsonView {
        JsonView::empty_object()
            .with_opt("full_name"@, text_json(self.full_name))
            .with_opt("inn"@, text_json(self.inn))
            .with_opt("email"@, text_json(self.email))
            .with_opt("phone"@, text_json(self.phone))
    }

    pub open spec fn opt_to_json(o: Option<ReceiptCustomerView>) -> Option<JsonView> {
        match o {
            Some(t) => Some(t.to_json()),
            None => None,
        }
    }

    /// What tells the names of the members apart: their lengths and, where
    /// two are of one length, a character.
    proof fn lemma_member_names()
        ensures
            "full_name"@.len() == 9,
            "inn"@.len() == 3,
            "email"@.len() == 5,
            "phone"@.len() == 5,
            "email"@[0] == 'e',
            "phone"@[0] == 'p',
    {
        reveal_strlit("full_name");
        reveal_strlit("inn");
        reveal_strlit("email");
        reveal_strlit("phone");
    }

    /// Decoding the encoded value gives the value back.
    pub proof fn lemma_round_trip(self)
        ensures
            Self::of_json(self.to_json()) == Ok::<_, YooKassaErrorView>(self),
    {
        Self::lemma_member_names();
    }

    /// An optional field that is not set leaves no member in the encoded
    /// object, and one that is set leaves its member.
    pub proof fn lemma_unset_is_omitted(self)
        ensures
            self.full_name is None <==> self.to_json().get("full_name"@) is None,
            self.inn is None <==> self.to_json().get("inn"@) is None,
            self.email is None <==> self.to_json().get("email"@) is None,
            self.phone is None <==> self.to_json().get("phone"@) is None,
    {
        Self::lemma_member_names();
    }
}

impl ReceiptCustomer {
    /// Decodes a value from a JSON document. Members that the type does not
    /// know are passed over.
    pub fn from_json(v: &serde_json::Value) -> (r: Result<ReceiptCustomer, YooKassaError>)
        ensures
            decoded(r) == ReceiptCustomerView::of_json(json_view(*v)),
    {
        let full_name = get_opt_text(v, "full_name")?;
        let inn = get_opt_text(v, "inn")?;
        let email = get_opt_text(v, "email")?;
        let phone = get_opt_text(v, "phone")?;
        Ok(ReceiptCustomer { full_name, inn, email, phone })
    }

    /// Decodes the optional member under `key`.
    pub fn get_opt(v: &serde_json::Value, key: &str) -> (r: Result<
        Option<ReceiptCustomer>,
        YooKassaError,
    >)
        ensures
            decoded_opt(r) == ReceiptCustomerView::opt_at(json_view(*v), key@),
    {
        match present_member(v, key) {
            None => Ok(None),
            Some(x) => match Self::from_json(&x) {
                Ok(t) => Ok(Some(t)),
                Err(e) => Err(e),
            },
        }
    }

    /// Encodes the value as a JSON object. An optional field that is not set
    /// leaves no member behind.
    pub fn to_json(&self) -> (r: serde_json::Value)
        ensures
            json_view(r) == self@.to_json(),
    {
        let o = empty_object();
        let o = with_opt_text(o, "full_name", &self.full_name);
        let o = with_opt_text(o, "inn", &self.inn);
        let o = with_opt_text(o, "email", &self.email);
        let o = with_opt_text(o, "phone", &self.phone);
        o
    }

    /// The object with this value under `key`, where there is a value.
    pub fn put_opt(object: serde_json::Value, key: &str, value: &Option<ReceiptCustomer>) -> (r:
        serde_json::Value)
        ensures
            json_view(r) == json_view(object).with_opt(
                key@,
                ReceiptCustomerView::opt_to_json(opt_view(*value)),
            ),
    {
        match value {
            Some(t) => with_member(object, key, t.to_json()),
            None => object,
        }
    }
}

/// A fractional quantity of a marked product.
#[derive(Debug, Clone)]
pub struct ReceiptMarkQuantity {
    pub numerator: i32,
    pub denominator: i32,
}

/// What a [`ReceiptMarkQuantity`] holds, as mathematical values.
pub struct ReceiptMarkQuantityView {
    pub numerator: i32,
    pub denominator: i32,
}

impl View for ReceiptMarkQuantity {
    type V = ReceiptMarkQuantityView;

    open spec fn view(&self) -> ReceiptMarkQuantityView {
        ReceiptMarkQuantityView {
            numerator: self.numerator,
            denominator: self.denominator,
        }
    }
}

impl ReceiptMarkQuantityView {
    /// What a JSON document decodes to: the members in the order of the
    /// fields, the first one that fails deciding the error.
    pub open spec fn of_json(j: JsonView) -> Result<ReceiptMarkQuantityView, YooKassaErrorView> {
        if let Err(e) = int_at(j, "numerator"@) {
            Err(e)
        } else if let Err(e) = int_at(j, "denominator"@) {
            Err(e)
        } else {
            Ok(
                ReceiptMarkQuantityView {
                    numerator: int_at(j, "numerator"@)->Ok_0,
                    denominator: int_at(j, "denominator"@)->Ok_0,
                },
            )
        }
    }

    /// The optional member under `key`, decoded where it is present.
    pub open spec fn opt_at(j: JsonView, key: Seq<char>) -> Result<
        Option<ReceiptMarkQuantityView>,
        YooKassaErrorView,
    > {
        match j.get_present(key) {
            None => Ok(None),
            Some(x) => match Self::of_json(x) {
                Ok(t) => Ok(Some(t)),
                Err(e) => Err(e),
            },
        }
    }

    /// The JSON object that stands for this value: every required member, and
    /// each optional member that is set.
    pub open spec fn to_json(self) -> JsonView {
        JsonView::empty_object()
            .with("numerator"@, int_json(self.numerator))
            .with("denominator"@, int_json(self.denominator))
    }

    pub open spec fn opt_to_json(o: Option<ReceiptMarkQuantityView>) -> Option<JsonView> {
        match o {
            Some(t) => Some(t.to_json()),
            None => None,
        }
    }

    /// What tells the names of the members apart: their lengths and, where
    /// two are of one length, a character.
    proof fn lemma_member_names()
        ensures
            "numerator"@.len() == 9,
            "denominator"@.len() == 11,
    {
        reveal_strlit("numerator");
        reveal_strlit("denominator");
    }

    /// Decoding the encoded value gives the value back.
    pub proof fn lemma_round_trip(self)
        ensures
            Self::of_json(self.to_json()) == Ok::<_, YooKassaErrorView>(self),
    {
        Self::lemma_member_names();
    }
}

impl ReceiptMarkQuantity {
    /// Decodes a value from a JSON document. Members that the type does not
    /// know are passed over.
    pub fn from_json(v: &serde_json::Value) -> (r: Result<ReceiptMarkQuantity, YooKassaError>)
        ensures
            decoded(r) == ReceiptMarkQuantityView::of_json(json_view(*v)),
    {
        let numerator = get_int(v, "numerator")?;
        let denominator = get_int(v, "denominator")?;
        Ok(ReceiptMarkQuantity { numerator, denominator })
    }

    /// Decodes the optional member under `key`.
    pub fn get_opt(v: &serde_json::Value, key: &str) -> (r: Result<
        Option<ReceiptMarkQuantity>,
        YooKassaError,
    >)
        ensures
            decoded_opt(r) == ReceiptMarkQuantityView::opt_at(json_view(*v), key@),
    {
        match present_member(v, key) {
            None => Ok(None),
            Some(x) => match Self::from_json(&x) {
                Ok(t) => Ok(Some(t)),
                Err(e) => Err(e),
            },
        }
    }

    /// Encodes the value as a JSON object. An optional field that is not set
    /// leaves no member behind.
    pub fn to_json(&self) -> (r: serde_json::Value)
        ensures
            json_view(r) == self@.to_json(),
    {
        let o = empty_object();
        let o = with_int(o, "numerator", self.numerator);
        let o = with_int(o, "denominator", self.denominator);
        o
    }

    /// The object with this value under `key`, where there is a value.
    pub fn put_opt(object: serde_json::Value, key: &str, value: &Option<ReceiptMarkQuantity>) -> (r:
        serde_json::Value)
        ensures
            json_view(r) == json_view(object).with_opt(
                key@,
                ReceiptMarkQuantityView::opt_to_json(opt_view(*value)),
            ),
    {
        match value {
            Some(t) => with_member(object, key, t.to_json()),
            None => object,
        }
    }
}

/// An industry attribute of one receipt line.
#[derive(Debug, Clone)]
pub struct PaymentSubjectIndustryDetails {
    pub federal_id: String,
    pub document_date: String,
    pub document_number: String,
    pub value: String,
}

/// What a [`PaymentSubjectIndustryDetails`] holds, as mathematical values.
pub struct PaymentSubjectIndustryDetailsView {
    pub federal_id: Seq<char>,
    pub document_date: Seq<char>,
    pub document_number: Seq<char>,
    pub value: Seq<char>,
}

impl View for PaymentSubjectIndustryDetails {
    type V = PaymentSubjectIndustryDetailsView;

    open spec fn view(&self) -> PaymentSubjectIndustryDetailsView {
        PaymentSubjectIndustryDetailsView {
            federal_id: self.federal_id@,
            document_date: self.document_date@,
            document_number: self.document_number@,
            value: self.value@,
        }
    }
}

impl PaymentSubjectIndustryDetailsView {
    /// What a JSON document decodes to: the members in the order of the
    /// fields, the first one that fails deciding the error.
    pub open spec fn of_json(j: JsonView)
        -> Result<PaymentSubjectIndustryDetailsView, YooKassaErrorView> {
        if let Err(e) = text_at(j, "federal_id"@) {
            Err(e)
        } else if let Err(e) = text_at(j, "document_date"@) {
            Err(e)
        } else if let Err(e) = text_at(j, "document_number"@) {
            Err(e)
        } else if let Err(e) = text_at(j, "value"@) {
            Err(e)
        } else {
            Ok(
                PaymentSubjectIndustryDetailsView {
                    federal_id: text_at(j, "federal_id"@)->Ok_0,
                    document_date: text_at(j, "document_date"@)->Ok_0,
                    document_number: text_at(j, "document_number"@)->Ok_0,
                    value: text_at(j, "value"@)->Ok_0,
                },
            )
        }
    }

    /// The elements decoded in their order; the first that fails decides the
    /// error.
    pub open spec fn list_of(items: Seq<JsonView>)
        -> Result<Seq<PaymentSubjectIndustryDetailsView>, YooKassaErrorView>
        decreases items.len(),
    {
        if items.len() == 0 {
            Ok(Seq::empty())
        } else {
            match Self::list_of(items.drop_last()) {
                Err(e) => Err(e),
                Ok(front) => match Self::of_json(items.last()) {
                    Err(e) => Err(e),
                    Ok(t) => Ok(front.push(t)),
                },
            }
        }
    }

    /// The optional array under `key`, decoded where it is present.
    pub open spec fn opt_list_at(j: JsonView, key: Seq<char>) -> Result<
        Option<Seq<PaymentSubjectIndustryDetailsView>>,
        YooKassaErrorView,
    > {
        match j.get_present(key) {
            None => Ok(None),
            Some(JsonView::List(items)) => match Self::list_of(items) {
                Ok(l) => Ok(Some(l)),
                Err(e) => Err(e),
            },
            Some(_) => Err(YooKassaErrorView::Serde(key)),
        }
    }

    /// The JSON object that stands for this value: every required member, and
    /// each optional member that is set.
    pub open spec fn to_json(self) -> JsonView {
        JsonView::empty_object()
            .with("federal_id"@, JsonView::Text(self.federal_id))
            .with("document_date"@, JsonView::Text(self.document_date))
            .with("document_number"@, JsonView::Text(self.document_number))
            .with("value"@, JsonView::Text(self.value))
    }

    /// The elements encoded one by one.
    pub open spec fn list_items_to_json(items: Seq<PaymentSubjectIndustryDetailsView>)
        -> Seq<JsonView> {
        items.map_values(|t: PaymentSubjectIndustryDetailsView| t.to_json())
    }

    pub open spec fn list_to_json(items: Seq<PaymentSubjectIndustryDetailsView>) -> JsonView {
        JsonView::List(Self::list_items_to_json(items))
    }

    pub open spec fn opt_list_to_json(o: Option<Seq<PaymentSubjectIndustryDetailsView>>)
        -> Option<JsonView> {
        match o {
            Some(l) => Some(Self::list_to_json(l)),
            None => None,
        }
    }

    /// An error among the first `n` elements is the error of the whole array.
    pub proof fn lemma_list_of_prefix(items: Seq<JsonView>, n: int)
        requires
            0 <= n <= items.len(),
            Self::list_of(items.take(n)) is Err,
        ensures
            Self::list_of(items) == Self::list_of(items.take(n)),
        decreases items.len(),
    {
        if n < items.len() {
            assert(items.drop_last().take(n) =~= items.take(n));
            Self::lemma_list_of_prefix(items.drop_last(), n);
        } else {
            assert(items.take(n) =~= items);
        }
    }

    /// What tells the names of the members apart: their lengths and, where
    /// two are of one length, a character.
    proof fn lemma_member_names()
        ensures
            "federal_id"@.len() == 10,
            "document_date"@.len() == 13,
            "document_number"@.len() == 15,
            "value"@.len() == 5,
    {
        reveal_strlit("federal_id");
        reveal_strlit("document_date");
        reveal_strlit("document_number");
        reveal_strlit("value");
    }

    /// Decoding the encoded value gives the value back.
    pub proof fn lemma_round_trip(self)
        ensures
            Self::of_json(self.to_json()) == Ok::<_, YooKassaErrorView>(self),
    {
        Self::lemma_member_names();
    }

    /// Decoding an encoded array gives its elements back.
    pub proof fn lemma_list_round_trip(items: Seq<PaymentSubjectIndustryDetailsView>)
        ensures
            Self::list_of(Self::list_items_to_json(items)) == Ok::<_, YooKassaErrorView>(items),
        decreases items.len(),
    {
        let js = Self::list_items_to_json(items);
        if items.len() == 0 {
            assert(items =~= Seq::empty());
        } else {
            Self::lemma_list_round_trip(items.drop_last());
            assert(js.drop_last() =~= Self::list_items_to_json(items.drop_last()));
            items.last().lemma_round_trip();
            assert(js.last() == items.last().to_json());
            assert(items.drop_last().push(items.last()) =~= items);
        }
    }
}

impl PaymentSubjectIndustryDetails {
    /// Decodes a value from a JSON document. Members that the type does not
    /// know are passed over.
    pub fn from_json(v: &serde_json::Value)
        -> (r: Result<PaymentSubjectIndustryDetails, YooKassaError>)
        ensures
            decoded(r) == PaymentSubjectIndustryDetailsView::of_json(json_view(*v)),
    {
        let federal_id = get_text(v, "federal_id")?;
        let document_date = get_text(v, "document_date")?;
        let document_number = get_text(v, "document_number")?;
        let value = get_text(v, "value")?;
        Ok(PaymentSubjectIndustryDetails { federal_id, document_date, document_number, value })
    }

    /// Decodes the elements of an array in their order.
    pub fn list_from_json(items: &Vec<serde_json::Value>)
        -> (r: Result<Vec<PaymentSubjectIndustryDetails>, YooKassaError>)
        ensures
            decoded_list(r) == PaymentSubjectIndustryDetailsView::list_of(json_views(items@)),
    {
        let ghost js = json_views(items@);
        let mut out: Vec<PaymentSubjectIndustryDetails> = Vec::new();
        let mut i: usize = 0;
        proof {
            assert(seq_view(out@) =~= Seq::<PaymentSubjectIndustryDetailsView>::empty());
        }
        while i < items.len()
            invariant
                i <= items.len(),
                js == json_views(items@),
                PaymentSubjectIndustryDetailsView::list_of(js.take(i as int))
                    == Ok::<_, YooKassaErrorView>(seq_view(out@)),
            decreases items.len() - i,
        {
            proof {
                assert(js.take(i + 1).drop_last() =~= js.take(i as int));
                assert(js.take(i + 1).last() == json_view(items@[i as int]));
            }
            match Self::from_json(&items[i]) {
                Err(e) => {
                    proof {
                        PaymentSubjectIndustryDetailsView::lemma_list_of_prefix(js, i + 1);
                    }
                    return Err(e);
                },
                Ok(t) => {
                    proof {
                        assert(seq_view(out@.push(t)) =~= seq_view(out@).push(t@));
                    }
                    out.push(t);
                },
            }
            i += 1;
        }
        proof {
            assert(js.take(i as int) =~= js);
        }
        Ok(out)
    }

    /// Decodes the optional array under `key`.
    pub fn get_opt_list(v: &serde_json::Value, key: &str) -> (r: Result<
        Option<Vec<PaymentSubjectIndustryDetails>>,
        YooKassaError,
    >)
        ensures
            decoded_opt_list(r)
                == PaymentSubjectIndustryDetailsView::opt_list_at(json_view(*v), key@),
    {
        match present_member(v, key) {
            None => Ok(None),
            Some(x) => match as_list(&x) {
                Some(items) => match Self::list_from_json(&items) {
                    Ok(l) => Ok(Some(l)),
                    Err(e) => Err(e),
                },
                None => Err(invalid(key)),
            },
        }
    }

    /// Encodes the value as a JSON object. An optional field that is not set
    /// leaves no member behind.
    pub fn to_json(&self) -> (r: serde_json::Value)
        ensures
            json_view(r) == self@.to_json(),
    {
        let o = empty_object();
        let o = with_text(o, "federal_id", &self.federal_id);
        let o = with_text(o, "document_date", &self.document_date);
        let o = with_text(o, "document_number", &self.document_number);
        let o = with_text(o, "value", &self.value);
        o
    }

    /// Encodes the values as a JSON array, in their order.
    pub fn list_to_json(items: &Vec<PaymentSubjectIndustryDetails>) -> (r: serde_json::Value)
        ensures
            json_view(r) == PaymentSubjectIndustryDetailsView::list_to_json(seq_view(items@)),
    {
        let mut out: Vec<serde_json::Value> = Vec::new();
        let mut i: usize = 0;
        while i < items.len()
            invariant
                i <= items.len(),
                out@.len() == i,
                forall|k: int| 0 <= k < i ==> json_view(#[trigger] out@[k]) == items@[k]@.to_json(),
            decreases items.len() - i,
        {
            out.push(items[i].to_json());
            i += 1;
        }
        proof {
            assert(json_views(out@)
                =~= PaymentSubjectIndustryDetailsView::list_items_to_json(seq_view(items@)));
        }
        list_value(out)
    }

    /// The object with these values as an array under `key`, where there are any.
    pub fn put_opt_list(object: serde_json::Value, key: &str, value: &Option<Vec<PaymentSubjectIndustryDetails>>)
        -> (r:
        serde_json::Value)
        ensures
            json_view(r) == json_view(object).with_opt(
                key@,
                PaymentSubjectIndustryDetailsView::opt_list_to_json(opt_seq_view(*value)),
            ),
    {
        match value {
            Some(l) => with_member(object, key, Self::list_to_json(l)),
            None => object,
        }
    }
}

/// One line of a receipt.
#[derive(Debug, Clone)]
pub struct ReceiptItem {
    pub description: String,
    pub quantity: String,
    pub amount: Amount,
    pub vat_code: i32,
    pub payment_mode: Option<String>,
    pub payment_subject: Option<String>,
    pub country_of_origin_code: Option<String>,
    pub customs_declaration_number: Option<String>,
    pub excise: Option<String>,
    pub product_code: Option<String>,
    pub mark_quantity: Option<ReceiptMarkQuantity>,
    pub payment_subject_industry_details: Option<Vec<PaymentSubjectIndustryDetails>>,
    pub product_mark: Option<String>,
}

/// What a [`ReceiptItem`] holds, as mathematical values.
pub struct ReceiptItemView {
    pub description: Seq<char>,
    pub quantity: Seq<char>,
    pub amount: AmountView,
    pub vat_code: i32,
    pub payment_mode: Option<Seq<char>>,
    pub payment_subject: Option<Seq<char>>,
    pub country_of_origin_code: Option<Seq<char>>,
    pub customs_declaration_number: Option<Seq<char>>,
    pub excise: Option<Seq<char>>,
    pub product_code: Option<Seq<char>>,
    pub mark_quantity: Option<ReceiptMarkQuantityView>,
    pub payment_subject_industry_details: Option<Seq<PaymentSubjectIndustryDetailsView>>,
    pub product_mark: Option<Seq<char>>,
}

impl View for ReceiptItem {
    type V = ReceiptItemView;

    open spec fn view(&self) -> ReceiptItemView {
        ReceiptItemView {
            description: self.description@,
            quantity: self.quantity@,
            amount: self.amount@,
            vat_code: self.vat_code,
            payment_mode: opt_view(self.payment_mode),
            payment_subject: opt_view(self.payment_subject),
            country_of_origin_code: opt_view(self.country_of_origin_code),
            customs_declaration_number: opt_view(self.customs_declaration_number),
            excise: opt_view(self.excise),
            product_code: opt_view(self.product_code),
            mark_quantity: opt_view(self.mark_quantity),
            payment_subject_industry_details: opt_seq_view(self.payment_subject_industry_details),
            product_mark: opt_view(self.product_mark),
        }
    }
}

impl ReceiptItemView {
    /// What a JSON document decodes to: the members in the order of the
    /// fields, the first one that fails deciding the error.
    pub open spec fn of_json(j: JsonView) -> Result<ReceiptItemView, YooKassaErrorView> {
        if let Err(e) = text_at(j, "description"@) {
            Err(e)
        } else if let Err(e) = text_at(j, "quantity"@) {
            Err(e)
        } else if let Err(e) = AmountView::at(j, "amount"@) {
            Err(e)
        } else if let Err(e) = int_at(j, "vat_code"@) {
            Err(e)
        } else if let Err(e) = opt_text_at(j, "payment_mode"@) {
            Err(e)
        } else if let Err(e) = opt_text_at(j, "payment_subject"@) {
            Err(e)
        } else if let Err(e) = opt_text_at(j, "country_of_origin_code"@) {
            Err(e)
        } else if let Err(e) = opt_text_at(j, "customs_declaration_number"@) {
            Err(e)
        } else if let Err(e) = opt_text_at(j, "excise"@) {
            Err(e)
        } else if let Err(e) = opt_text_at(j, "product_code"@) {
            Err(e)
        } else if let Err(e) = ReceiptMarkQuantityView::opt_at(j, "mark_quantity"@) {
            Err(e)
        } else if let Err(e) = PaymentSubjectIndustryDetailsView::opt_list_at(j, "payment_subject_industry_details"@) {
            Err(e)
        } else if let Err(e) = opt_text_at(j, "product_mark"@) {
            Err(e)
        } else {
            Ok(
                ReceiptItemView {
                    description: text_at(j, "description"@)->Ok_0,
                    quantity: text_at(j, "quantity"@)->Ok_0,
                    amount: AmountView::at(j, "amount"@)->Ok_0,
                    vat_code: int_at(j, "vat_code"@)->Ok_0,
                    payment_mode: opt_text_at(j, "payment_mode"@)->Ok_0,
                    payment_subject: opt_text_at(j, "payment_subject"@)->Ok_0,
                    country_of_origin_code: opt_text_at(j, "country_of_origin_code"@)->Ok_0,
                    customs_declaration_number: opt_text_at(j, "customs_declaration_number"@)->Ok_0,
                    excise: opt_text_at(j, "excise"@)->Ok_0,
                    product_code: opt_text_at(j, "product_code"@)->Ok_0,
                    mark_quantity: ReceiptMarkQuantityView::opt_at(j, "mark_quantity"@)->Ok_0,
                    payment_subject_industry_details:
                        PaymentSubjectIndustryDetailsView::opt_list_at(j, "payment_subject_industry_details"@)->Ok_0,
                    product_mark: opt_text_at(j, "product_mark"@)->Ok_0,
                },
            )
        }
    }

    /// The elements decoded in their order; the first that fails decides the
    /// error.
    pub open spec fn list_of(items: Seq<JsonView>)
        -> Result<Seq<ReceiptItemView>, YooKassaErrorView>
        decreases items.len(),
    {
        if items.len() == 0 {
            Ok(Seq::empty())
        } else {
            match Self::list_of(items.drop_last()) {
                Err(e) => Err(e),
                Ok(front) => match Self::of_json(items.last()) {
                    Err(e) => Err(e),
                    Ok(t) => Ok(front.push(t)),
                },
            }
        }
    }

    /// The required array under `key`, decoded.
    pub open spec fn list_at(j: JsonView, key: Seq<char>)
        -> Result<Seq<ReceiptItemView>, YooKassaErrorView> {
        match j.get(key) {
            None => Err(YooKassaErrorView::MissingField(key)),
            Some(JsonView::List(items)) => Self::list_of(items),
            Some(_) => Err(YooKassaErrorView::Serde(key)),
        }
    }

    /// The JSON object that stands for this value: every required member, and
    /// each optional member that is set.
    pub open spec fn to_json(self) -> JsonView {
        JsonView::empty_object()
            .with("description"@, JsonView::Text(self.description))
            .with("quantity"@, JsonView::Text(self.quantity))
            .with("amount"@, self.amount.to_json())
            .with("vat_code"@, int_json(self.vat_code))
            .with_opt("payment_mode"@, text_json(self.payment_mode))
            .with_opt("payment_subject"@, text_json(self.payment_subject))
            .with_opt("country_of_origin_code"@, text_json(self.country_of_origin_code))
            .with_opt("customs_declaration_number"@, text_json(self.customs_declaration_number))
            .with_opt("excise"@, text_json(self.excise))
            .with_opt("product_code"@, text_json(self.product_code))
            .with_opt("mark_quantity"@, ReceiptMarkQuantityView::opt_to_json(self.mark_quantity))
            .with_opt(
                "payment_subject_industry_details"@,
                PaymentSubjectIndustryDetailsView::opt_list_to_json(self.payment_subject_industry_details),
            )
            .with_opt("product_mark"@, text_json(self.product_mark))
    }

    /// The elements encoded one by one.
    pub open spec fn list_items_to_json(items: Seq<ReceiptItemView>) -> Seq<JsonView> {
        items.map_values(|t: ReceiptItemView| t.to_json())
    }

    pub open spec fn list_to_json(items: Seq<ReceiptItemView>) -> JsonView {
        JsonView::List(Self::list_items_to_json(items))
    }

    /// An error among the first `n` elements is the error of the whole array.
    pub proof fn lemma_list_of_prefix(items: Seq<JsonView>, n: int)
        requires
            0 <= n <= items.len(),
            Self::list_of(items.take(n)) is Err,
        ensures
            Self::list_of(items) == Self::list_of(items.take(n)),
        decreases items.len(),
    {
        if n < items.len() {
            assert(items.drop_last().take(n) =~= items.take(n));
            Self::lemma_list_of_prefix(items.drop_last(), n);
        } else {
            assert(items.take(n) =~= items);
        }
    }

    /// What tells the names of the members apart: their lengths and, where
    /// two are of one length, a character.
    proof fn lemma_member_names()
        ensures
            "description"@.len() == 11,
            "quantity"@.len() == 8,
            "amount"@.len() == 6,
            "vat_code"@.len() == 8,
            "payment_mode"@.len() == 12,
            "payment_subject"@.len() == 15,
            "country_of_origin_code"@.len() == 22,
            "customs_declaration_number"@.len() == 26,
            "excise"@.len() == 6,
            "product_code"@.len() == 12,
            "mark_quantity"@.len() == 13,
            "payment_subject_industry_details"@.len() == 32,
            "product_mark"@.len() == 12,
            "quantity"@[0] == 'q',
            "vat_code"@[0] == 'v',
            "amount"@[0] == 'a',
            "excise"@[0] == 'e',
            "payment_mode"@[1] == 'a',
            "product_code"@[1] == 'r',
            "product_mark"@[1] == 'r',
            "product_code"@[8] == 'c',
            "product_mark"@[8] == 'm',
    {
        reveal_strlit("description");
        reveal_strlit("quantity");
        reveal_strlit("amount");
        reveal_strlit("vat_code");
        reveal_strlit("payment_mode");
        reveal_strlit("payment_subject");
        reveal_strlit("country_of_origin_code");
        reveal_strlit("customs_declaration_number");
        reveal_strlit("excise");
        reveal_strlit("product_code");
        reveal_strlit("mark_quantity");
        reveal_strlit("payment_subject_industry_details");
        reveal_strlit("product_mark");
    }

    /// Decoding the encoded value gives the value back.
    pub proof fn lemma_round_trip(self)
        ensures
            Self::of_json(self.to_json()) == Ok::<_, YooKassaErrorView>(self),
    {
        Self::lemma_member_names();
        self.amount.lemma_round_trip();
        match self.mark_quantity {
            Some(x) => {
                x.lemma_round_trip();
            },
            None => {},
        }
        match self.payment_subject_industry_details {
            Some(l) => {
                PaymentSubjectIndustryDetailsView::lemma_list_round_trip(l);
            },
            None => {},
        }
        let j = self.to_json();
        assert(text_at(j, "description"@) == Ok::<Seq<char>, YooKassaErrorView>(self.description));
        assert(text_at(j, "quantity"@) == Ok::<Seq<char>, YooKassaErrorView>(self.quantity));
        assert(AmountView::at(j, "amount"@) == Ok::<AmountView, YooKassaErrorView>(self.amount));
        assert(int_at(j, "vat_code"@) == Ok::<i32, YooKassaErrorView>(self.vat_code));
        assert(opt_text_at(j, "payment_mode"@)
            == Ok::<Option<Seq<char>>, YooKassaErrorView>(self.payment_mode));
        assert(opt_text_at(j, "payment_subject"@)
            == Ok::<Option<Seq<char>>, YooKassaErrorView>(self.payment_subject));
        assert(opt_text_at(j, "country_of_origin_code"@)
            == Ok::<Option<Seq<char>>, YooKassaErrorView>(self.country_of_origin_code));
        assert(opt_text_at(j, "customs_declaration_number"@)
            == Ok::<Option<Seq<char>>, YooKassaErrorView>(self.customs_declaration_number));
        assert(opt_text_at(j, "excise"@)
            == Ok::<Option<Seq<char>>, YooKassaErrorView>(self.excise));
        assert(opt_text_at(j, "product_code"@)
            == Ok::<Option<Seq<char>>, YooKassaErrorView>(self.product_code));
        assert(ReceiptMarkQuantityView::opt_at(j, "mark_quantity"@)
            == Ok::<Option<ReceiptMarkQuantityView>, YooKassaErrorView>(self.mark_quantity));
        assert(PaymentSubjectIndustryDetailsView::opt_list_at(j, "payment_subject_industry_details"@)
            == Ok::<Option<Seq<PaymentSubjectIndustryDetailsView>>, YooKassaErrorView>(self.payment_subject_industry_details));
        assert(opt_text_at(j, "product_mark"@)
            == Ok::<Option<Seq<char>>, YooKassaErrorView>(self.product_mark));
    }

    /// An optional field that is not set leaves no member in the encoded
    /// object, and one that is set leaves its member.
    pub proof fn lemma_unset_is_omitted(self)
        ensures
            self.payment_mode is None <==> self.to_json().get("payment_mode"@) is None,
            self.payment_subject is None <==> self.to_json().get("payment_subject"@) is None,
            self.country_of_origin_code is None
                <==> self.to_json().get("country_of_origin_code"@) is None,
            self.customs_declaration_number is None
                <==> self.to_json().get("customs_declaration_number"@) is None,
            self.excise is None <==> self.to_json().get("excise"@) is None,
            self.product_code is None <==> self.to_json().get("product_code"@) is None,
            self.mark_quantity is None <==> self.to_json().get("mark_quantity"@) is None,
            self.payment_subject_industry_details is None
                <==> self.to_json().get("payment_subject_industry_details"@) is None,
            self.product_mark is None <==> self.to_json().get("product_mark"@) is None,
    {
        Self::lemma_member_names();
    }

    /// Decoding an encoded array gives its elements back.
    pub proof fn lemma_list_round_trip(items: Seq<ReceiptItemView>)
        ensures
            Self::list_of(Self::list_items_to_json(items)) == Ok::<_, YooKassaErrorView>(items),
        decreases items.len(),
    {
        let js = Self::list_items_to_json(items);
        if items.len() == 0 {
            assert(items =~= Seq::empty());
        } else {
            Self::lemma_list_round_trip(items.drop_last());
            assert(js.drop_last() =~= Self::list_items_to_json(items.drop_last()));
            items.last().lemma_round_trip();
            assert(js.last() == items.last().to_json());
            assert(items.drop_last().push(items.last()) =~= items);
        }
    }
}

impl ReceiptItem {
    /// Decodes a value from a JSON document. Members that the type does not
    /// know are passed over.
    pub fn from_json(v: &serde_json::Value) -> (r: Result<ReceiptItem, YooKassaError>)
        ensures
            decoded(r) == ReceiptItemView::of_json(json_view(*v)),
    {
        let description = get_text(v, "description")?;
        let quantity = get_text(v, "quantity")?;
        let amount = Amount::get(v, "amount")?;
        let vat_code = get_int(v, "vat_code")?;
        let payment_mode = get_opt_text(v, "payment_mode")?;
        let payment_subject = get_opt_text(v, "payment_subject")?;
        let country_of_origin_code = get_opt_text(v, "country_of_origin_code")?;
        let customs_declaration_number = get_opt_text(v, "customs_declaration_number")?;
        let excise = get_opt_text(v, "excise")?;
        let product_code = get_opt_text(v, "product_code")?;
        let mark_quantity = ReceiptMarkQuantity::get_opt(v, "mark_quantity")?;
        let payment_subject_industry_details =
            PaymentSubjectIndustryDetails::get_opt_list(v, "payment_subject_industry_details")?;
        let product_mark = get_opt_text(v, "product_mark")?;
        Ok(
            ReceiptItem {
                description,
                quantity,
                amount,
                vat_code,
                payment_mode,
                payment_subject,
                country_of_origin_code,
                customs_declaration_number,
                excise,
                product_code,
                mark_quantity,
                payment_subject_industry_details,
                product_mark,
            },
        )
    }

    /// Decodes the elements of an array in their order.
    pub fn list_from_json(items: &Vec<serde_json::Value>)
        -> (r: Result<Vec<ReceiptItem>, YooKassaError>)
        ensures
            decoded_list(r) == ReceiptItemView::list_of(json_views(items@)),
    {
        let ghost js = json_views(items@);
        let mut out: Vec<ReceiptItem> = Vec::new();
        let mut i: usize = 0;
        proof {
            assert(seq_view(out@) =~= Seq::<ReceiptItemView>::empty());
        }
        while i < items.len()
            invariant
                i <= items.len(),
                js == json_views(items@),
                ReceiptItemView::list_of(js.take(i as int))
                    == Ok::<_, YooKassaErrorView>(seq_view(out@)),
            decreases items.len() - i,
        {
            proof {
                assert(js.take(i + 1).drop_last() =~= js.take(i as int));
                assert(js.take(i + 1).last() == json_view(items@[i as int]));
            }
            match Self::from_json(&items[i]) {
                Err(e) => {
                    proof {
                        ReceiptItemView::lemma_list_of_prefix(js, i + 1);
                    }
                    return Err(e);
                },
                Ok(t) => {
                    proof {
                        assert(seq_view(out@.push(t)) =~= seq_view(out@).push(t@));
                    }
                    out.push(t);
                },
            }
            i += 1;
        }
        proof {
            assert(js.take(i as int) =~= js);
        }
        Ok(out)
    }

    /// Decodes the required array under `key`.
    pub fn get_list(v: &serde_json::Value, key: &str)
        -> (r: Result<Vec<ReceiptItem>, YooKassaError>)
        ensures
            decoded_list(r) == ReceiptItemView::list_at(json_view(*v), key@),
    {
        match member(v, key) {
            None => Err(missing(key)),
            Some(x) => match as_list(&x) {
                Some(items) => Self::list_from_json(&items),
                None => Err(invalid(key)),
            },
        }
    }

    /// Encodes the value as a JSON object. An optional field that is not set
    /// leaves no member behind.
    pub fn to_json(&self) -> (r: serde_json::Value)
        ensures
            json_view(r) == self@.to_json(),
    {
        let o = empty_object();
        let o = with_text(o, "description", &self.description);
        let o = with_text(o, "quantity", &self.quantity);
        let o = with_member(o, "amount", self.amount.to_json());
        let o = with_int(o, "vat_code", self.vat_code);
        let o = with_opt_text(o, "payment_mode", &self.payment_mode);
        let o = with_opt_text(o, "payment_subject", &self.payment_subject);
        let o = with_opt_text(o, "country_of_origin_code", &self.country_of_origin_code);
        let o = with_opt_text(o, "customs_declaration_number", &self.customs_declaration_number);
        let o = with_opt_text(o, "excise", &self.excise);
        let o = with_opt_text(o, "product_code", &self.product_code);
        let o = ReceiptMarkQuantity::put_opt(o, "mark_quantity", &self.mark_quantity);
        let o =
            PaymentSubjectIndustryDetails::put_opt_list(o, "payment_subject_industry_details", &self.payment_subject_industry_details);
        let o = with_opt_text(o, "product_mark", &self.product_mark);
        o
    }

    /// Encodes the values as a JSON array, in their order.
    pub fn list_to_json(items: &Vec<ReceiptItem>) -> (r: serde_json::Value)
        ensures
            json_view(r) == ReceiptItemView::list_to_json(seq_view(items@)),
    {
        let mut out: Vec<serde_json::Value> = Vec::new();
        let mut i: usize = 0;
        while i < items.len()
            invariant
                i <= items.len(),
                out@.len() == i,
                forall|k: int| 0 <= k < i ==> json_view(#[trigger] out@[k]) == items@[k]@.to_json(),
            decreases items.len() - i,
        {
            out.push(items[i].to_json());
            i += 1;
        }
        proof {
            assert(json_views(out@) =~= ReceiptItemView::list_items_to_json(seq_view(items@)));
        }
        list_value(out)
    }
}

/// An industry attribute of a receipt.
#[derive(Debug, Clone)]
pub struct ReceiptIndustryDetails {
    pub federal_id: String,
    pub document_date: String,
    pub document_number: String,
    pub value: String,
}

/// What a [`ReceiptIndustryDetails`] holds, as mathematical values.
pub struct ReceiptIndustryDetailsView {
    pub federal_id: Seq<char>,
    pub document_date: Seq<char>,
    pub document_number: Seq<char>,
    pub value: Seq<char>,
}

impl View for ReceiptIndustryDetails {
    type V = ReceiptIndustryDetailsView;

    open spec fn view(&self) -> ReceiptIndustryDetailsView {
        ReceiptIndustryDetailsView {
            federal_id: self.federal_id@,
            document_date: self.document_date@,
            document_number: self.document_number@,
            value: self.value@,
        }
    }
}

impl ReceiptIndustryDetailsView {
    /// What a JSON document decodes to: the members in the order of the
    /// fields, the first one that fails deciding the error.
    pub open spec fn of_json(j: JsonView) -> Result<ReceiptIndustryDetailsView, YooKassaErrorView> {
        if let Err(e) = text_at(j, "federal_id"@) {
            Err(e)
        } else if let Err(e) = text_at(j, "document_date"@) {
            Err(e)
        } else if let Err(e) = text_at(j, "document_number"@) {
            Err(e)
        } else if let Err(e) = text_at(j, "value"@) {
            Err(e)
        } else {
            Ok(
                ReceiptIndustryDetailsView {
                    federal_id: text_at(j, "federal_id"@)->Ok_0,
                    document_date: text_at(j, "document_date"@)->Ok_0,
                    document_number: text_at(j, "document_number"@)->Ok_0,
                    value: text_at(j, "value"@)->Ok_0,
                },
            )
        }
    }

    /// The elements decoded in their order; the first that fails decides the
    /// error.
    pub open spec fn list_of(items: Seq<JsonView>)
        -> Result<Seq<ReceiptIndustryDetailsView>, YooKassaErrorView>
        decreases items.len(),
    {
        if items.len() == 0 {
            Ok(Seq::empty())
        } else {
            match Self::list_of(items.drop_last()) {
                Err(e) => Err(e),
                Ok(front) => match Self::of_json(items.last()) {
                    Err(e) => Err(e),
                    Ok(t) => Ok(front.push(t)),
                },
            }
        }
    }

    /// The optional array under `key`, decoded where it is present.
    pub open spec fn opt_list_at(j: JsonView, key: Seq<char>) -> Result<
        Option<Seq<ReceiptIndustryDetailsView>>,
        YooKassaErrorView,
    > {
        match j.get_present(key) {
            None => Ok(None),
            Some(JsonView::List(items)) => match Self::list_of(items) {
                Ok(l) => Ok(Some(l)),
                Err(e) => Err(e),
            },
            Some(_) => Err(YooKassaErrorView::Serde(key)),
        }
    }

    /// The JSON object that stands for this value: every required member, and
    /// each optional member that is set.
    pub open spec fn to_json(self) -> JsonView {
        JsonView::empty_object()
            .with("federal_id"@, JsonView::Text(self.federal_id))
            .with("document_date"@, JsonView::Text(self.document_date))
            .with("document_number"@, JsonView::Text(self.document_number))
            .with("value"@, JsonView::Text(self.value))
    }

    /// The elements encoded one by one.
    pub open spec fn list_items_to_json(items: Seq<ReceiptIndustryDetailsView>) -> Seq<JsonView> {
        items.map_values(|t: ReceiptIndustryDetailsView| t.to_json())
    }

    pub open spec fn list_to_json(items: Seq<ReceiptIndustryDetailsView>) -> JsonView {
        JsonView::List(Self::list_items_to_json(items))
    }

    pub open spec fn opt_list_to_json(o: Option<Seq<ReceiptIndustryDetailsView>>)
        -> Option<JsonView> {
        match o {
            Some(l) => Some(Self::list_to_json(l)),
            None => None,
        }
    }

    /// An error among the first `n` elements is the error of the whole array.
    pub proof fn lemma_list_of_prefix(items: Seq<JsonView>, n: int)
        requires
            0 <= n <= items.len(),
            Self::list_of(items.take(n)) is Err,
        ensures
            Self::list_of(items) == Self::list_of(items.take(n)),
        decreases items.len(),
    {
        if n < items.len() {
            assert(items.drop_last().take(n) =~= items.take(n));
            Self::lemma_list_of_prefix(items.drop_last(), n);
        } else {
            assert(items.take(n) =~= items);
        }
    }

    /// What tells the names of the members apart: their lengths and, where
    /// two are of one length, a character.
    proof fn lemma_member_names()
        ensures
            "federal_id"@.len() == 10,
            "document_date"@.len() == 13,
            "document_number"@.len() == 15,
            "value"@.len() == 5,
    {
        reveal_strlit("federal_id");
        reveal_strlit("document_date");
        reveal_strlit("document_number");
        reveal_strlit("value");
    }

    /// Decoding the encoded value gives the value back.
    pub proof fn lemma_round_trip(self)
        ensures
            Self::of_json(self.to_json()) == Ok::<_, YooKassaErrorView>(self),
    {
        Self::lemma_member_names();
    }

    /// Decoding an encoded array gives its elements back.
    pub proof fn lemma_list_round_trip(items: Seq<ReceiptIndustryDetailsView>)
        ensures
            Self::list_of(Self::list_items_to_json(items)) == Ok::<_, YooKassaErrorView>(items),
        decreases items.len(),
    {
        let js = Self::list_items_to_json(items);
        if items.len() == 0 {
            assert(items =~= Seq::empty());
        } else {
            Self::lemma_list_round_trip(items.drop_last());
            assert(js.drop_last() =~= Self::list_items_to_json(items.drop_last()));
            items.last().lemma_round_trip();
            assert(js.last() == items.last().to_json());
            assert(items.drop_last().push(items.last()) =~= items);
        }
    }
}

impl ReceiptIndustryDetails {
    /// Decodes a value from a JSON document. Members that the type does not
    /// know are passed over.
    pub fn from_json(v: &serde_json::Value) -> (r: Result<ReceiptIndustryDetails, YooKassaError>)
        ensures
            decoded(r) == ReceiptIndustryDetailsView::of_json(json_view(*v)),
    {
        let federal_id = get_text(v, "federal_id")?;
        let document_date = get_text(v, "document_date")?;
        let document_number = get_text(v, "document_number")?;
        let value = get_text(v, "value")?;
        Ok(ReceiptIndustryDetails { federal_id, document_date, document_number, value })
    }

    /// Decodes the elements of an array in their order.
    pub fn list_from_json(items: &Vec<serde_json::Value>)
        -> (r: Result<Vec<ReceiptIndustryDetails>, YooKassaError>)
        ensures
            decoded_list(r) == ReceiptIndustryDetailsView::list_of(json_views(items@)),
    {
        let ghost js = json_views(items@);
        let mut out: Vec<ReceiptIndustryDetails> = Vec::new();
        let mut i: usize = 0;
        proof {
            assert(seq_view(out@) =~= Seq::<ReceiptIndustryDetailsView>::empty());
        }
        while i < items.len()
            invariant
                i <= items.len(),
                js == json_views(items@),
                ReceiptIndustryDetailsView::list_of(js.take(i as int))
                    == Ok::<_, YooKassaErrorView>(seq_view(out@)),
            decreases items.len() - i,
        {
            proof {
                assert(js.take(i + 1).drop_last() =~= js.take(i as int));
                assert(js.take(i + 1).last() == json_view(items@[i as int]));
            }
            match Self::from_json(&items[i]) {
                Err(e) => {
                    proof {
                        ReceiptIndustryDetailsView::lemma_list_of_prefix(js, i + 1);
                    }
                    return Err(e);
                },
                Ok(t) => {
                    proof {
                        assert(seq_view(out@.push(t)) =~= seq_view(out@).push(t@));
                    }
                    out.push(t);
                },
            }
            i += 1;
        }
        proof {
            assert(js.take(i as int) =~= js);
        }
        Ok(out)
    }

    /// Decodes the optional array under `key`.
    pub fn get_opt_list(v: &serde_json::Value, key: &str) -> (r: Result<
        Option<Vec<ReceiptIndustryDetails>>,
        YooKassaError,
    >)
        ensures
            decoded_opt_list(r) == ReceiptIndustryDetailsView::opt_list_at(json_view(*v), key@),
    {
        match present_member(v, key) {
            None => Ok(None),
            Some(x) => match as_list(&x) {
                Some(items) => match Self::list_from_json(&items) {
                    Ok(l) => Ok(Some(l)),
                    Err(e) => Err(e),
                },
                None => Err(invalid(key)),
            },
        }
    }

    /// Encodes the value as a JSON object. An optional field that is not set
    /// leaves no member behind.
    pub fn to_json(&self) -> (r: serde_json::Value)
        ensures
            json_view(r) == self@.to_json(),
    {
        let o = empty_object();
        let o = with_text(o, "federal_id", &self.federal_id);
        let o = with_text(o, "document_date", &self.document_date);
        let o = with_text(o, "document_number", &self.document_number);
        let o = with_text(o, "value", &self.value);
        o
    }

    /// Encodes the values as a JSON array, in their order.
    pub fn list_to_json(items: &Vec<ReceiptIndustryDetails>) -> (r: serde_json::Value)
        ensures
            json_view(r) == ReceiptIndustryDetailsView::list_to_json(seq_view(items@)),
    {
        let mut out: Vec<serde_json::Value> = Vec::new();
        let mut i: usize = 0;
        while i < items.len()
            invariant
                i <= items.len(),
                out@.len() == i,
                forall|k: int| 0 <= k < i ==> json_view(#[trigger] out@[k]) == items@[k]@.to_json(),
            decreases items.len() - i,
        {
            out.push(items[i].to_json());
            i += 1;
        }
        proof {
            assert(json_views(out@)
                =~= ReceiptIndustryDetailsView::list_items_to_json(seq_view(items@)));
        }
        list_value(out)
    }

    /// The object with these values as an array under `key`, where there are any.
    pub fn put_opt_list(object: serde_json::Value, key: &str, value: &Option<Vec<ReceiptIndustryDetails>>)
        -> (r:
        serde_json::Value)
        ensures
            json_view(r) == json_view(object).with_opt(
                key@,
                ReceiptIndustryDetailsView::opt_list_to_json(opt_seq_view(*value)),
            ),
    {
        match value {
            Some(l) => with_member(object, key, Self::list_to_json(l)),
            None => object,
        }
    }
}

/// The operational attribute of a receipt.
#[derive(Debug, Clone)]
pub struct ReceiptOperationalDetails {
    pub operation_id: i32,
    pub value: String,
    pub created_at: String,
}

/// What a [`ReceiptOperationalDetails`] holds, as mathematical values.
pub struct ReceiptOperationalDetailsView {
    pub operation_id: i32,
    pub value: Seq<char>,
    pub created_at: Seq<char>,
}

impl View for ReceiptOperationalDetails {
    type V = ReceiptOperationalDetailsView;

    open spec fn view(&self) -> ReceiptOperationalDetailsView {
        ReceiptOperationalDetailsView {
            operation_id: self.operation_id,
            value: self.value@,
            created_at: self.created_at@,
        }
    }
}

impl ReceiptOperationalDetailsView {
    /// What a JSON document decodes to: the members in the order of the
    /// fields, the first one that fails deciding the error.
    pub open spec fn of_json(j: JsonView)
        -> Result<ReceiptOperationalDetailsView, YooKassaErrorView> {
        if let Err(e) = int_at(j, "operation_id"@) {
            Err(e)
        } else if let Err(e) = text_at(j, "value"@) {
            Err(e)
        } else if let Err(e) = text_at(j, "created_at"@) {
            Err(e)
        } else {
            Ok(
                ReceiptOperationalDetailsView {
                    operation_id: int_at(j, "operation_id"@)->Ok_0,
                    value: text_at(j, "value"@)->Ok_0,
                    created_at: text_at(j, "created_at"@)->Ok_0,
                },
            )
        }
    }

    /// The optional member under `key`, decoded where it is present.
    pub open spec fn opt_at(j: JsonView, key: Seq<char>) -> Result<
        Option<ReceiptOperationalDetailsView>,
        YooKassaErrorView,
    > {
        match j.get_present(key) {
            None => Ok(None),
            Some(x) => match Self::of_json(x) {
                Ok(t) => Ok(Some(t)),
                Err(e) => Err(e),
            },
        }
    }

    /// The JSON object that stands for this value: every required member, and
    /// each optional member that is set.
    pub open spec fn to_json(self) -> JsonView {
        JsonView::empty_object()
            .with("operation_id"@, int_json(self.operation_id))
            .with("value"@, JsonView::Text(self.value))
            .with("created_at"@, JsonView::Text(self.created_at))
    }

    pub open spec fn opt_to_json(o: Option<ReceiptOperationalDetailsView>) -> Option<JsonView> {
        match o {
            Some(t) => Some(t.to_json()),
            None => None,
        }
    }

    /// What tells the names of the members apart: their lengths and, where
    /// two are of one length, a character.
    proof fn lemma_member_names()
        ensures
            "operation_id"@.len() == 12,
            "value"@.len() == 5,
            "created_at"@.len() == 10,
    {
        reveal_strlit("operation_id");
        reveal_strlit("value");
        reveal_strlit("created_at");
    }

    /// Decoding the encoded value gives the value back.
    pub proof fn lemma_round_trip(self)
        ensures
            Self::of_json(self.to_json()) == Ok::<_, YooKassaErrorView>(self),
    {
        Self::lemma_member_names();
    }
}

impl ReceiptOperationalDetails {
    /// Decodes a value from a JSON document. Members that the type does not
    /// know are passed over.
    pub fn from_json(v: &serde_json::Value) -> (r: Result<ReceiptOperationalDetails, YooKassaError>)
        ensures
            decoded(r) == ReceiptOperationalDetailsView::of_json(json_view(*v)),
    {
        let operation_id = get_int(v, "operation_id")?;
        let value = get_text(v, "value")?;
        let created_at = get_text(v, "created_at")?;
        Ok(ReceiptOperationalDetails { operation_id, value, created_at })
    }

    /// Decodes the optional member under `key`.
    pub fn get_opt(v: &serde_json::Value, key: &str) -> (r: Result<
        Option<ReceiptOperationalDetails>,
        YooKassaError,
    >)
        ensures
            decoded_opt(r) == ReceiptOperationalDetailsView::opt_at(json_view(*v), key@),
    {
        match present_member(v, key) {
            None => Ok(None),
            Some(x) => match Self::from_json(&x) {
                Ok(t) => Ok(Some(t)),
                Err(e) => Err(e),
            },
        }
    }

    /// Encodes the value as a JSON object. An optional field that is not set
    /// leaves no member behind.
    pub fn to_json(&self) -> (r: serde_json::Value)
        ensures
            json_view(r) == self@.to_json(),
    {
        let o = empty_object();
        let o = with_int(o, "operation_id", self.operation_id);
        let o = with_text(o, "value", &self.value);
        let o = with_text(o, "created_at", &self.created_at);
        o
    }

    /// The object with this value under `key`, where there is a value.
    pub fn put_opt(object: serde_json::Value, key: &str, value: &Option<ReceiptOperationalDetails>)
        -> (r:
        serde_json::Value)
        ensures
            json_view(r) == json_view(object).with_opt(
                key@,
                ReceiptOperationalDetailsView::opt_to_json(opt_view(*value)),
            ),
    {
        match value {
            Some(t) => with_member(object, key, t.to_json()),
            None => object,
        }
    }
}

/// The fiscal data that accompanies a payment.
#[derive(Debug, Clone)]
pub struct Receipt {
    pub customer: Option<ReceiptCustomer>,
    pub items: Vec<ReceiptItem>,
    pub tax_system_code: Option<i32>,
    pub receipt_industry_details: Option<Vec<ReceiptIndustryDetails>>,
    pub receipt_operational_details: Option<ReceiptOperationalDetails>,
}

/// What a [`Receipt`] holds, as mathematical values.
pub struct ReceiptView {
    pub customer: Option<ReceiptCustomerView>,
    pub items: Seq<ReceiptItemView>,
    pub tax_system_code: Option<i32>,
    pub receipt_industry_details: Option<Seq<ReceiptIndustryDetailsView>>,
    pub receipt_operational_details: Option<ReceiptOperationalDetailsView>,
}

impl View for Receipt {
    type V = ReceiptView;

    open spec fn view(&self) -> ReceiptView {
        ReceiptView {
            customer: opt_view(self.customer),
            items: seq_view(self.items@),
            tax_system_code: self.tax_system_code,
            receipt_industry_details: opt_seq_view(self.receipt_industry_details),
            receipt_operational_details: opt_view(self.receipt_operational_details),
        }
    }
}

impl ReceiptView {
    /// What a JSON document decodes to: the members in the order of the
    /// fields, the first one that fails deciding the error.
    pub open spec fn of_json(j: JsonView) -> Result<ReceiptView, YooKassaErrorView> {
        if let Err(e) = ReceiptCustomerView::opt_at(j, "customer"@) {
            Err(e)
        } else if let Err(e) = ReceiptItemView::list_at(j, "items"@) {
            Err(e)
        } else if let Err(e) = opt_int_at(j, "tax_system_code"@) {
            Err(e)
        } else if let Err(e) = ReceiptIndustryDetailsView::opt_list_at(j, "receipt_industry_details"@) {
            Err(e)
        } else if let Err(e) = ReceiptOperationalDetailsView::opt_at(j, "receipt_operational_details"@) {
            Err(e)
        } else {
            Ok(
                ReceiptView {
                    customer: ReceiptCustomerView::opt_at(j, "customer"@)->Ok_0,
                    items: ReceiptItemView::list_at(j, "items"@)->Ok_0,
                    tax_system_code: opt_int_at(j, "tax_system_code"@)->Ok_0,
                    receipt_industry_details:
                        ReceiptIndustryDetailsView::opt_list_at(j, "receipt_industry_details"@)->Ok_0,
                    receipt_operational_details:
                        ReceiptOperationalDetailsView::opt_at(j, "receipt_operational_details"@)->Ok_0,
                },
            )
        }
    }

    /// The optional member under `key`, decoded where it is present.
    pub open spec fn opt_at(j: JsonView, key: Seq<char>) -> Result<
        Option<ReceiptView>,
        YooKassaErrorView,
    > {
        match j.get_present(key) {
            None => Ok(None),
            Some(x) => match Self::of_json(x) {
                Ok(t) => Ok(Some(t)),
                Err(e) => Err(e),
            },
        }
    }

    /// The JSON object that stands for this value: every required member, and
    /// each optional member that is set.
    pub open spec fn to_json(self) -> JsonView {
        JsonView::empty_object()
            .with_opt("customer"@, ReceiptCustomerView::opt_to_json(self.customer))
            .with("items"@, ReceiptItemView::list_to_json(self.items))
            .with_opt("tax_system_code"@, opt_int_json(self.tax_system_code))
            .with_opt(
                "receipt_industry_details"@,
                ReceiptIndustryDetailsView::opt_list_to_json(self.receipt_industry_details),
            )
            .with_opt(
                "receipt_operational_details"@,
                ReceiptOperationalDetailsView::opt_to_json(self.receipt_operational_details),
            )
    }

    pub open spec fn opt_to_json(o: Option<ReceiptView>) -> Option<JsonView> {
        match o {
            Some(t) => Some(t.to_json()),
            None => None,
        }
    }

    /// What tells the names of the members apart: their lengths and, where
    /// two are of one length, a character.
    proof fn lemma_member_names()
        ensures
            "customer"@.len() == 8,
            "items"@.len() == 5,
            "tax_system_code"@.len() == 15,
            "receipt_industry_details"@.len() == 24,
            "receipt_operational_details"@.len() == 27,
    {
        reveal_strlit("customer");
        reveal_strlit("items");
        reveal_strlit("tax_system_code");
        reveal_strlit("receipt_industry_details");
        reveal_strlit("receipt_operational_details");
    }

    /// Decoding the encoded value gives the value back.
    pub proof fn lemma_round_trip(self)
        ensures
            Self::of_json(self.to_json()) == Ok::<_, YooKassaErrorView>(self),
    {
        Self::lemma_member_names();
        match self.customer {
            Some(x) => {
                x.lemma_round_trip();
            },
            None => {},
        }
        ReceiptItemView::lemma_list_round_trip(self.items);
        match self.receipt_industry_details {
            Some(l) => {
                ReceiptIndustryDetailsView::lemma_list_round_trip(l);
            },
            None => {},
        }
        match self.receipt_operational_details {
            Some(x) => {
                x.lemma_round_trip();
            },
            None => {},
        }
    }

    /// An optional field that is not set leaves no member in the encoded
    /// object, and one that is set leaves its member.
    pub proof fn lemma_unset_is_omitted(self)
        ensures
            self.customer is None <==> self.to_json().get("customer"@) is None,
            self.tax_system_code is None <==> self.to_json().get("tax_system_code"@) is None,
            self.receipt_industry_details is None
                <==> self.to_json().get("receipt_industry_details"@) is None,
            self.receipt_operational_details is None
                <==> self.to_json().get("receipt_operational_details"@) is None,
    {
        Self::lemma_member_names();
    }
}

impl Receipt {
    /// Decodes a value from a JSON document. Members that the type does not
    /// know are passed over.
    pub fn from_json(v: &serde_json::Value) -> (r: Result<Receipt, YooKassaError>)
        ensures
            decoded(r) == ReceiptView::of_json(json_view(*v)),
    {
        let customer = ReceiptCustomer::get_opt(v, "customer")?;
        let items = ReceiptItem::get_list(v, "items")?;
        let tax_system_code = get_opt_int(v, "tax_system_code")?;
        let receipt_industry_details =
            ReceiptIndustryDetails::get_opt_list(v, "receipt_industry_details")?;
        let receipt_operational_details =
            ReceiptOperationalDetails::get_opt(v, "receipt_operational_details")?;
        Ok(
            Receipt {
                customer,
                items,
                tax_system_code,
                receipt_industry_details,
                receipt_operational_details,
            },
        )
    }

    /// Decodes the optional member under `key`.
    pub fn get_opt(v: &serde_json::Value, key: &str) -> (r: Result<
        Option<Receipt>,
        YooKassaError,
    >)
        ensures
            decoded_opt(r) == ReceiptView::opt_at(json_view(*v), key@),
    {
        match present_member(v, key) {
            None => Ok(None),
            Some(x) => match Self::from_json(&x) {
                Ok(t) => Ok(Some(t)),
                Err(e) => Err(e),
            },
        }
    }

    /// Encodes the value as a JSON object. An optional field that is not set
    /// leaves no member behind.
    pub fn to_json(&self) -> (r: serde_json::Value)
        ensures
            json_view(r) == self@.to_json(),
    {
        let o = empty_object();
        let o = ReceiptCustomer::put_opt(o, "customer", &self.customer);
        let o = with_member(o, "items", ReceiptItem::list_to_json(&self.items));
        let o = with_opt_int(o, "tax_system_code", self.tax_system_code);
        let o =
            ReceiptIndustryDetails::put_opt_list(o, "receipt_industry_details", &self.receipt_industry_details);
        let o =
            ReceiptOperationalDetails::put_opt(o, "receipt_operational_details", &self.receipt_operational_details);
        o
    }

    /// The object with this value under `key`, where there is a value.
    pub fn put_opt(object: serde_json::Value, key: &str, value: &Option<Receipt>) -> (r:
        serde_json::Value)
        ensures
            json_view(r) == json_view(object).with_opt(
                key@,
                ReceiptView::opt_to_json(opt_view(*value)),
            ),
    {
        match value {
            Some(t) => with_member(object, key, t.to_json()),
            None => object,
        }
    }
}

} // verus!
