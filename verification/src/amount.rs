//! Sums of money.

use vstd::prelude::*;
use crate::error::{YooKassaError, YooKassaErrorView};
use crate::fields::{decoded, decoded_opt, get_text, missing, opt_view, text_at, with_text};
use crate::json::{empty_object, json_view, member, present_member, with_member, JsonView};

verus! {

/// A sum of money: a decimal number written as text, and a currency code.
#[derive(Debug, Clone)]
pub struct Amount {
    pub value: String,
    pub currency: String,
}

/// What a [`Amount`] holds, as mathematical values.
pub struct AmountView {
    pub value: Seq<char>,
    pub currency: Seq<char>,
}

impl View for Amount {
    type V = AmountView;

    open spec fn view(&self) -> AmountView {
        AmountView {
            value: self.value@,
            currency: self.currency@,
        }
    }
}

impl AmountView {
    /// What a JSON document decodes to: the members in the order of the
    /// fields, the first one that fails deciding the error.
    pub open spec fn of_json(j: JsonView) -> Result<AmountView, YooKassaErrorView> {
        if let Err(e) = text_at(j, "value"@) {
            Err(e)
        } else if let Err(e) = text_at(j, "currency"@) {
            Err(e)
        } else {
            Ok(
                AmountView {
                    value: text_at(j, "value"@)->Ok_0,
                    currency: text_at(j, "currency"@)->Ok_0,
                },
            )
        }
    }

    /// The required member under `key`, decoded.
    pub open spec fn at(j: JsonView, key: Seq<char>) -> Result<AmountView, YooKassaErrorView> {
        match j.get(key) {
            None => Err(YooKassaErrorView::MissingField(key)),
            Some(x) => Self::of_json(x),
        }
    }

    /// The optional member under `key`, decoded where it is present.
    pub open spec fn opt_at(j: JsonView, key: Seq<char>) -> Result<
        Option<AmountView>,
        YooKassaErrorView,
    > {
        match j.get_present(key) {
            None => Ok(None),
            Some(x) => match Self::of_json(x) {
                Ok(t) => Ok(Some(t)),
                Err(e) => Err(e),
            },
        }
    }

    /// The JSON object that stands for this value: every required member, and
    /// each optional member that is set.
    pub open spec fn to_json(self) -> JsonView {
        JsonView::empty_object()
            .with("value"@, JsonView::Text(self.value))
            .with("currency"@, JsonView::Text(self.currency))
    }

    pub open spec fn opt_to_json(o: Option<AmountView>) -> Option<JsonView> {
        match o {
            Some(t) => Some(t.to_json()),
            None => None,
        }
    }

    /// What tells the names of the members apart: their lengths and, where
    /// two are of one length, a character.
    proof fn lemma_member_names()
        ensures
            "value"@.len() == 5,
            "currency"@.len() == 8,
    {
        reveal_strlit("value");
        reveal_strlit("currency");
    }

    /// Decoding the encoded value gives the value back.
    pub proof fn lemma_round_trip(self)
        ensures
            Self::of_json(self.to_json()) == Ok::<_, YooKassaErrorView>(self),
    {
        Self::lemma_member_names();
    }
}

impl Amount {
    /// Decodes a value from a JSON document. Members that the type does not
    /// know are passed over.
    pub fn from_json(v: &serde_json::Value) -> (r: Result<Amount, YooKassaError>)
        ensures
            decoded(r) == AmountView::of_json(json_view(*v)),
    {
        let value = get_text(v, "value")?;
        let currency = get_text(v, "currency")?;
        Ok(Amount { value, currency })
    }

    /// Decodes the required member under `key`.
    pub fn get(v: &serde_json::Value, key: &str) -> (r: Result<Amount, YooKassaError>)
        ensures
            decoded(r) == AmountView::at(json_view(*v), key@),
    {
        match member(v, key) {
            None => Err(missing(key)),
            Some(x) => Self::from_json(&x),
        }
    }

    /// Decodes the optional member under `key`.
    pub fn get_opt(v: &serde_json::Value, key: &str) -> (r: Result<
        Option<Amount>,
        YooKassaError,
    >)
        ensures
            decoded_opt(r) == AmountView::opt_at(json_view(*v), key@),
    {
        match present_member(v, key) {
            None => Ok(None),
            Some(x) => match Self::from_json(&x) {
                Ok(t) => Ok(Some(t)),
                Err(e) => Err(e),
            },
        }
    }

    /// Encodes the value as a JSON object. An optional field that is not set
    /// leaves no member behind.
    pub fn to_json(&self) -> (r: serde_json::Value)
        ensures
            json_view(r) == self@.to_json(),
    {
        let o = empty_object();
        let o = with_text(o, "value", &self.value);
        let o = with_text(o, "currency", &self.currency);
        o
    }

    /// The object with this value under `key`, where there is a value.
    pub fn put_opt(object: serde_json::Value, key: &str, value: &Option<Amount>) -> (r:
        serde_json::Value)
        ensures
            json_view(r) == json_view(object).with_opt(
                key@,
                AmountView::opt_to_json(opt_view(*value)),
            ),
    {
        match value {
            Some(t) => with_member(object, key, t.to_json()),
            None => object,
        }
    }
}
pub open spec fn is_digit(c: char) -> bool {
    48 <= c as u32 <= 57
}

pub open spec fn is_upper_case_letter(c: char) -> bool {
    65 <= c as u32 <= 90
}

/// One digit or more, and nothing else.
pub open spec fn is_digits(s: Seq<char>) -> bool {
    s.len() > 0 && forall|i: int| 0 <= i < s.len() ==> is_digit(#[trigger] s[i])
}

/// Whether `s` is digits, a point at position `p`, and digits.
pub open spec fn has_point_at(s: Seq<char>, p: int) -> bool {
    0 <= p < s.len() && s[p] == '.' && is_digits(s.take(p)) && is_digits(s.skip(p + 1))
}

/// A monetary decimal: digits, with or without a point and further digits.
pub open spec fn is_decimal(s: Seq<char>) -> bool {
    is_digits(s) || exists|p: int| has_point_at(s, p)
}

/// A currency code: three upper-case letters.
pub open spec fn is_currency_code(s: Seq<char>) -> bool {
    s.len() == 3 && forall|i: int| 0 <= i < s.len() ==> is_upper_case_letter(#[trigger] s[i])
}

impl AmountView {
    /// The invariant of an amount: a monetary decimal and a currency code.
    pub open spec fn well_formed(self) -> bool {
        is_decimal(self.value) && is_currency_code(self.currency)
    }
}

/// The number of digits that stand in `s` from position `from` on.
pub fn count_digits(s: &str, from: usize) -> (n: usize)
    requires
        from <= s@.len(),
    ensures
        from + n <= s@.len(),
        forall|i: int| from <= i < from + n ==> is_digit(#[trigger] s@[i]),
        from + n < s@.len() ==> !is_digit(s@[from + n]),
{
    let len = s.unicode_len();
    let mut i: usize = from;
    while i < len
        invariant
            len == s@.len(),
            from <= i <= len,
            forall|k: int| from <= k < i ==> is_digit(#[trigger] s@[k]),
        decreases len - i,
    {
        let code = s.get_char(i) as u32;
        if !(48 <= code && code <= 57) {
            return i - from;
        }
        i += 1;
    }
    i - from
}

/// Whether a text is a monetary decimal.
pub fn is_decimal_text(s: &str) -> (r: bool)
    ensures
        r == is_decimal(s@),
{
    let len = s.unicode_len();
    let whole = count_digits(s, 0);
    if whole == 0 {
        proof {
            assert forall|p: int| !has_point_at(s@, p) by {
                if 0 < p < s@.len() {
                    assert(s@.take(p)[0] == s@[0]);
                }
            }
        }
        return false;
    }
    if whole == len {
        return true;
    }
    if s.get_char(whole) != '.' {
        proof {
            assert forall|p: int| !has_point_at(s@, p) by {
                if whole < p < s@.len() {
                    assert(s@.take(p)[whole as int] == s@[whole as int]);
                } else if 0 <= p < whole {
                    assert(is_digit(s@[p]));
                }
            }
        }
        return false;
    }
    let fraction = count_digits(s, whole + 1);
    let ghost rest = s@.skip(whole + 1);
    if fraction > 0 && whole + 1 + fraction == len {
        proof {
            assert forall|i: int| 0 <= i < rest.len() implies is_digit(#[trigger] rest[i]) by {
                assert(rest[i] == s@[whole + 1 + i]);
            }
            assert(has_point_at(s@, whole as int));
        }
        true
    } else {
        proof {
            assert(!is_digit(s@[whole as int]));
            if rest.len() > 0 {
                assert(rest[fraction as int] == s@[whole + 1 + fraction]);
            }
            assert forall|p: int| !has_point_at(s@, p) by {
                if whole < p < s@.len() {
                    assert(s@.take(p)[whole as int] == s@[whole as int]);
                } else if 0 <= p < whole {
                    assert(is_digit(s@[p]));
                }
            }
        }
        false
    }
}

/// Whether a text is a currency code.
pub fn is_currency_code_text(s: &str) -> (r: bool)
    ensures
        r == is_currency_code(s@),
{
    let len = s.unicode_len();
    if len != 3 {
        return false;
    }
    let mut i: usize = 0;
    while i < len
        invariant
            len == s@.len(),
            i <= len,
            forall|k: int| 0 <= k < i ==> is_upper_case_letter(#[trigger] s@[k]),
        decreases len - i,
    {
        let code = s.get_char(i) as u32;
        if !(65 <= code && code <= 90) {
            return false;
        }
        i += 1;
    }
    true
}

impl Amount {
    /// Whether the amount keeps its invariant. Decoding does not ask for
    /// it: an amount is taken as the gateway wrote it.
    pub fn is_well_formed(&self) -> (r: bool)
        ensures
            r == self@.well_formed(),
    {
        is_decimal_text(self.value.as_str()) && is_currency_code_text(self.currency.as_str())
    }
}

} // verus!
