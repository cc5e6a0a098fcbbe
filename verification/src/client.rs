//! The client: what it sends for each operation, and what it makes of the
//! gateway's answer.

use vstd::prelude::*;
use crate::api_error::{YooKassaApiError, YooKassaApiErrorView};
use crate::error::{YooKassaError, YooKassaErrorView};
use crate::fields::{decoded, opt_view};
use crate::json::{
    json_text, json_view, parse_failure, parse_json, parsed_json, to_text, JsonView,
};
use crate::operation::{HttpMethod, Operation};
use crate::payment::{Payment, PaymentList, PaymentListView, PaymentView};
use crate::request::{CapturePaymentRequest, CreatePaymentRequest};

verus! {

/// The address of the gateway.
pub open spec fn api_base_url() -> Seq<char> {
    "https://api.yookassa.ru/v3/"@
}

/// The name of the header that carries the idempotency key.
pub open spec fn idempotence_key_header() -> Seq<char> {
    "Idempotence-Key"@
}

/// The seconds after which the transport gives a request up.
pub open spec fn request_timeout_secs() -> u64 {
    30
}

/// The headers of every request.
pub open spec fn common_headers() -> Seq<(Seq<char>, Seq<char>)> {
    seq![("Content-Type"@, "application/json"@), ("Accept"@, "application/json"@)]
}

/// The headers of a request with the given idempotency key, if it has one.
pub open spec fn headers_with(key: Option<Seq<char>>) -> Seq<(Seq<char>, Seq<char>)> {
    match key {
        Some(k) => common_headers().push((idempotence_key_header(), k)),
        None => common_headers(),
    }
}

/// Whether a character may stand in a header value: a tab, or anything that
/// is no control character.
pub open spec fn is_header_value_char(c: char) -> bool {
    c == '\t' || (c as u32 >= 32 && c as u32 != 127)
}

pub open spec fn is_header_value(s: Seq<char>) -> bool {
    forall|i: int| 0 <= i < s.len() ==> is_header_value_char(#[trigger] s[i])
}

/// Whether a character may stand in a generated key: a hyphen or a
/// lower-case hexadecimal digit.
pub open spec fn is_key_char(c: char) -> bool {
    c == '-' || (48 <= c as u32 <= 57) || (97 <= c as u32 <= 102)
}

/// The form of a generated key: 36 characters, hyphens and lower-case
/// hexadecimal digits.
pub open spec fn is_generated_key(s: Seq<char>) -> bool {
    s.len() == 36 && forall|i: int| 0 <= i < s.len() ==> is_key_char(#[trigger] s[i])
}

/// A pair of texts as mathematical values.
pub open spec fn pair_view(p: (String, String)) -> (Seq<char>, Seq<char>) {
    (p.0@, p.1@)
}

pub open spec fn pairs_view(s: Seq<(String, String)>) -> Seq<(Seq<char>, Seq<char>)> {
    s.map_values(|p: (String, String)| pair_view(p))
}

pub open spec fn str_pairs_view(s: Seq<(&str, &str)>) -> Seq<(Seq<char>, Seq<char>)> {
    s.map_values(|p: (&str, &str)| (p.0@, p.1@))
}

/// A request that is ready for the transport. The transport sends it with
/// HTTP basic authentication for `username` and `password`.
#[derive(Debug, Clone)]
pub struct PreparedRequest {
    pub method: HttpMethod,
    pub url: String,
    pub username: String,
    pub password: String,
    pub headers: Vec<(String, String)>,
    pub query: Vec<(String, String)>,
    pub body: Option<String>,
    pub timeout_secs: u64,
}

/// What a [`PreparedRequest`] holds, as mathematical values.
pub struct PreparedRequestView {
    pub method: HttpMethod,
    pub url: Seq<char>,
    pub username: Seq<char>,
    pub password: Seq<char>,
    pub headers: Seq<(Seq<char>, Seq<char>)>,
    pub query: Seq<(Seq<char>, Seq<char>)>,
    pub body: Option<Seq<char>>,
    pub timeout_secs: u64,
}

impl View for PreparedRequest {
    type V = PreparedRequestView;

    open spec fn view(&self) -> PreparedRequestView {
        PreparedRequestView {
            method: self.method,
            url: self.url@,
            username: self.username@,
            password: self.password@,
            headers: pairs_view(self.headers@),
            query: pairs_view(self.query@),
            body: opt_view(self.body),
            timeout_secs: self.timeout_secs,
        }
    }
}

impl PreparedRequestView {
    /// Whether the request carries a header of this name.
    pub open spec fn has_header(self, name: Seq<char>) -> bool {
        exists|i: int| 0 <= i < self.headers.len() && (#[trigger] self.headers[i]).0 == name
    }

    /// The idempotency key that the request carries, if it carries one.
    pub open spec fn idempotency_key(self) -> Option<Seq<char>> {
        if self.headers.len() == 3 && self.headers[2].0 == idempotence_key_header() {
            Some(self.headers[2].1)
        } else {
            None
        }
    }
}

/// The credentials of a shop and the address of the gateway.
#[derive(Debug, Clone)]
pub struct YooKassaClient {
    shop_id: String,
    secret_key: String,
    base_url: String,
}

/// What a [`YooKassaClient`] holds, as mathematical values.
pub struct YooKassaClientView {
    pub shop_id: Seq<char>,
    pub secret_key: Seq<char>,
    pub base_url: Seq<char>,
}

impl YooKassaClientView {
    /// The request that a client sends: the address is the base address
    /// followed by the endpoint, the credentials are the shop's, and the
    /// idempotency key, where there is one, follows the common headers.
    pub open spec fn request(
        self,
        method: HttpMethod,
        endpoint: Seq<char>,
        query: Seq<(Seq<char>, Seq<char>)>,
        body: Option<Seq<char>>,
        key: Option<Seq<char>>,
    ) -> PreparedRequestView {
        PreparedRequestView {
            method,
            url: self.base_url + endpoint,
            username: self.shop_id,
            password: self.secret_key,
            headers: headers_with(key),
            query,
            body,
            timeout_secs: request_timeout_secs(),
        }
    }
}

pub open spec fn payments_path() -> Seq<char> {
    "payments"@
}

pub open spec fn payment_path(payment_id: Seq<char>) -> Seq<char> {
    "payments/"@ + payment_id
}

pub open spec fn capture_path(payment_id: Seq<char>) -> Seq<char> {
    "payments/"@ + payment_id + "/capture"@
}

pub open spec fn cancel_path(payment_id: Seq<char>) -> Seq<char> {
    "payments/"@ + payment_id + "/cancel"@
}

/// The text of the JSON object without members.
pub open spec fn empty_body() -> Seq<char> {
    "{}"@
}

/// What holds of a prepared request: it is the client's request for these
/// parts; it carries an idempotency key, under the header of that name,
/// exactly when one is required; and a key that it carries has the form of a
/// generated key.
pub open spec fn prepared(
    client: YooKassaClientView,
    method: HttpMethod,
    key_required: bool,
    endpoint: Seq<char>,
    query: Seq<(Seq<char>, Seq<char>)>,
    body: Option<Seq<char>>,
    r: PreparedRequestView,
) -> bool {
    &&& r == client.request(method, endpoint, query, body, r.idempotency_key())
    &&& r.idempotency_key() is Some <==> key_required
    &&& r.has_header(idempotence_key_header()) <==> key_required
    &&& r.idempotency_key() matches Some(k) ==> is_generated_key(k)
}

/// What holds of the request of an operation: method and key are as the
/// operation asks.
pub open spec fn prepared_for(
    client: YooKassaClientView,
    operation: Operation,
    endpoint: Seq<char>,
    query: Seq<(Seq<char>, Seq<char>)>,
    body: Option<Seq<char>>,
    r: PreparedRequestView,
) -> bool {
    prepared(
        client,
        operation.spec_method(),
        operation.spec_requires_idempotency_key(),
        endpoint,
        query,
        body,
        r,
    )
}

/// Whether a status code reports success: the codes from 200 to 299 do.
pub open spec fn spec_is_success(status: u16) -> bool {
    200 <= status < 300
}

/// The structured details that an error body holds: those of a JSON object
/// with the members of an error description, and none for any other text.
pub open spec fn error_details_of(body: Seq<char>) -> Option<YooKassaApiErrorView> {
    match parsed_json(body) {
        Some(j) => match YooKassaApiErrorView::of_json(j) {
            Ok(d) => Some(d),
            Err(_) => None,
        },
        None => None,
    }
}

/// The failure that a response without success stands for.
pub open spec fn api_failure(status: u16, body: Seq<char>) -> YooKassaErrorView {
    YooKassaErrorView::ApiError { status, message: body, error_details: error_details_of(body) }
}

/// What a response decodes to, given how the JSON document of a successful
/// response decodes: a response without success is an API error whatever its
/// body holds, and a successful one whose body is no JSON is a `Serde` error
/// with the parser's message.
pub open spec fn response_of<T>(
    status: u16,
    body: Seq<char>,
    decode: spec_fn(JsonView) -> Result<T, YooKassaErrorView>,
) -> Result<T, YooKassaErrorView> {
    if !spec_is_success(status) {
        Err(api_failure(status, body))
    } else {
        match parsed_json(body) {
            None => Err(YooKassaErrorView::Serde(parse_failure(body))),
            Some(j) => decode(j),
        }
    }
}

#[verifier::when_used_as_spec(spec_is_success)]
pub fn is_success(status: u16) -> (r: bool)
    ensures
        r == spec_is_success(status),
{
    200 <= status && status < 300
}

/// Whether a text may be sent as a header value.
pub fn check_header_value(value: &str) -> (r: bool)
    ensures
        r == is_header_value(value@),
{
    let n = value.unicode_len();
    let mut i: usize = 0;
    while i < n
        invariant
            n == value@.len(),
            i <= n,
            forall|k: int| 0 <= k < i ==> is_header_value_char(#[trigger] value@[k]),
        decreases n - i,
    {
        let c = value.get_char(i);
        let code = c as u32;
        if !(code == 9 || (code >= 32 && code != 127)) {
            assert(!is_header_value_char(value@[i as int]));
            return false;
        }
        i += 1;
    }
    true
}

/// A generated key can always be sent as a header value.
pub proof fn lemma_generated_key_is_header_value(key: Seq<char>)
    requires
        is_generated_key(key),
    ensures
        is_header_value(key),
{
    assert forall|i: int| 0 <= i < key.len() implies is_header_value_char(#[trigger] key[i]) by {
        assert(is_key_char(key[i]));
    }
}

/// A request that is prepared without a key carries no idempotency header,
/// and one that is prepared with a key carries the header with that key.
pub proof fn lemma_idempotency_header(
    client: YooKassaClientView,
    method: HttpMethod,
    endpoint: Seq<char>,
    query: Seq<(Seq<char>, Seq<char>)>,
    body: Option<Seq<char>>,
    key: Option<Seq<char>>,
)
    ensures
        client.request(method, endpoint, query, body, key).has_header(idempotence_key_header())
            <==> key is Some,
        client.request(method, endpoint, query, body, key).idempotency_key() == key,
{
    reveal_strlit("Content-Type");
    reveal_strlit("Accept");
    reveal_strlit("Idempotence-Key");
    let r = client.request(method, endpoint, query, body, key);
    assert(r.headers[0].0.len() == 12);
    assert(r.headers[1].0.len() == 6);
    assert(idempotence_key_header().len() == 15);
    if key is Some {
        assert(r.headers[2].0 == idempotence_key_header());
    }
}

/// A response without success whose body is no JSON is an API error that
/// holds the status, the body as it came, and no structured details.
pub proof fn lemma_unreadable_error_body(status: u16, body: Seq<char>)
    requires
        !spec_is_success(status),
        parsed_json(body) is None,
    ensures
        api_failure(status, body) == (YooKassaErrorView::ApiError {
            status,
            message: body,
            error_details: None,
        }),
{
}

/// `Uuid::new_v4` and its `to_string`: a random version 4 UUID in the
/// hyphenated lower-case form. Nothing is claimed of which one.
#[verifier::external_body]
fn fresh_idempotency_key() -> (r: String)
    ensures
        is_generated_key(r@),
{
    uuid::Uuid::new_v4().to_string()
}

/// A query without parameters.
pub fn no_query() -> (r: Vec<(String, String)>)
    ensures
        r@.len() == 0,
        pairs_view(r@) == Seq::<(Seq<char>, Seq<char>)>::empty(),
{
    let r: Vec<(String, String)> = Vec::new();
    proof {
        assert(pairs_view(r@) =~= Seq::empty());
    }
    r
}

/// Reads the structured details out of an error body, if it holds any.
pub fn parse_error_details(body: &str) -> (r: Option<YooKassaApiError>)
    ensures
        opt_view(r) == error_details_of(body@),
{
    match parse_json(body) {
        Ok(v) => match YooKassaApiError::from_json(&v) {
            Ok(d) => Some(d),
            Err(_) => None,
        },
        Err(_) => None,
    }
}

impl View for YooKassaClient {
    type V = YooKassaClientView;

    closed spec fn view(&self) -> YooKassaClientView {
        YooKassaClientView {
            shop_id: self.shop_id@,
            secret_key: self.secret_key@,
            base_url: self.base_url@,
        }
    }
}

impl YooKassaClient {
    /// A client for the shop with these credentials, at the gateway's address.
    pub fn new(shop_id: String, secret_key: String) -> (r: YooKassaClient)
        ensures
            r@ == (YooKassaClientView {
                shop_id: shop_id@,
                secret_key: secret_key@,
                base_url: api_base_url(),
            }),
    {
        YooKassaClient { shop_id, secret_key, base_url: "https://api.yookassa.ru/v3/".to_owned() }
    }

    /// The same client at another address.
    pub fn set_base_url(self, base_url: String) -> (r: YooKassaClient)
        ensures
            r@ == (YooKassaClientView { base_url: base_url@, ..self@ }),
    {
        let mut client = self;
        client.base_url = base_url;
        client
    }

    /// Prepares a request that carries the given idempotency key, or none.
    /// The request is refused exactly when the key cannot be sent as a header
    /// value.
    pub fn request_with_key(
        &self,
        method: HttpMethod,
        endpoint: &str,
        query: Vec<(String, String)>,
        body: Option<String>,
        key: Option<String>,
    ) -> (r: Result<PreparedRequest, YooKassaError>)
        ensures
            decoded(r) == (match key {
                Some(k) if !is_header_value(k@) => Err(YooKassaErrorView::InvalidHeaderValue(k@)),
                _ => Ok(
                    self@.request(method, endpoint@, pairs_view(query@), opt_view(body), opt_view(key)),
                ),
            }),
    {
        let url = self.base_url.clone().concat(endpoint);
        let mut headers: Vec<(String, String)> = Vec::new();
        headers.push(("Content-Type".to_owned(), "application/json".to_owned()));
        headers.push(("Accept".to_owned(), "application/json".to_owned()));
        proof {
            assert(pairs_view(headers@) =~= common_headers());
        }
        match key {
            Some(k) => {
                if !check_header_value(k.as_str()) {
                    return Err(YooKassaError::InvalidHeaderValue(k));
                }
                let ghost before = headers@;
                let ghost kv = k@;
                headers.push(("Idempotence-Key".to_owned(), k));
                proof {
                    assert(pairs_view(headers@) =~= pairs_view(before).push(
                        (idempotence_key_header(), kv),
                    ));
                }
            },
            None => {},
        }
        Ok(
            PreparedRequest {
                method,
                url,
                username: self.shop_id.clone(),
                password: self.secret_key.clone(),
                headers,
                query,
                body,
                timeout_secs: 30,
            },
        )
    }

    /// Prepares a request. Where a key is required, a fresh random one is
    /// generated for this request alone, so that no two requests share a key
    /// unless the generator repeats itself; where none is required, none is
    /// carried.
    pub fn send_request(
        &self,
        method: HttpMethod,
        endpoint: &str,
        query: Vec<(String, String)>,
        body: Option<String>,
        idempotency_key_required: bool,
    ) -> (r: Result<PreparedRequest, YooKassaError>)
        ensures
            r is Ok,
            prepared(
                self@,
                method,
                idempotency_key_required,
                endpoint@,
                pairs_view(query@),
                opt_view(body),
                r.unwrap()@,
            ),
    {
        let key = if idempotency_key_required {
            let k = fresh_idempotency_key();
            proof {
                lemma_generated_key_is_header_value(k@);
            }
            Some(k)
        } else {
            None
        };
        proof {
            lemma_idempotency_header(
                self@,
                method,
                endpoint@,
                pairs_view(query@),
                opt_view(body),
                opt_view(key),
            );
        }
        self.request_with_key(method, endpoint, query, body, key)
    }

    /// Prepares the request of an operation: the operation decides the
    /// method and whether the request carries an idempotency key.
    pub fn prepare(
        &self,
        operation: Operation,
        endpoint: &str,
        query: Vec<(String, String)>,
        body: Option<String>,
    ) -> (r: Result<PreparedRequest, YooKassaError>)
        ensures
            r is Ok,
            prepared_for(
                self@,
                operation,
                endpoint@,
                pairs_view(query@),
                opt_view(body),
                r.unwrap()@,
            ),
    {
        self.send_request(
            operation.method(),
            endpoint,
            query,
            body,
            operation.requires_idempotency_key(),
        )
    }

    /// The request that creates a payment: a POST to `payments` with the
    /// encoded request as its body and a fresh idempotency key.
    pub fn create_payment(&self, request: &CreatePaymentRequest) -> (r: Result<
        PreparedRequest,
        YooKassaError,
    >)
        ensures
            r is Ok,
            prepared_for(
                self@,
                Operation::CreatePayment,
                payments_path(),
                Seq::empty(),
                Some(json_text(request@.to_json())),
                r.unwrap()@,
            ),
    {
        let body = to_text(&request.to_json());
        self.prepare(Operation::CreatePayment, "payments", no_query(), Some(body))
    }

    /// The request that retrieves a payment: a GET of `payments/{id}`
    /// without a body and without an idempotency key.
    pub fn get_payment(&self, payment_id: &str) -> (r: Result<PreparedRequest, YooKassaError>)
        ensures
            r is Ok,
            prepared_for(
                self@,
                Operation::GetPayment,
                payment_path(payment_id@),
                Seq::empty(),
                None,
                r.unwrap()@,
            ),
    {
        let endpoint = "payments/".to_owned().concat(payment_id);
        self.prepare(Operation::GetPayment, endpoint.as_str(), no_query(), None)
    }

    /// The request that captures a payment: a POST to
    /// `payments/{id}/capture` with a fresh idempotency key. The body is the
    /// encoded request, and the empty JSON object where there is none; it is
    /// never left out.
    pub fn capture_payment(&self, payment_id: &str, request: Option<&CapturePaymentRequest>) -> (r:
        Result<PreparedRequest, YooKassaError>)
        ensures
            r is Ok,
            prepared_for(
                self@,
                Operation::CapturePayment,
                capture_path(payment_id@),
                Seq::empty(),
                Some(
                    match request {
                        Some(c) => json_text(c@.to_json()),
                        None => empty_body(),
                    },
                ),
                r.unwrap()@,
            ),
    {
        let endpoint = "payments/".to_owned().concat(payment_id).concat("/capture");
        let body = match request {
            Some(c) => to_text(&c.to_json()),
            None => "{}".to_owned(),
        };
        self.prepare(Operation::CapturePayment, endpoint.as_str(), no_query(), Some(body))
    }

    /// The request that cancels a payment: a POST to `payments/{id}/cancel`
    /// with the empty JSON object as its body and a fresh idempotency key.
    pub fn cancel_payment(&self, payment_id: &str) -> (r: Result<PreparedRequest, YooKassaError>)
        ensures
            r is Ok,
            prepared_for(
                self@,
                Operation::CancelPayment,
                cancel_path(payment_id@),
                Seq::empty(),
                Some(empty_body()),
                r.unwrap()@,
            ),
    {
        let endpoint = "payments/".to_owned().concat(payment_id).concat("/cancel");
        self.prepare(
            Operation::CancelPayment,
            endpoint.as_str(),
            no_query(),
            Some("{}".to_owned()),
        )
    }

    /// The request that lists payments: a GET of `payments` whose query
    /// holds the given filters, unchanged and in their order, without a body
    /// and without an idempotency key.
    pub fn list_payments(&self, params: Option<&[(&str, &str)]>) -> (r: Result<
        PreparedRequest,
        YooKassaError,
    >)
        ensures
            r is Ok,
            prepared_for(
                self@,
                Operation::ListPayments,
                payments_path(),
                match params {
                    Some(p) => str_pairs_view(p@),
                    None => Seq::empty(),
                },
                None,
                r.unwrap()@,
            ),
    {
        let mut query: Vec<(String, String)> = no_query();
        match params {
            Some(p) => {
                let mut i: usize = 0;
                while i < p.len()
                    invariant
                        i <= p@.len(),
                        query@.len() == i,
                        forall|k: int|
                            0 <= k < i ==> pair_view(#[trigger] query@[k]) == (p@[k].0@, p@[k].1@),
                    decreases p@.len() - i,
                {
                    let pair = p[i];
                    query.push((pair.0.to_owned(), pair.1.to_owned()));
                    i += 1;
                }
                proof {
                    assert(pairs_view(query@) =~= str_pairs_view(p@));
                }
            },
            None => {},
        }
        self.prepare(Operation::ListPayments, "payments", query, None)
    }

    /// Classifies a response by its status code alone and reads its body as
    /// JSON where the status reports success.
    pub fn process_response(&self, status: u16, body: &str) -> (r: Result<
        serde_json::Value,
        YooKassaError,
    >)
        ensures
            (match r {
                Ok(v) => Ok(json_view(v)),
                Err(e) => Err(e@),
            }) == response_of(status, body@, |j: JsonView| Ok::<JsonView, YooKassaErrorView>(j)),
    {
        if is_success(status) {
            match parse_json(body) {
                Ok(v) => Ok(v),
                Err(message) => Err(YooKassaError::Serde(message)),
            }
        } else {
            let error_details = parse_error_details(body);
            Err(YooKassaError::ApiError { status, message: body.to_owned(), error_details })
        }
    }

    /// Reads the payment that a response holds.
    pub fn payment_response(&self, status: u16, body: &str) -> (r: Result<Payment, YooKassaError>)
        ensures
            decoded(r) == response_of(status, body@, |j: JsonView| PaymentView::of_json(j)),
    {
        match self.process_response(status, body) {
            Ok(v) => Payment::from_json(&v),
            Err(e) => Err(e),
        }
    }

    /// Reads the page of payments that a response holds.
    pub fn payment_list_response(&self, status: u16, body: &str) -> (r: Result<
        PaymentList,
        YooKassaError,
    >)
        ensures
            decoded(r) == response_of(status, body@, |j: JsonView| PaymentListView::of_json(j)),
    {
        match self.process_response(status, body) {
            Ok(v) => PaymentList::from_json(&v),
            Err(e) => Err(e),
        }
    }
}

} // verus!
