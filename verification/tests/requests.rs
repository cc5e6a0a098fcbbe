use yookassa::{
    Amount, CapturePaymentRequest, ConfirmationRequest, CreatePaymentRequest, HttpMethod,
    Operation, PreparedRequest, Receipt, ReceiptItem, ReceiptMarkQuantity, YooKassaClient,
    YooKassaError,
};

fn client() -> YooKassaClient {
    YooKassaClient::new("shop".to_string(), "secret".to_string())
}

fn rub(value: &str) -> Amount {
    Amount { value: value.to_string(), currency: "RUB".to_string() }
}

fn bare_request(value: &str) -> CreatePaymentRequest {
    CreatePaymentRequest {
        amount: rub(value),
        description: None,
        payment_method_data: None,
        confirmation: None,
        capture: None,
        save_payment_method: None,
        metadata: None,
        receipt: None,
        payment_token: None,
        payment_method_id: None,
        client_ip: None,
    }
}

fn header(request: &PreparedRequest, name: &str) -> Option<String> {
    request.headers.iter().find(|(n, _)| n == name).map(|(_, v)| v.clone())
}

fn is_uuid_text(key: &str) -> bool {
    key.len() == 36
        && key.chars().enumerate().all(|(i, c)| {
            if i == 8 || i == 13 || i == 18 || i == 23 {
                c == '-'
            } else {
                c.is_ascii_digit() || ('a'..='f').contains(&c)
            }
        })
}

#[test]
fn policy_keys_exactly_the_mutating_operations() {
    assert!(Operation::CreatePayment.requires_idempotency_key());
    assert!(Operation::CapturePayment.requires_idempotency_key());
    assert!(Operation::CancelPayment.requires_idempotency_key());
    assert!(!Operation::GetPayment.requires_idempotency_key());
    assert!(!Operation::ListPayments.requires_idempotency_key());
    assert_eq!(Operation::CreatePayment.method(), HttpMethod::Post);
    assert_eq!(Operation::CapturePayment.method(), HttpMethod::Post);
    assert_eq!(Operation::CancelPayment.method(), HttpMethod::Post);
    assert_eq!(Operation::GetPayment.method(), HttpMethod::Get);
    assert_eq!(Operation::ListPayments.method(), HttpMethod::Get);
}

#[test]
fn create_payment_is_a_keyed_post() {
    let request = client().create_payment(&bare_request("10.00")).unwrap();
    assert_eq!(request.method, HttpMethod::Post);
    assert_eq!(request.url, "https://api.yookassa.ru/v3/payments");
    assert_eq!(request.username, "shop");
    assert_eq!(request.password, "secret");
    assert_eq!(request.timeout_secs, 30);
    assert!(request.query.is_empty());
    assert_eq!(request.headers.len(), 3);
    assert_eq!(request.headers[0], ("Content-Type".to_string(), "application/json".to_string()));
    assert_eq!(request.headers[1], ("Accept".to_string(), "application/json".to_string()));
    assert_eq!(request.headers[2].0, "Idempotence-Key");
    assert!(is_uuid_text(&request.headers[2].1));
    assert_eq!(
        request.body.as_deref(),
        Some("{\"amount\":{\"currency\":\"RUB\",\"value\":\"10.00\"}}")
    );
}

#[test]
fn two_creates_carry_distinct_keys() {
    let c = client();
    let first = c.create_payment(&bare_request("1.00")).unwrap();
    let second = c.create_payment(&bare_request("1.00")).unwrap();
    let a = header(&first, "Idempotence-Key").unwrap();
    let b = header(&second, "Idempotence-Key").unwrap();
    assert!(is_uuid_text(&a));
    assert!(is_uuid_text(&b));
    assert_ne!(a, b);
}

#[test]
fn two_captures_carry_distinct_keys() {
    let c = client();
    let a = header(&c.capture_payment("pay-1", None).unwrap(), "Idempotence-Key").unwrap();
    let b = header(&c.capture_payment("pay-1", None).unwrap(), "Idempotence-Key").unwrap();
    assert_ne!(a, b);
}

#[test]
fn two_cancels_carry_distinct_keys() {
    let c = client();
    let a = header(&c.cancel_payment("pay-1").unwrap(), "Idempotence-Key").unwrap();
    let b = header(&c.cancel_payment("pay-1").unwrap(), "Idempotence-Key").unwrap();
    assert_ne!(a, b);
}

#[test]
fn get_payment_has_no_key_and_no_body() {
    let request = client().get_payment("22e12f66-000f-5000-8000-18db351245c7").unwrap();
    assert_eq!(request.method, HttpMethod::Get);
    assert_eq!(
        request.url,
        "https://api.yookassa.ru/v3/payments/22e12f66-000f-5000-8000-18db351245c7"
    );
    assert_eq!(header(&request, "Idempotence-Key"), None);
    assert_eq!(request.headers.len(), 2);
    assert_eq!(request.body, None);
    assert!(request.query.is_empty());
}

#[test]
fn list_payments_has_no_key_and_passes_filters_through() {
    let filters = [("limit", "10"), ("status", "succeeded"), ("cursor", "abc 1&2")];
    let request = client().list_payments(Some(&filters)).unwrap();
    assert_eq!(request.method, HttpMethod::Get);
    assert_eq!(request.url, "https://api.yookassa.ru/v3/payments");
    assert_eq!(header(&request, "Idempotence-Key"), None);
    assert_eq!(request.body, None);
    assert_eq!(
        request.query,
        vec![
            ("limit".to_string(), "10".to_string()),
            ("status".to_string(), "succeeded".to_string()),
            ("cursor".to_string(), "abc 1&2".to_string()),
        ]
    );
    let plain = client().list_payments(None).unwrap();
    assert!(plain.query.is_empty());
    assert_eq!(header(&plain, "Idempotence-Key"), None);
}

#[test]
fn capture_without_request_sends_empty_object() {
    let request = client().capture_payment("pay-1", None).unwrap();
    assert_eq!(request.method, HttpMethod::Post);
    assert_eq!(request.url, "https://api.yookassa.ru/v3/payments/pay-1/capture");
    assert_eq!(request.body.as_deref(), Some("{}"));
    assert!(header(&request, "Idempotence-Key").is_some());
}

#[test]
fn capture_with_default_request_sends_empty_object() {
    let body = CapturePaymentRequest::default();
    let request = client().capture_payment("pay-1", Some(&body)).unwrap();
    assert_eq!(request.body.as_deref(), Some("{}"));
}

#[test]
fn capture_with_partial_amount() {
    let body = CapturePaymentRequest { amount: Some(rub("5.50")), receipt: None };
    let request = client().capture_payment("pay-1", Some(&body)).unwrap();
    assert_eq!(
        request.body.as_deref(),
        Some("{\"amount\":{\"currency\":\"RUB\",\"value\":\"5.50\"}}")
    );
}

#[test]
fn cancel_sends_empty_object() {
    let request = client().cancel_payment("pay-1").unwrap();
    assert_eq!(request.method, HttpMethod::Post);
    assert_eq!(request.url, "https://api.yookassa.ru/v3/payments/pay-1/cancel");
    assert_eq!(request.body.as_deref(), Some("{}"));
    assert!(is_uuid_text(&header(&request, "Idempotence-Key").unwrap()));
}

#[test]
fn base_url_can_be_replaced() {
    let c = client().set_base_url("http://localhost:8080/".to_string());
    assert_eq!(c.get_payment("x").unwrap().url, "http://localhost:8080/payments/x");
    assert_eq!(c.cancel_payment("x").unwrap().username, "shop");
}

#[test]
fn caller_supplied_key_is_carried() {
    let request = client()
        .request_with_key(
            HttpMethod::Post,
            "payments",
            Vec::new(),
            Some("{}".to_string()),
            Some("retry-1".to_string()),
        )
        .unwrap();
    assert_eq!(header(&request, "Idempotence-Key").as_deref(), Some("retry-1"));
}

#[test]
fn key_with_a_line_break_is_refused() {
    let result = client().request_with_key(
        HttpMethod::Post,
        "payments",
        Vec::new(),
        None,
        Some("a\nb".to_string()),
    );
    match result {
        Err(YooKassaError::InvalidHeaderValue(value)) => assert_eq!(value, "a\nb"),
        other => panic!("unexpected: {:?}", other),
    }
    assert!(yookassa::client::check_header_value("tab\tis fine"));
    assert!(!yookassa::client::check_header_value("del\u{7f}"));
    assert!(yookassa::client::check_header_value(""));
}

#[test]
fn send_request_without_key() {
    let request = client()
        .send_request(HttpMethod::Get, "payments", Vec::new(), None, false)
        .unwrap();
    assert_eq!(request.headers.len(), 2);
    let keyed = client()
        .send_request(HttpMethod::Post, "payments", Vec::new(), None, true)
        .unwrap();
    assert_eq!(keyed.headers.len(), 3);
}

#[test]
fn request_encoding_omits_unset_members() {
    let mut request = bare_request("100.00");
    request.description = Some("Order 7".to_string());
    request.capture = Some(true);
    request.confirmation = Some(ConfirmationRequest {
        confirmation_type: "redirect".to_string(),
        return_url: "https://example.com/back".to_string(),
        enforce: None,
        locale: Some("ru_RU".to_string()),
    });
    let text = request.to_json().to_string();
    assert_eq!(
        text,
        "{\"amount\":{\"currency\":\"RUB\",\"value\":\"100.00\"},\"capture\":true,\
\"confirmation\":{\"locale\":\"ru_RU\",\"return_url\":\"https://example.com/back\",\"type\":\"redirect\"},\
\"description\":\"Order 7\"}"
    );
}

#[test]
fn request_round_trip_keeps_set_members() {
    let mut request = bare_request("100.00");
    request.description = Some("Order 7".to_string());
    request.save_payment_method = Some(false);
    request.payment_token = Some("tok".to_string());
    request.metadata = Some(serde_json::from_str("{\"order_id\":\"123xyz\",\"n\":[1,2.5,null]}").unwrap());
    request.receipt = Some(Receipt {
        customer: None,
        items: vec![ReceiptItem {
            description: "Tea".to_string(),
            quantity: "2".to_string(),
            amount: rub("50.00"),
            vat_code: 4,
            payment_mode: None,
            payment_subject: Some("commodity".to_string()),
            country_of_origin_code: None,
            customs_declaration_number: None,
            excise: None,
            product_code: None,
            mark_quantity: Some(ReceiptMarkQuantity { numerator: 1, denominator: -2 }),
            payment_subject_industry_details: Some(Vec::new()),
            product_mark: None,
        }],
        tax_system_code: Some(1),
        receipt_industry_details: None,
        receipt_operational_details: None,
    });
    let wire = request.to_json();
    let object = wire.as_object().unwrap();
    assert!(!object.contains_key("capture"));
    assert!(!object.contains_key("confirmation"));
    assert!(!object.contains_key("client_ip"));
    let back = CreatePaymentRequest::from_json(&wire).unwrap();
    assert_eq!(back.amount.value, "100.00");
    assert_eq!(back.amount.currency, "RUB");
    assert_eq!(back.description.as_deref(), Some("Order 7"));
    assert_eq!(back.save_payment_method, Some(false));
    assert_eq!(back.payment_token.as_deref(), Some("tok"));
    assert_eq!(back.metadata, request.metadata);
    assert_eq!(back.capture, None);
    assert!(back.confirmation.is_none());
    assert!(back.payment_method_data.is_none());
    assert_eq!(back.client_ip, None);
    let receipt = back.receipt.clone().unwrap();
    assert_eq!(receipt.tax_system_code, Some(1));
    assert!(receipt.customer.is_none());
    assert_eq!(receipt.items.len(), 1);
    assert_eq!(receipt.items[0].description, "Tea");
    assert_eq!(receipt.items[0].vat_code, 4);
    assert_eq!(receipt.items[0].payment_subject.as_deref(), Some("commodity"));
    let mark = receipt.items[0].mark_quantity.as_ref().unwrap();
    assert_eq!((mark.numerator, mark.denominator), (1, -2));
    assert_eq!(receipt.items[0].payment_subject_industry_details.as_ref().map(|l| l.len()), Some(0));
    assert_eq!(back.to_json(), wire);
}

#[test]
fn integer_members_must_fit() {
    let too_big: serde_json::Value =
        serde_json::from_str("{\"numerator\":2147483648,\"denominator\":1}").unwrap();
    match ReceiptMarkQuantity::from_json(&too_big) {
        Err(YooKassaError::Serde(name)) => assert_eq!(name, "numerator"),
        other => panic!("unexpected: {:?}", other),
    }
    let edge: serde_json::Value =
        serde_json::from_str("{\"numerator\":-2147483648,\"denominator\":2147483647}").unwrap();
    let mark = ReceiptMarkQuantity::from_json(&edge).unwrap();
    assert_eq!((mark.numerator, mark.denominator), (i32::MIN, i32::MAX));
    let fraction: serde_json::Value =
        serde_json::from_str("{\"numerator\":1.5,\"denominator\":1}").unwrap();
    assert!(matches!(ReceiptMarkQuantity::from_json(&fraction), Err(YooKassaError::Serde(_))));
}

#[test]
fn request_names_at_most_one_instrument() {
    let mut request = bare_request("10.00");
    assert!(request.is_well_formed());
    request.payment_token = Some("tok".to_string());
    assert!(request.is_well_formed());
    request.payment_method_id = Some("saved".to_string());
    assert!(!request.is_well_formed());
    request.payment_token = None;
    assert!(request.is_well_formed());
    assert!(!bare_request("10,00").is_well_formed());
}
