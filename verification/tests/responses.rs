use yookassa::{Payment, PaymentList, PaymentStatus, YooKassaClient, YooKassaError};

fn client() -> YooKassaClient {
    YooKassaClient::new("shop".to_string(), "secret".to_string())
}

const PAYMENT: &str = "{\"id\":\"pay-1\",\"status\":\"waiting_for_capture\",\
\"amount\":{\"value\":\"10.00\",\"currency\":\"RUB\"},\
\"recipient\":{\"account_id\":\"100500\",\"gateway_id\":\"100700\"},\
\"created_at\":\"2024-01-01T00:00:00.000Z\",\"expires_at\":null,\
\"confirmation\":{\"type\":\"redirect\",\"confirmation_url\":\"https://pay.example/1\"},\
\"payment_method\":{\"type\":\"bank_card\",\"id\":\"m1\",\"saved\":false,\
\"card\":{\"last4\":\"4444\",\"expiry_year\":\"2030\",\"expiry_month\":\"12\",\"card_type\":\"Mir\"}},\
\"test\":true,\"paid\":true,\"refundable\":false,\"metadata\":{\"order_id\":\"7\"},\"unknown\":1}";

fn without(member: &str) -> String {
    let mut value: serde_json::Value = serde_json::from_str(PAYMENT).unwrap();
    value.as_object_mut().unwrap().remove(member);
    value.to_string()
}

#[test]
fn successful_response_decodes_payment() {
    let payment = client().payment_response(200, PAYMENT).unwrap();
    assert_eq!(payment.id, "pay-1");
    assert_eq!(payment.status, PaymentStatus::WaitingForCapture);
    assert_eq!(payment.amount.value, "10.00");
    assert_eq!(payment.amount.currency, "RUB");
    assert_eq!(payment.recipient.account_id, "100500");
    assert_eq!(payment.recipient.gateway_id, "100700");
    assert_eq!(payment.created_at, "2024-01-01T00:00:00.000Z");
    assert_eq!(payment.expires_at, None);
    assert_eq!(payment.captured_at, None);
    assert!(payment.test);
    assert!(payment.paid);
    assert!(!payment.refundable);
    let confirmation = payment.confirmation.unwrap();
    assert_eq!(confirmation.confirmation_type, "redirect");
    assert_eq!(confirmation.confirmation_url.as_deref(), Some("https://pay.example/1"));
    let method = payment.payment_method.unwrap();
    assert_eq!(method.payment_method_type, "bank_card");
    assert!(!method.saved);
    assert_eq!(method.card.unwrap().last4, "4444");
    assert_eq!(payment.metadata.unwrap()["order_id"], "7");
    assert!(payment.cancellation_details.is_none());
    assert!(payment.refunded_amount.is_none());
}

#[test]
fn every_2xx_status_is_success() {
    assert!(client().payment_response(201, PAYMENT).is_ok());
    assert!(client().payment_response(299, PAYMENT).is_ok());
    assert!(matches!(
        client().payment_response(300, PAYMENT),
        Err(YooKassaError::ApiError { status: 300, .. })
    ));
    assert!(matches!(
        client().payment_response(199, PAYMENT),
        Err(YooKassaError::ApiError { status: 199, .. })
    ));
    assert!(yookassa::client::is_success(200));
    assert!(!yookassa::client::is_success(404));
}

#[test]
fn missing_status_is_a_missing_field() {
    match client().payment_response(200, &without("status")) {
        Err(YooKassaError::MissingField(name)) => assert_eq!(name, "status"),
        other => panic!("unexpected: {:?}", other),
    }
}

#[test]
fn each_required_member_is_demanded() {
    for name in ["id", "status", "amount", "recipient", "created_at", "test", "paid", "refundable"] {
        match client().payment_response(200, &without(name)) {
            Err(YooKassaError::MissingField(missing)) => assert_eq!(missing, name),
            other => panic!("unexpected for {}: {:?}", name, other),
        }
    }
}

#[test]
fn unknown_status_is_refused() {
    let body = PAYMENT.replace("waiting_for_capture", "refunded");
    match client().payment_response(200, &body) {
        Err(YooKassaError::Serde(name)) => assert_eq!(name, "status"),
        other => panic!("unexpected: {:?}", other),
    }
}

#[test]
fn member_of_wrong_kind_is_refused() {
    let body = PAYMENT.replace("\"test\":true", "\"test\":\"yes\"");
    match client().payment_response(200, &body) {
        Err(YooKassaError::Serde(name)) => assert_eq!(name, "test"),
        other => panic!("unexpected: {:?}", other),
    }
    let nested = PAYMENT.replace("\"value\":\"10.00\",", "");
    match client().payment_response(200, &nested) {
        Err(YooKassaError::MissingField(name)) => assert_eq!(name, "value"),
        other => panic!("unexpected: {:?}", other),
    }
}

#[test]
fn malformed_success_body_is_a_serde_error() {
    assert!(matches!(client().payment_response(200, "{\"id\":"), Err(YooKassaError::Serde(_))));
    assert!(matches!(client().payment_response(200, ""), Err(YooKassaError::Serde(_))));
    assert!(matches!(client().process_response(200, "<html>"), Err(YooKassaError::Serde(_))));
}

#[test]
fn process_response_hands_the_document_on() {
    let value = client().process_response(200, "{\"a\":[1,true,null]}").unwrap();
    assert_eq!(value["a"][0], 1);
    assert_eq!(value["a"][1], true);
    assert!(value["a"][2].is_null());
}

#[test]
fn unparsable_error_body_keeps_raw_text() {
    match client().payment_response(402, "<html>Payment Required</html>") {
        Err(YooKassaError::ApiError { status, message, error_details }) => {
            assert_eq!(status, 402);
            assert_eq!(message, "<html>Payment Required</html>");
            assert!(error_details.is_none());
        }
        other => panic!("unexpected: {:?}", other),
    }
}

#[test]
fn empty_error_body_keeps_raw_text() {
    match client().payment_list_response(500, "") {
        Err(YooKassaError::ApiError { status, message, error_details }) => {
            assert_eq!(status, 500);
            assert_eq!(message, "");
            assert!(error_details.is_none());
        }
        other => panic!("unexpected: {:?}", other),
    }
}

#[test]
fn structured_error_body_is_decoded() {
    let body = "{\"type\":\"error\",\"id\":\"e1\",\"code\":\"invalid_request\",\
\"description\":\"Bad amount\",\"parameter\":\"amount.value\"}";
    match client().payment_response(400, body) {
        Err(YooKassaError::ApiError { status, message, error_details }) => {
            assert_eq!(status, 400);
            assert_eq!(message, body);
            let details = error_details.unwrap();
            assert_eq!(details.error_type, "error");
            assert_eq!(details.id, "e1");
            assert_eq!(details.code, "invalid_request");
            assert_eq!(details.description, "Bad amount");
            assert_eq!(details.parameter.as_deref(), Some("amount.value"));
        }
        other => panic!("unexpected: {:?}", other),
    }
}

#[test]
fn incomplete_error_body_has_no_details() {
    let body = "{\"type\":\"error\",\"id\":\"e1\"}";
    match client().payment_response(404, body) {
        Err(YooKassaError::ApiError { message, error_details, .. }) => {
            assert_eq!(message, body);
            assert!(error_details.is_none());
        }
        other => panic!("unexpected: {:?}", other),
    }
    let details = yookassa::client::parse_error_details(
        "{\"type\":\"error\",\"id\":\"e1\",\"code\":\"c\",\"description\":\"d\"}",
    )
    .unwrap();
    assert_eq!(details.parameter, None);
}

#[test]
fn empty_page_with_cursor_has_more_pages() {
    let page = client()
        .payment_list_response(200, "{\"type\":\"list\",\"items\":[],\"next_cursor\":\"c2\"}")
        .unwrap();
    assert!(page.items.is_empty());
    assert_eq!(page.next_cursor.as_deref(), Some("c2"));
    assert!(page.has_more_pages());
}

#[test]
fn page_without_cursor_is_final() {
    let body = format!("{{\"type\":\"list\",\"items\":[{},{}]}}", PAYMENT, PAYMENT);
    let page = client().payment_list_response(200, &body).unwrap();
    assert_eq!(page.list_type, "list");
    assert_eq!(page.items.len(), 2);
    assert_eq!(page.items[1].id, "pay-1");
    assert_eq!(page.next_cursor, None);
    assert!(!page.has_more_pages());
}

#[test]
fn page_with_a_broken_payment_is_refused() {
    let body = format!("{{\"type\":\"list\",\"items\":[{},{},{}]}}", PAYMENT, without("paid"), PAYMENT);
    match client().payment_list_response(200, &body) {
        Err(YooKassaError::MissingField(name)) => assert_eq!(name, "paid"),
        other => panic!("unexpected: {:?}", other),
    }
    match client().payment_list_response(200, "{\"type\":\"list\",\"items\":{}}") {
        Err(YooKassaError::Serde(name)) => assert_eq!(name, "items"),
        other => panic!("unexpected: {:?}", other),
    }
}

#[test]
fn status_names() {
    assert_eq!(PaymentStatus::from_name(&"pending".to_string()), Some(PaymentStatus::Pending));
    assert_eq!(
        PaymentStatus::from_name(&"waiting_for_capture".to_string()),
        Some(PaymentStatus::WaitingForCapture)
    );
    assert_eq!(PaymentStatus::from_name(&"succeeded".to_string()), Some(PaymentStatus::Succeeded));
    assert_eq!(PaymentStatus::from_name(&"canceled".to_string()), Some(PaymentStatus::Canceled));
    assert_eq!(PaymentStatus::from_name(&"Pending".to_string()), None);
    assert_eq!(PaymentStatus::from_name(&"".to_string()), None);
}

#[test]
fn status_lifecycle() {
    let (pending, waiting) = (PaymentStatus::Pending, PaymentStatus::WaitingForCapture);
    let (succeeded, canceled) = (PaymentStatus::Succeeded, PaymentStatus::Canceled);
    assert!(pending.clone().can_become(waiting.clone()));
    assert!(pending.clone().can_become(canceled.clone()));
    assert!(waiting.clone().can_become(succeeded.clone()));
    assert!(waiting.clone().can_become(canceled.clone()));
    assert!(!pending.clone().can_become(succeeded.clone()));
    assert!(!succeeded.clone().can_become(canceled.clone()));
    assert!(!canceled.clone().can_become(pending.clone()));
    assert!(succeeded.clone().is_terminal());
    assert!(canceled.clone().is_terminal());
    assert!(!pending.clone().is_terminal());
    assert!(!waiting.clone().is_terminal());
}

#[test]
fn decoders_work_on_documents() {
    let value: serde_json::Value = serde_json::from_str(PAYMENT).unwrap();
    let payment = Payment::from_json(&value).unwrap();
    assert_eq!(payment.id, "pay-1");
    let list: serde_json::Value = serde_json::from_str("[1]").unwrap();
    assert!(matches!(PaymentList::from_json(&list), Err(YooKassaError::MissingField(_))));
}

#[test]
fn capture_and_cancel_by_state() {
    assert!(PaymentStatus::WaitingForCapture.can_be_captured());
    assert!(!PaymentStatus::Pending.can_be_captured());
    assert!(!PaymentStatus::Succeeded.can_be_captured());
    assert!(!PaymentStatus::Canceled.can_be_captured());
    assert!(PaymentStatus::Pending.can_be_canceled());
    assert!(PaymentStatus::WaitingForCapture.can_be_canceled());
    assert!(!PaymentStatus::Succeeded.can_be_canceled());
    assert!(!PaymentStatus::Canceled.can_be_canceled());
}

#[test]
fn malformed_success_body_carries_the_parser_message() {
    let body = "{\"id\": 1,";
    let expected = serde_json::from_str::<serde_json::Value>(body).unwrap_err().to_string();
    match client().payment_response(200, body) {
        Err(YooKassaError::Serde(message)) => {
            assert_eq!(message, expected);
            assert_ne!(message, body);
        }
        other => panic!("unexpected: {:?}", other),
    }
}
