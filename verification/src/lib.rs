//! Client-side request and response handling for the YooKassa payment API.
//!
//! The library prepares authenticated requests for the payment operations,
//! classifies the gateway's responses and decodes them into typed values.
//! It performs no network I/O itself: a transport sends a `PreparedRequest`
//! and hands back the status code and the body text.

pub mod json;
pub mod error;
pub mod fields;
pub mod api_error;
pub mod amount;
pub mod receipt;
pub mod request;
pub mod payment;
pub mod operation;
pub mod client;

pub use crate::amount::Amount;
pub use crate::api_error::YooKassaApiError;
pub use crate::client::{PreparedRequest, YooKassaClient};
pub use crate::error::YooKassaError;
pub use crate::operation::{HttpMethod, Operation};
pub use crate::payment::{
    AuthorizationDetails, CancellationDetails, CardDetails, CardProduct, ConfirmationResponse,
    PayerBankDetails, Payment, PaymentList, PaymentMethod, PaymentStatus, Recipient, ThreeDSecure,
};
pub use crate::receipt::{
    PaymentSubjectIndustryDetails, Receipt, ReceiptCustomer, ReceiptIndustryDetails, ReceiptItem,
    ReceiptMarkQuantity, ReceiptOperationalDetails,
};
pub use crate::request::{
    CapturePaymentRequest, CardData, ConfirmationRequest, CreatePaymentRequest, PaymentMethodData,
};
