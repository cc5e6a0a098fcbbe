//! The operations of the payment API and what each asks of a request.

use vstd::prelude::*;

verus! {

/// The HTTP methods that the client uses.
#[derive(Debug, Clone, Copy, PartialEq, Eq, Structural)]
pub enum HttpMethod {
    Get,
    Post,
}

/// The operations that the client offers.
#[derive(Debug, Clone, Copy, PartialEq, Eq, Structural)]
pub enum Operation {
    CreatePayment,
    GetPayment,
    CapturePayment,
    CancelPayment,
    ListPayments,
}

impl Operation {
    pub open spec fn spec_method(self) -> HttpMethod {
        match self {
            Operation::CreatePayment => HttpMethod::Post,
            Operation::GetPayment => HttpMethod::Get,
            Operation::CapturePayment => HttpMethod::Post,
            Operation::CancelPayment => HttpMethod::Post,
            Operation::ListPayments => HttpMethod::Get,
        }
    }

    /// Whether a request of this operation must carry an idempotency key:
    /// the operations that change a payment do, the ones that read do not.
    pub open spec fn spec_requires_idempotency_key(self) -> bool {
        self == Operation::CreatePayment || self == Operation::CapturePayment || self
            == Operation::CancelPayment
    }

    /// The HTTP method of the operation.
    #[verifier::when_used_as_spec(spec_method)]
    pub fn method(self) -> (r: HttpMethod)
        ensures
            r == self.spec_method(),
    {
        match self {
            Operation::CreatePayment => HttpMethod::Post,
            Operation::GetPayment => HttpMethod::Get,
            Operation::CapturePayment => HttpMethod::Post,
            Operation::CancelPayment => HttpMethod::Post,
            Operation::ListPayments => HttpMethod::Get,
        }
    }

    #[verifier::when_used_as_spec(spec_requires_idempotency_key)]
    pub fn requires_idempotency_key(self) -> (r: bool)
        ensures
            r == self.spec_requires_idempotency_key(),
    {
        match self {
            Operation::CreatePayment => true,
            Operation::GetPayment => false,
            Operation::CapturePayment => true,
            Operation::CancelPayment => true,
            Operation::ListPayments => false,
        }
    }
}

/// An operation asks for an idempotency key exactly when it is sent with
/// POST; no GET operation asks for one.
pub proof fn lemma_key_exactly_on_post(op: Operation)
    ensures
        op.spec_requires_idempotency_key() <==> op.spec_method() == HttpMethod::Post,
        op.spec_method() == HttpMethod::Get ==> !op.spec_requires_idempotency_key(),
{
}

} // verus!
