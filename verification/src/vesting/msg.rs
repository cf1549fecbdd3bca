use crate::schedule::Expiration;
use crate::vesting::state::PaymentState;
use vstd::prelude::*;

verus! {

/// One payment that is owed: who gets how much of what, and from when on.
#[derive(Clone, Debug, PartialEq)]
pub struct Payment {
    pub recipient: String,
    pub amount: u128,
    pub denom: String,
    pub time: Expiration,
}

impl View for Payment {
    type V = crate::vesting::model::PaymentView;

    open spec fn view(&self) -> crate::vesting::model::PaymentView {
        crate::vesting::model::PaymentView {
            recipient: self.recipient@,
            amount: self.amount,
            denom: self.denom@,
            time: self.time,
        }
    }
}

/// Sets the contract up: the payments it owes, who owns it (the sender where none is
/// named) and which token it pays out.
#[derive(Clone, Debug, PartialEq)]
pub struct InstantiateMsg {
    pub schedule: Vec<Payment>,
    pub owner_address: Option<String>,
    pub token_address: String,
}

/// The calls that change the contract.
#[derive(Clone, Debug, PartialEq)]
pub enum ExecuteMsg {
    /// Pay out every payment that is due and not paid yet.
    Pay {  },
    /// Drop the payments with these ids that are not paid yet.
    RevokePayments { payment_ids: Vec<u64> },
}

/// The questions that the contract answers.
#[derive(Clone, Copy, Debug, PartialEq, Eq, Structural)]
pub enum QueryMsg {
    GetPayments {  },
    GetOwner {  },
}

/// The payments that the contract keeps, in the order of their numbers.
#[derive(Clone, Debug, PartialEq)]
pub struct PaymentsResponse {
    pub payments: Vec<PaymentState>,
}

/// Who owns the contract.
#[derive(Clone, Debug, PartialEq)]
pub struct GetOwnerResponse {
    pub owner: String,
}

/// The answer to a `QueryMsg`, one variant per question.
#[derive(Clone, Debug, PartialEq)]
pub enum QueryResponse {
    Payments(PaymentsResponse),
    Owner(GetOwnerResponse),
}

} // verus!
