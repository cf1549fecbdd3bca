use crate::schedule::Expiration;
use crate::text::copy_of;
use crate::vesting::msg::Payment;
use crate::vesting::store::PaymentRow;
use crate::vesting::store::RowText;
use vstd::prelude::*;

verus! {

/// A payment as the contract keeps it: what is owed, whether it was paid, and
/// the number under which it is kept.
#[derive(Clone, Debug, PartialEq)]
pub struct PaymentState {
    pub payment: Payment,
    pub paid: bool,
    pub id: u64,
}

/// A `PaymentState` with its strings as sequences of characters.
pub struct PaymentRecord {
    pub recipient: Seq<char>,
    pub amount: u128,
    pub denom: Seq<char>,
    pub time: Expiration,
    pub paid: bool,
    pub id: u64,
}

impl View for PaymentState {
    type V = PaymentRecord;

    open spec fn view(&self) -> PaymentRecord {
        PaymentRecord {
            recipient: self.payment.recipient@,
            amount: self.payment.amount,
            denom: self.payment.denom@,
            time: self.payment.time,
            paid: self.paid,
            id: self.id,
        }
    }
}

/// The point in time that a stored row names: a height where it has one, else
/// a time where it has one, else never.
pub open spec fn time_of(at_height: Option<u64>, at_time: Option<u64>) -> Expiration {
    match (at_height, at_time) {
        (Some(height), _) => Expiration::AtHeight(height),
        (None, Some(time)) => Expiration::AtTime(time),
        (None, None) => Expiration::Never {  },
    }
}

/// The payment that a stored row stands for.
pub open spec fn record_of(row: RowText) -> PaymentRecord {
    PaymentRecord {
        recipient: row.0,
        amount: row.1,
        denom: row.2,
        time: time_of(row.3, row.4),
        paid: row.5,
        id: row.6,
    }
}

/// The characters of the strings of a stored row.
pub open spec fn text_of_row(row: PaymentRow) -> RowText {
    (row.0@, row.1, row.2@, row.3, row.4, row.5, row.6)
}

impl PaymentState {
    /// The row under which the payment is stored.
    pub fn to_row(&self) -> (row: PaymentRow)
        ensures
            record_of(text_of_row(row)) == self@,
    {
        let (at_height, at_time) = match self.payment.time {
            Expiration::AtHeight(height) => (Some(height), None),
            Expiration::AtTime(time) => (None, Some(time)),
            Expiration::Never {  } => (None, None),
        };
        (
            copy_of(&self.payment.recipient),
            self.payment.amount,
            copy_of(&self.payment.denom),
            at_height,
            at_time,
            self.paid,
            self.id,
        )
    }

    /// The payment that a stored row stands for.
    pub fn from_row(row: PaymentRow) -> (state: PaymentState)
        ensures
            state@ == record_of(text_of_row(row)),
    {
        let time = match (row.3, row.4) {
            (Some(height), _) => Expiration::AtHeight(height),
            (None, Some(time)) => Expiration::AtTime(time),
            (None, None) => Expiration::Never {  },
        };
        PaymentState {
            payment: Payment { recipient: row.0, amount: row.1, denom: row.2, time },
            paid: row.5,
            id: row.6,
        }
    }
}

} // verus!
