use vstd::prelude::*;

verus! {

/// Why a call on the vesting contract was rejected.
#[derive(Clone, Copy, Debug, PartialEq, Eq, Structural)]
pub enum VestingError {
    /// The sender is not the owner.
    Unauthorized,
    /// An account is already registered for the address.
    AlreadyExists,
    /// No account is registered for the address.
    EntryNotFound,
    /// The contract has not been set up yet.
    NotInitialized,
    /// `prevesting_amount` is zero.
    ZeroPrevestingAmount,
    /// `vesting_amount` is zero.
    ZeroVestingAmount,
    /// `prevesting_amount` is more than `vesting_amount`.
    PrevestingAboveVesting,
    /// `registration_time` lies before the block time.
    RegistrationBeforeBlock,
    /// `start_time` lies before `registration_time`.
    StartBeforeRegistration,
    /// `end_time` lies before `start_time`.
    EndBeforeStart,
    /// A subtraction would have gone below zero.
    Underflow,
    /// A sum would have exceeded 128 bits.
    Overflow,
    /// The address has more characters than a storage key takes.
    AddressTooLong,
}

impl VestingError {
    /// The text of the reason.
    pub open spec fn text(self) -> Seq<char> {
        match self {
            VestingError::Unauthorized => "Generic error: unauthorized"@,
            VestingError::AlreadyExists => "Generic error: already exists"@,
            VestingError::EntryNotFound => "Generic error: vesting entry is not found"@,
            VestingError::NotInitialized => "not found"@,
            VestingError::ZeroPrevestingAmount => "Generic error: assert(prevesting_amount > 0)"@,
            VestingError::ZeroVestingAmount => "Generic error: assert(vesting_amount > 0)"@,
            VestingError::PrevestingAboveVesting => {
                "Generic error: assert(prevesting_amount <= vesting_amount)"@
            },
            VestingError::RegistrationBeforeBlock => {
                "Generic error: assert(registration_time >= block_time)"@
            },
            VestingError::StartBeforeRegistration => {
                "Generic error: assert(start_time >= registration_time)"@
            },
            VestingError::EndBeforeStart => "Generic error: assert(end_time >= start_time)"@,
            VestingError::Underflow => "Overflow: cannot subtract below zero"@,
            VestingError::Overflow => "Overflow: sum exceeds 128 bits"@,
            VestingError::AddressTooLong => "Generic error: address is too long"@,
        }
    }

    /// The reason as the contract reports it to its caller.
    pub fn message(&self) -> (s: String)
        ensures
            s@ == self.text(),
    {
        match self {
            VestingError::Unauthorized => String::from_str("Generic error: unauthorized"),
            VestingError::AlreadyExists => String::from_str("Generic error: already exists"),
            VestingError::EntryNotFound => String::from_str(
                "Generic error: vesting entry is not found",
            ),
            VestingError::NotInitialized => String::from_str("not found"),
            VestingError::ZeroPrevestingAmount => String::from_str(
                "Generic error: assert(prevesting_amount > 0)",
            ),
            VestingError::ZeroVestingAmount => String::from_str(
                "Generic error: assert(vesting_amount > 0)",
            ),
            VestingError::PrevestingAboveVesting => String::from_str(
                "Generic error: assert(prevesting_amount <= vesting_amount)",
            ),
            VestingError::RegistrationBeforeBlock => String::from_str(
                "Generic error: assert(registration_time >= block_time)",
            ),
            VestingError::StartBeforeRegistration => String::from_str(
                "Generic error: assert(start_time >= registration_time)",
            ),
            VestingError::EndBeforeStart => String::from_str(
                "Generic error: assert(end_time >= start_time)",
            ),
            VestingError::Underflow => String::from_str("Overflow: cannot subtract below zero"),
            VestingError::Overflow => String::from_str("Overflow: sum exceeds 128 bits"),
            VestingError::AddressTooLong => String::from_str("Generic error: address is too long"),
        }
    }
}

} // verus!
