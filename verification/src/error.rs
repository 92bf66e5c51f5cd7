//! The errors that abort a call. A call that returns one of them has changed
//! nothing.
use vstd::prelude::*;
use vstd::string::*;

use crate::text::{decimal_text, with_decimal};

verus! {

/// Why a call was aborted.
#[derive(Clone, Copy, Debug, PartialEq, Eq, Structural)]
pub enum ContractError {
    /// The caller is not the one this action is reserved for.
    Unauthorized,
    /// A campaign was to be created with a deadline that has passed.
    DeadlineInPast,
    /// A campaign was to be created with a goal of zero.
    GoalIsZero,
    /// The contributors' vesting schedule does not sum to 1000 per mille.
    ContributorsScheduleSum,
    /// The creator's vesting schedule does not sum to 1000 per mille.
    CreatorScheduleSum,
    /// Contributed tokens arrived from a token contract other than the
    /// campaign's own.
    IncorrectToken,
    /// The creator tried to fund their own campaign.
    SelfFunding,
    /// The campaign has been paid out before.
    AlreadyPaidOut,
    /// A status outside the three lifecycle states.
    InvalidStatus,
    /// A page size below one.
    InvalidPageSize,
    /// A text that should be base64 is not.
    InvalidBase64,
    /// A record that is not in the ledger.
    NotFound,
    /// A fee or reward computation exceeded the width of its numbers.
    Overflow,
    /// A fee or reward computation divided by zero.
    DivisionByZero,
    /// A milestone that the beneficiary's vesting schedule does not have.
    InvalidMilestone,
    /// An acknowledgment that answers no request of this campaign.
    UnknownReplyId(u64),
}

impl ContractError {
    /// The text shown to the caller.
    pub open spec fn spec_message(self) -> Seq<char> {
        match self {
            ContractError::Unauthorized => "Unauthorized"@,
            ContractError::DeadlineInPast => "Cannot create project with deadline in the past"@,
            ContractError::GoalIsZero => "Goal must be greater than 0"@,
            ContractError::ContributorsScheduleSum => "Contributors' vesting schedule per mille does not sum to 1000"@,
            ContractError::CreatorScheduleSum => "Creator's vesting schedule per mille does not sum to 1000"@,
            ContractError::IncorrectToken => "Sender is incorrect SNIP-20 contract"@,
            ContractError::SelfFunding => "Cannot fund your own project"@,
            ContractError::AlreadyPaidOut => "Already paid out"@,
            ContractError::InvalidStatus => "Invalid project status"@,
            ContractError::InvalidPageSize => "Invalid page_size"@,
            ContractError::InvalidBase64 => "Invalid Base64 string"@,
            ContractError::NotFound => "Key not found in storage"@,
            ContractError::Overflow => "Overflow when calculating reward"@,
            ContractError::DivisionByZero => "Div by zero when calculating reward"@,
            ContractError::InvalidMilestone => "No such reward"@,
            ContractError::UnknownReplyId(id) => "Unknown reply id: "@ + decimal_text(id as nat),
        }
    }

    /// The text shown to the caller.
    pub fn message(&self) -> (r: String)
        ensures
            r@ == self.spec_message(),
    {
        match self {
            ContractError::Unauthorized => String::from_str("Unauthorized"),
            ContractError::DeadlineInPast => String::from_str(
                "Cannot create project with deadline in the past",
            ),
            ContractError::GoalIsZero => String::from_str("Goal must be greater than 0"),
            ContractError::ContributorsScheduleSum => String::from_str(
                "Contributors' vesting schedule per mille does not sum to 1000",
            ),
            ContractError::CreatorScheduleSum => String::from_str(
                "Creator's vesting schedule per mille does not sum to 1000",
            ),
            ContractError::IncorrectToken => String::from_str("Sender is incorrect SNIP-20 contract"),
            ContractError::SelfFunding => String::from_str("Cannot fund your own project"),
            ContractError::AlreadyPaidOut => String::from_str("Already paid out"),
            ContractError::InvalidStatus => String::from_str("Invalid project status"),
            ContractError::InvalidPageSize => String::from_str("Invalid page_size"),
            ContractError::InvalidBase64 => String::from_str("Invalid Base64 string"),
            ContractError::NotFound => String::from_str("Key not found in storage"),
            ContractError::Overflow => String::from_str("Overflow when calculating reward"),
            ContractError::DivisionByZero => String::from_str("Div by zero when calculating reward"),
            ContractError::InvalidMilestone => String::from_str("No such reward"),
            ContractError::UnknownReplyId(id) => with_decimal("Unknown reply id: ", *id as u128),
        }
    }
}

} // verus!
