//! The ways in which an instruction is refused.

use vstd::prelude::*;

verus! {

/// A request that breaks one of the rules of tweets, comments and reactions.
#[derive(Clone, Copy, Debug, PartialEq, Eq, Structural)]
pub enum TwitterError {
    TopicTooLong,
    ContentTooLong,
    MaxLikesReached,
    MaxDislikesReached,
    MinLikesReached,
    MinDislikesReached,
    CommentTooLong,
}

/// A tip that cannot be paid out.
#[derive(Clone, Copy, Debug, PartialEq, Eq, Structural)]
pub enum TipError {
    ZeroAmount,
    Overflow,
    TipTooSmall,
}

/// A request that the ledger itself turns down, whatever the instruction.
#[derive(Clone, Copy, Debug, PartialEq, Eq, Structural)]
pub enum LedgerError {
    /// The address of the new record already holds a record.
    AddressCollision,
    /// No record of the kind asked for lives at the address given.
    RecordNotFound,
    /// The request names another author than the record does.
    AuthorMismatch,
    /// The record belongs to another tweet than the one given.
    ParentMismatch,
    /// An account is not at the address that it has to be at.
    AddressMismatch,
    /// The seeds have no address.
    NoViableAddress,
    /// The payer holds less than the amount to move.
    InsufficientFunds,
    /// The receiver would hold more than a balance can count.
    BalanceOverflow,
}

/// Why an instruction was refused.
#[derive(Clone, Copy, Debug, PartialEq, Eq, Structural)]
pub enum Error {
    Twitter(TwitterError),
    Tip(TipError),
    Ledger(LedgerError),
}

impl TipError {
    /// The message that goes with the error.
    pub fn message(&self) -> (text: &'static str)
        ensures
            text@ == self.message_spec(),
    {
        match self {
            TipError::ZeroAmount => "Tip amount must be greater than zero.",
            TipError::Overflow => "Overflow when adding tip amount.",
            TipError::TipTooSmall => "Tip amount is too small to cover royalty fee.",
        }
    }

    /// The message that goes with the error.
    pub open spec fn message_spec(&self) -> Seq<char> {
        match self {
            TipError::ZeroAmount => "Tip amount must be greater than zero."@,
            TipError::Overflow => "Overflow when adding tip amount."@,
            TipError::TipTooSmall => "Tip amount is too small to cover royalty fee."@,
        }
    }
}

} // verus!
