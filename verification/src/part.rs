//! Parts of an order and the table of their transitions.
//!
//! A part starts `Unknown`. From there a bid that starts production marks it
//! `Processing`, one that delivers marks it `Completed`, and a refusal marks
//! it `Rejected`. A part in production can only go on to `Completed`. A
//! completed part and a rejected part never change again.

use crate::common::Capacity;
use vstd::prelude::*;

verus! {

/// Where a part stands.
#[derive(Clone, Copy, PartialEq, Eq, Structural, Debug)]
pub enum PartStatus {
    Completed,
    Processing,
    Rejected,
    Unknown,
}

/// What an order needs of one capacity type, and how far it has come.
#[derive(Clone, Copy, PartialEq, Eq, Structural, Debug)]
pub struct Part {
    pub capacity: Capacity,
    pub status: PartStatus,
}

/// What a bid asks of a part.
#[derive(Clone, Copy, PartialEq, Eq, Structural, Debug)]
pub enum Mark {
    Processing,
    Completed,
    Rejected,
}

/// What a transition does to the order's balance with the bid's tokens.
#[derive(Clone, Copy, PartialEq, Eq, Structural, Debug)]
pub enum Settlement {
    /// The balance stays as it is.
    Untouched,
    /// The bid's tokens are added: payment is held for capacity about to be
    /// produced.
    Escrow,
    /// The bid's tokens are subtracted: capacity is paid on delivery, with no
    /// tokens held before.
    Payment,
}

impl Mark {
    /// The status that a part has once the mark is applied.
    pub open spec fn target(self) -> PartStatus {
        match self {
            Mark::Processing => PartStatus::Processing,
            Mark::Completed => PartStatus::Completed,
            Mark::Rejected => PartStatus::Rejected,
        }
    }
}

impl Settlement {
    /// The change of a balance when `amount` tokens are settled this way.
    pub open spec fn delta(self, amount: int) -> int {
        match self {
            Settlement::Untouched => 0,
            Settlement::Escrow => amount,
            Settlement::Payment => -amount,
        }
    }
}

impl PartStatus {
    /// Whether a part in this status counts as demand that is not yet met:
    /// it is neither in production nor completed.
    pub open spec fn is_open(self) -> bool {
        self != PartStatus::Processing && self != PartStatus::Completed
    }

    /// Whether a part in this status takes the mark. An untouched part takes
    /// every mark; a part in production can be marked as in production again
    /// or completed, and cannot be rejected; a completed part and a rejected
    /// part take none.
    pub open spec fn allows(self, mark: Mark) -> bool {
        self == PartStatus::Unknown || (self == PartStatus::Processing && mark != Mark::Rejected)
    }

    /// How the bid's tokens are settled when a part in this status takes the
    /// mark. Tokens move only when an untouched part is started or completed.
    pub open spec fn settlement(self, mark: Mark) -> Settlement {
        if self != PartStatus::Unknown || mark == Mark::Rejected {
            Settlement::Untouched
        } else if mark == Mark::Processing {
            Settlement::Escrow
        } else {
            Settlement::Payment
        }
    }

    /// The transition table: the new status and the settlement, or `None`
    /// where the mark is refused.
    pub fn step(self, mark: Mark) -> (next: Option<(PartStatus, Settlement)>)
        ensures
            next == (if self.allows(mark) {
                Some((mark.target(), self.settlement(mark)))
            } else {
                None
            }),
    {
        match (self, mark) {
            (PartStatus::Unknown, Mark::Processing) => Some((PartStatus::Processing, Settlement::Escrow)),
            (PartStatus::Unknown, Mark::Completed) => Some((PartStatus::Completed, Settlement::Payment)),
            (PartStatus::Unknown, Mark::Rejected) => Some((PartStatus::Rejected, Settlement::Untouched)),
            (PartStatus::Processing, Mark::Processing) => Some((PartStatus::Processing, Settlement::Untouched)),
            (PartStatus::Processing, Mark::Completed) => Some((PartStatus::Completed, Settlement::Untouched)),
            (PartStatus::Processing, Mark::Rejected) => None,
            (PartStatus::Completed, _) => None,
            (PartStatus::Rejected, _) => None,
        }
    }
}

} // verus!
