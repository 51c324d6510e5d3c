use vstd::prelude::*;

verus! {

/// Why a claim or a query was turned down. Every variant is an ordinary,
/// recoverable outcome; none of them leaves the index changed.
#[derive(Clone, Copy, Debug, PartialEq, Eq, Structural)]
pub enum SolmapError {
    /// The clock has not reached the go-live point yet.
    NotLive,
    /// The slot number lies outside the universe, or is not yet revealed.
    InvalidSlot,
    /// The slot's bit is already set.
    AlreadyClaimed,
    /// The index is too small to hold the slot's bit.
    OutOfRange,
}

impl SolmapError {
    /// The wording of each error.
    pub open spec fn message_text(self) -> Seq<char> {
        match self {
            SolmapError::NotLive => "Minting is not live yet"@,
            SolmapError::InvalidSlot => "Invalid Solmap number"@,
            SolmapError::AlreadyClaimed => "Solmap already minted"@,
            SolmapError::OutOfRange => "Slot index is too small"@,
        }
    }

    /// A short message for the error, fit to show to a person.
    pub fn message(&self) -> (text: &'static str)
        ensures
            text@ == self.message_text(),
    {
        match self {
            SolmapError::NotLive => "Minting is not live yet",
            SolmapError::InvalidSlot => "Invalid Solmap number",
            SolmapError::AlreadyClaimed => "Solmap already minted",
            SolmapError::OutOfRange => "Slot index is too small",
        }
    }
}

} // verus!
