//! Whether a rune can be minted at a given block height, and how much one mint yields.

use vstd::prelude::*;

verus! {

/// The rules fixed at etching time under which a rune may be minted.
#[derive(Clone, Copy, Debug, PartialEq, Eq, Structural)]
pub struct MintTerms {
    /// Units created by one mint; absent means zero.
    pub amount: Option<u128>,
    /// Largest number of mints; absent means zero.
    pub cap: Option<u128>,
    /// Absolute height at which minting opens.
    pub height_start: Option<u64>,
    /// Absolute height at which minting closes.
    pub height_end: Option<u64>,
    /// Opening height, as an offset from the etching block.
    pub offset_start: Option<u64>,
    /// Closing height, as an offset from the etching block.
    pub offset_end: Option<u64>,
}

/// On-chain state of a rune, as the index reports it.
#[derive(Clone, Copy, Debug, PartialEq, Eq, Structural)]
pub struct TokenEntry {
    /// Height of the block that etched the rune.
    pub block: u64,
    pub divisibility: u8,
    pub symbol: Option<char>,
    /// Absent when the rune cannot be minted at all.
    pub terms: Option<MintTerms>,
    /// Number of mints made so far.
    pub mints: u128,
}

/// An amount of a rune with what is needed to display it.
#[derive(Clone, Copy, Debug, PartialEq, Eq, Structural)]
pub struct Pile {
    pub amount: u128,
    pub divisibility: u8,
    pub symbol: Option<char>,
}

/// Why a rune cannot be minted now.
#[derive(Clone, Copy, Debug, PartialEq, Eq, Structural)]
pub enum EligibilityError {
    /// The mint window opens at `start`.
    NotStarted { start: u64 },
    /// The mint window closed at `end`.
    Ended { end: u64 },
    /// All `cap` mints have been made.
    CapReached { cap: u128 },
}

pub open spec fn saturating_add_spec(a: u64, b: u64) -> u64 {
    if a + b > u64::MAX {
        u64::MAX
    } else {
        (a + b) as u64
    }
}

/// Joins a relative bound and an absolute bound: where both are set, `later` picks the
/// larger of the two, else the smaller.
pub open spec fn join_bounds(relative: Option<u64>, absolute: Option<u64>, later: bool) -> Option<u64> {
    match (relative, absolute) {
        (Some(r), Some(a)) => Some(
            if later {
                if r >= a { r } else { a }
            } else {
                if r <= a { r } else { a }
            },
        ),
        (Some(r), None) => Some(r),
        (None, a) => a,
    }
}

pub open spec fn relative_bound(block: u64, offset: Option<u64>) -> Option<u64> {
    match offset {
        Some(o) => Some(saturating_add_spec(block, o)),
        None => None,
    }
}

impl TokenEntry {
    /// First height at which minting is open: the later of the two opening bounds.
    pub open spec fn start_spec(self) -> Option<u64> {
        match self.terms {
            None => None,
            Some(t) => join_bounds(relative_bound(self.block, t.offset_start), t.height_start, true),
        }
    }

    /// Height from which minting is closed: the earlier of the two closing bounds.
    pub open spec fn end_spec(self) -> Option<u64> {
        match self.terms {
            None => None,
            Some(t) => join_bounds(relative_bound(self.block, t.offset_end), t.height_end, false),
        }
    }

    pub open spec fn cap_spec(self) -> u128 {
        match self.terms {
            Some(t) => match t.cap {
                Some(c) => c,
                None => 0,
            },
            None => 0,
        }
    }

    pub open spec fn amount_spec(self) -> u128 {
        match self.terms {
            Some(t) => match t.amount {
                Some(a) => a,
                None => 0,
            },
            None => 0,
        }
    }

    /// The window `[start, end)` and the cap decide; a rune without terms has a cap of zero.
    pub open spec fn mintable_spec(self, height: u64) -> Result<u128, EligibilityError> {
        if self.start_spec() is Some && height < self.start_spec()->0 {
            Err(EligibilityError::NotStarted { start: self.start_spec()->0 })
        } else if self.end_spec() is Some && height >= self.end_spec()->0 {
            Err(EligibilityError::Ended { end: self.end_spec()->0 })
        } else if self.mints >= self.cap_spec() {
            Err(EligibilityError::CapReached { cap: self.cap_spec() })
        } else {
            Ok(self.amount_spec())
        }
    }

    pub fn start(&self) -> (r: Option<u64>)
        ensures
            r == self.start_spec(),
    {
        match self.terms {
            None => None,
            Some(t) => join(relative(self.block, t.offset_start), t.height_start, true),
        }
    }

    pub fn end(&self) -> (r: Option<u64>)
        ensures
            r == self.end_spec(),
    {
        match self.terms {
            None => None,
            Some(t) => join(relative(self.block, t.offset_end), t.height_end, false),
        }
    }

    /// How many units one mint at `height` yields, or why no mint is possible.
    pub fn mintable(&self, height: u64) -> (r: Result<u128, EligibilityError>)
        ensures
            r == self.mintable_spec(height),
    {
        if let Some(start) = self.start() {
            if height < start {
                return Err(EligibilityError::NotStarted { start });
            }
        }
        if let Some(end) = self.end() {
            if height >= end {
                return Err(EligibilityError::Ended { end });
            }
        }
        let (cap, amount) = match self.terms {
            Some(t) => (
                match t.cap {
                    Some(c) => c,
                    None => 0,
                },
                match t.amount {
                    Some(a) => a,
                    None => 0,
                },
            ),
            None => (0, 0),
        };
        if self.mints >= cap {
            return Err(EligibilityError::CapReached { cap });
        }
        Ok(amount)
    }

    /// The pile that one mint yields, given the amount it was found to yield.
    pub fn pile(&self, amount: u128) -> (r: Pile)
        ensures
            r == (Pile { amount, divisibility: self.divisibility, symbol: self.symbol }),
    {
        Pile { amount, divisibility: self.divisibility, symbol: self.symbol }
    }
}

fn relative(block: u64, offset: Option<u64>) -> (r: Option<u64>)
    ensures
        r == relative_bound(block, offset),
{
    match offset {
        Some(o) => Some(
            if o > u64::MAX - block {
                u64::MAX
            } else {
                block + o
            },
        ),
        None => None,
    }
}

fn join(relative: Option<u64>, absolute: Option<u64>, later: bool) -> (r: Option<u64>)
    ensures
        r == join_bounds(relative, absolute, later),
{
    match (relative, absolute) {
        (Some(r), Some(a)) => Some(
            if later {
                if r >= a { r } else { a }
            } else {
                if r <= a { r } else { a }
            },
        ),
        (Some(r), None) => Some(r),
        (None, a) => a,
    }
}

/// Around a mint window `[start, end)`: the height just before it opens is too early, the
/// opening height mints while the cap is not reached, and the closing height is too late.
pub proof fn lemma_window_boundaries(entry: TokenEntry, start: u64, end: u64)
    requires
        entry.start_spec() == Some(start),
        entry.end_spec() == Some(end),
        0 < start < end,
    ensures
        entry.mintable_spec((start - 1) as u64) == Err::<u128, EligibilityError>(
            EligibilityError::NotStarted { start },
        ),
        entry.mints < entry.cap_spec() ==> entry.mintable_spec(start) == Ok::<u128, EligibilityError>(
            entry.amount_spec(),
        ),
        entry.mintable_spec(end) == Err::<u128, EligibilityError>(EligibilityError::Ended { end }),
{
}

/// Once the cap is reported reached it stays reached: the same rune, with at least as many
/// mints made, at the same or a later height inside the same window, reports the cap again.
pub proof fn lemma_cap_stays_reached(before: TokenEntry, after: TokenEntry, h1: u64, h2: u64)
    requires
        before.mintable_spec(h1) matches Err(EligibilityError::CapReached { .. }),
        after.block == before.block,
        after.terms == before.terms,
        after.mints >= before.mints,
        h1 <= h2,
        after.end_spec() matches Some(end) ==> h2 < end,
    ensures
        after.mintable_spec(h2) == before.mintable_spec(h1),
{
}

} // verus!
