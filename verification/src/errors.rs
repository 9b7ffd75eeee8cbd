use vstd::prelude::*;

verus! {

/// Why an operation was refused. Every failure is returned to the caller;
/// none is fatal to the engine, and a caller may retry with corrected input.
#[derive(Clone, Copy, PartialEq, Eq, Structural, Debug)]
pub enum Error {
    /// The caller's balance does not cover the requested source amount.
    InsufficientBalance,
    /// An owner-only operation was invoked by some other identity.
    NotOwner,
    /// Reserved for rate validation. No operation of this library returns
    /// it: every configured rate value, zero included, is accepted.
    InvalidExchangeRate,
    /// A single conversion was requested with a source amount of zero.
    ZeroAmount,
}

} // verus!
