use vstd::prelude::*;

verus! {

/// Failure reasons of the order program.
#[derive(Debug, Clone, Copy, PartialEq, Eq, Structural)]
pub enum OrderError {
    /// The payload is too short, too long, or carries an unknown tag.
    MalformedPayload,
    /// The account list is shorter than the role template.
    WrongAccountCount,
    /// The payer did not sign.
    MissingRequiredSignature,
    /// The payer or the target account is not writable.
    AccountNotWritable,
    /// The third account is not the system allocator.
    WrongAllocator,
    /// The target address is not the one derived from the order seeds.
    InvalidSeeds,
    /// No disambiguation byte gives an address off the curve.
    DerivationExhausted,
    /// The target address already holds an account.
    AccountAlreadyInUse,
    /// The payer cannot fund the new account.
    InsufficientFunds,
}

} // verus!
