use vstd::prelude::*;

verus! {

/// Domain-specific failures of the faucet's own rules.
#[derive(Clone, Copy, Debug, PartialEq, Eq, Structural)]
pub enum FaucetError {
    /// The instruction buffer is empty, carries an unknown opcode, or is too
    /// short for its argument.
    InvalidInstruction,
    /// A persisted faucet record is shorter than its fixed layout or carries
    /// an invalid initialization flag.
    IncorrectInitializationData,
    /// At initialization, the mint's authority field is absent or differs
    /// from the derived authority address.
    IncorrectMintAuthority,
    /// The target faucet record is already initialized.
    AccountAlreadyInUse,
    /// The faucet record account's balance is below the rent-exemption
    /// threshold for its data length.
    AccountNotRentExempt,
    /// At mint time, the supplied mint identity differs from the one recorded
    /// in the faucet record.
    InvalidMint,
    /// The requested amount exceeds the faucet's per-call ceiling.
    RequestingTooManyTokens,
}

/// Every failure the dispatcher can surface: the faucet's own errors plus the
/// host environment's generic error kinds that the handlers pass through.
#[derive(Clone, Copy, Debug, PartialEq, Eq, Structural)]
pub enum ProcessError {
    /// One of the faucet's own errors.
    Faucet(FaucetError),
    /// Generic account-data failure: the authority account on the mint path
    /// does not hold the derived address, or the mint account's data cannot
    /// be parsed as an initialized mint record.
    InvalidAccountData,
    /// The rent sysvar account was rejected, or no authority address could be
    /// derived for the program identity.
    InvalidArgument,
    /// The instruction was handed fewer accounts than its role list needs.
    NotEnoughAccountKeys,
}

} // verus!
