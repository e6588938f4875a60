use vstd::prelude::*;

verus! {

/// The reason a request is turned down. A request that fails has no effect.
#[derive(Clone, Copy, Debug, PartialEq, Eq, Structural)]
pub enum ProcessError {
    /// The request body is not one of the three known requests.
    InvalidInstructionData,
    /// Fewer accounts were supplied than the request needs.
    NotEnoughAccountKeys,
    /// The settings account does not hold a settings record.
    InvalidSettingsData,
    /// The fee destination or the acting administrator is not the one on record.
    Unauthorized,
    /// A sum of amounts, or a fee, does not fit in 64 bits.
    ArithmeticOverflow,
    /// The signing authority supplied is not the derived one.
    InvalidSeeds,
    /// The settings account supplied is not at the derived address.
    InvalidArgument,
    /// The sender of a native batch, or the acting administrator, did not sign.
    MissingRequiredSignature,
    /// The mint account does not hold a mint.
    InvalidAccountData,
    /// The mint account holds a mint that was never initialized.
    UninitializedAccount,
    /// The token program supplied is not the token program.
    IncorrectProgramId,
}

} // verus!
