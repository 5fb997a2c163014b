use vstd::prelude::*;

verus! {

/// Errors of the wallet engine.
#[derive(Debug, Clone, Copy, PartialEq, Eq, Structural)]
pub enum LazorKitError {
    /// The authenticator's passkey or wallet differs from the request.
    InvalidPasskey,
    /// The authenticator does not belong to the smart wallet.
    InvalidAuthenticator,
    /// The rule program is not acceptable for the operation.
    InvalidRuleProgram,
    /// The whitelist does not hold the program.
    ProgramNotInWhitelist,
    /// The verification record was not produced by the secp256r1 program.
    InvalidSecp256r1Program,
    /// The verification record names accounts.
    InvalidSecp256r1VerifyAccounts,
    /// The verification record has the wrong length.
    InvalidSecp256r1VerifyData,
    /// A header field of the verification record is wrong.
    VerifyHeaderMismatchError,
    /// The pubkey, signature or message in the record differ.
    VerifyDataMismatchError,
    /// A supplied account is not the derived address it must be.
    InvalidBump,
    /// A required account is missing or an account range is out of bounds.
    InvalidAccountInput,
    /// A balance is too small for a debit.
    InsufficientFunds,
    /// A rule instruction does not start with the expected selector.
    InvalidRuleInstruction,
    /// The message timestamp lies too far in the future.
    InvalidTimestamp,
    /// The message timestamp lies too far in the past.
    SignatureExpired,
    /// The message nonce differs from the authenticator's nonce.
    InvalidNonce,
    /// The message could not be decoded or instruction data is too short.
    InvalidInstructionData,
    /// A counter or balance would overflow.
    ArithmeticOverflow,
    /// The whitelist already holds its maximum number of programs.
    WhitelistFull,
}

} // verus!
