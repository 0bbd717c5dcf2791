use vstd::prelude::*;

verus! {

/// The ten ways a call into the escrow contract can be rejected.
#[derive(PartialEq, Eq, Structural, Clone, Copy, Debug)]
pub enum EscrowError {
    OwnerOnly,
    ResolverOnly,
    AlreadyInitialized,
    EscrowNotFound,
    EscrowExists,
    InvalidSecret,
    TimelockNotExpired,
    WrongDeposit,
    InvalidMsgFormat,
    InvalidHexFormat,
}

impl EscrowError {
    /// The code of the condition, as shown to callers.
    pub fn code(&self) -> (r: &'static str) {
        match self {
            EscrowError::OwnerOnly => "E001",
            EscrowError::ResolverOnly => "E002",
            EscrowError::AlreadyInitialized => "E003",
            EscrowError::EscrowNotFound => "E004",
            EscrowError::EscrowExists => "E005",
            EscrowError::InvalidSecret => "E006",
            EscrowError::TimelockNotExpired => "E007",
            EscrowError::WrongDeposit => "E008",
            EscrowError::InvalidMsgFormat => "E009",
            EscrowError::InvalidHexFormat => "E010",
        }
    }

    /// The full message of the condition, as shown to callers.
    pub fn message(&self) -> (r: &'static str) {
        match self {
            EscrowError::OwnerOnly => "E001: Method can only be called by the contract owner",
            EscrowError::ResolverOnly => "E002: Method can only be called by a whitelisted resolver",
            EscrowError::AlreadyInitialized => "E003: Contract is already initialized",
            EscrowError::EscrowNotFound => "E004: Escrow for the given order hash not found",
            EscrowError::EscrowExists => "E005: Escrow for the given order hash already exists",
            EscrowError::InvalidSecret => "E006: Invalid secret provided for hashlock",
            EscrowError::TimelockNotExpired => "E007: Timelock has not expired",
            EscrowError::WrongDeposit => "E008: Requires exactly 1 yoctoNEAR attached deposit",
            EscrowError::InvalidMsgFormat => "E009: Invalid JSON format for msg parameter",
            EscrowError::InvalidHexFormat => "E010: Invalid hex string format provided",
        }
    }
}

} // verus!
