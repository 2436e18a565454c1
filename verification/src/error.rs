//! The ways in which an operation is rejected.
use vstd::prelude::*;

verus! {

/// The four families of rejection.
#[derive(Clone, Copy, Debug, PartialEq, Eq, Structural)]
pub enum ErrorKind {
    /// An input does not fit the operation: a wrong asset type, a wrong
    /// owner, a wrong address, an amount of zero.
    Validation,
    /// The caller is not the principal that the operation asks for.
    Authorization,
    /// A balance is below what must leave it.
    InsufficientFunds,
    /// The ledger does not hold what the operation needs, or already holds
    /// what it would create, or cannot take what it would store.
    State,
}

/// Why an operation was rejected. A rejected operation changes nothing.
#[derive(Clone, Copy, Debug, PartialEq, Eq, Structural)]
pub enum EscrowError {
    /// An amount of zero was offered or asked for.
    ZeroAmount,
    /// A balance holds another asset type than the one required.
    MintMismatch,
    /// A balance is not moved by the principal that was named for it.
    OwnerMismatch,
    /// The maker that was named is not the one who opened the escrow.
    MakerMismatch,
    /// An address that was supplied is not the one that its seeds yield.
    SeedsMismatch,
    /// No bump makes the seeds yield an address.
    NoViableBump,
    /// The caller may not cancel this escrow.
    Unauthorized,
    /// The source balance is below the amount to move.
    InsufficientFunds,
    /// No account of the kind required lives at the address.
    AccountMissing,
    /// The address already holds an account.
    AddressInUse,
    /// The destination balance cannot hold the amount.
    Overflow,
    /// A balance that still holds funds cannot be closed.
    NonZeroBalance,
    /// The storage deposit of an account cannot go to the account itself.
    InvalidDestination,
}

impl EscrowError {
    /// The family that the error belongs to.
    pub open spec fn spec_kind(self) -> ErrorKind {
        match self {
            EscrowError::ZeroAmount => ErrorKind::Validation,
            EscrowError::MintMismatch => ErrorKind::Validation,
            EscrowError::OwnerMismatch => ErrorKind::Validation,
            EscrowError::MakerMismatch => ErrorKind::Validation,
            EscrowError::SeedsMismatch => ErrorKind::Validation,
            EscrowError::NoViableBump => ErrorKind::Validation,
            EscrowError::InvalidDestination => ErrorKind::Validation,
            EscrowError::Unauthorized => ErrorKind::Authorization,
            EscrowError::InsufficientFunds => ErrorKind::InsufficientFunds,
            EscrowError::AccountMissing => ErrorKind::State,
            EscrowError::AddressInUse => ErrorKind::State,
            EscrowError::Overflow => ErrorKind::State,
            EscrowError::NonZeroBalance => ErrorKind::State,
        }
    }

    /// The family that the error belongs to.
    #[verifier::when_used_as_spec(spec_kind)]
    pub fn kind(self) -> (k: ErrorKind)
        ensures
            k == self.spec_kind(),
    {
        match self {
            EscrowError::ZeroAmount => ErrorKind::Validation,
            EscrowError::MintMismatch => ErrorKind::Validation,
            EscrowError::OwnerMismatch => ErrorKind::Validation,
            EscrowError::MakerMismatch => ErrorKind::Validation,
            EscrowError::SeedsMismatch => ErrorKind::Validation,
            EscrowError::NoViableBump => ErrorKind::Validation,
            EscrowError::InvalidDestination => ErrorKind::Validation,
            EscrowError::Unauthorized => ErrorKind::Authorization,
            EscrowError::InsufficientFunds => ErrorKind::InsufficientFunds,
            EscrowError::AccountMissing => ErrorKind::State,
            EscrowError::AddressInUse => ErrorKind::State,
            EscrowError::Overflow => ErrorKind::State,
            EscrowError::NonZeroBalance => ErrorKind::State,
        }
    }
}

} // verus!
