//! The vault record and the errors of its operations.
use crate::address::Address;
use vstd::prelude::*;

verus! {

/// The persistent record of one vault.
#[derive(Clone, Copy, Debug)]
pub struct Wallet {
    /// Owner allowed to withdraw and to hand the vault over.
    pub authority: Address,
    /// The bound token holding account; never changes after creation.
    pub vault: Address,
    /// Total ever withdrawn, saturating at `u64::MAX`.
    pub withdrawn: u64,
    /// Bump that re-derives the keyless signer from the record's address.
    pub signer_bump: u8,
    /// Bump that re-derives the holding account from the record's address.
    pub vault_bump: u8,
}

impl Wallet {
    /// Bytes allocated for a record: an 8-byte discriminator and the record's
    /// in-memory size (two addresses, a `u64`, two bytes, padded to 80).
    pub const SPACE: usize = 88;

    /// The record with `withdrawn` raised by `amount`, saturating.
    pub open spec fn with_withdrawal(self, amount: u64) -> Wallet {
        Wallet { withdrawn: self.withdrawn.saturating_add(amount), ..self }
    }

    /// The record with its authority replaced.
    pub open spec fn with_authority(self, authority: Address) -> Wallet {
        Wallet { authority, ..self }
    }
}

/// Why an operation was refused.
#[derive(Clone, Copy, Debug, PartialEq, Eq, Structural)]
pub enum WalletError {
    /// A deposit of zero, or a withdrawal from an empty vault.
    AmountMustBeMoreZero,
    /// A required signature is missing, or the signer is not the record's authority.
    Unauthorized,
    /// The holding account supplied is not the one bound to the record.
    VaultMismatch,
    /// A supplied account is not the address that its seeds and bump derive.
    SeedsMismatch,
    /// No bump gives a derived address for the seeds.
    DerivationFailed,
}

} // verus!
