//! The four operations on a vault. Each checks the accounts it is handed and
//! decides; moving tokens is left to the token program, which the caller
//! invokes with the `TokenTransfer` that an operation returns.
use crate::address::Address;
use crate::derivation::{derive_address, derives, verify_derived, canonical_program_address, SEED_SIGNER, SEED_VAULT};
use crate::wallet::{Wallet, WalletError};
use vstd::prelude::*;

verus! {

/// Seeds that prove the keyless signer of a vault: `[SEED_SIGNER, origin, [bump]]`.
#[derive(Clone, Copy, Debug)]
pub struct SignerSeeds {
    pub origin: Address,
    pub bump: u8,
}

/// A token transfer that an operation asks for.
#[derive(Clone, Copy, Debug)]
pub struct TokenTransfer {
    pub from: Address,
    pub to: Address,
    /// The party that authorizes the transfer.
    pub authority: Address,
    pub amount: u64,
    /// Present when the authority is the vault's keyless signer, which the
    /// seeds prove in place of a signature.
    pub signer_seeds: Option<SignerSeeds>,
}

/// The accounts of a withdrawal.
#[derive(Clone, Copy, Debug)]
pub struct Withdraw {
    /// Address of the vault record.
    pub wallet: Address,
    pub authority: Address,
    pub authority_is_signer: bool,
    /// The holding account, and the balance it holds.
    pub vault: Address,
    pub vault_amount: u64,
    pub destination: Address,
    /// The keyless signer that owns the holding account.
    pub wallet_signer: Address,
}

/// What `withdraw` decides for these accounts.
pub open spec fn withdraw_result(program_id: Seq<u8>, wallet: Wallet, accounts: Withdraw) -> Result<
    TokenTransfer,
    WalletError,
> {
    if !accounts.authority_is_signer || wallet.authority@ != accounts.authority@ {
        Err(WalletError::Unauthorized)
    } else if wallet.vault@ != accounts.vault@ {
        Err(WalletError::VaultMismatch)
    } else if !derives(SEED_VAULT@, accounts.wallet@, wallet.vault_bump, program_id, accounts.vault@) {
        Err(WalletError::SeedsMismatch)
    } else if accounts.vault_amount == 0 {
        Err(WalletError::AmountMustBeMoreZero)
    } else if !derives(
        SEED_SIGNER@,
        accounts.wallet@,
        wallet.signer_bump,
        program_id,
        accounts.wallet_signer@,
    ) {
        Err(WalletError::SeedsMismatch)
    } else {
        Ok(
            TokenTransfer {
                from: accounts.vault,
                to: accounts.destination,
                authority: accounts.wallet_signer,
                amount: accounts.vault_amount,
                signer_seeds: Some(SignerSeeds { origin: accounts.wallet, bump: wallet.signer_bump }),
            },
        )
    }
}

/// Checks a withdrawal and returns the transfer that empties the holding
/// account into the destination, signed by the vault's keyless signer. Once
/// the transfer is done, `finish_withdraw` books it on the record.
pub fn withdraw(program_id: &Address, wallet: &Wallet, accounts: &Withdraw) -> (r: Result<
    TokenTransfer,
    WalletError,
>)
    ensures
        r == withdraw_result(program_id@, *wallet, *accounts),
{
    if !accounts.authority_is_signer || !wallet.authority.same_as(&accounts.authority) {
        return Err(WalletError::Unauthorized);
    }
    if !wallet.vault.same_as(&accounts.vault) {
        return Err(WalletError::VaultMismatch);
    }
    if !verify_derived(&SEED_VAULT, &accounts.wallet, wallet.vault_bump, program_id, &accounts.vault) {
        return Err(WalletError::SeedsMismatch);
    }
    if accounts.vault_amount == 0 {
        return Err(WalletError::AmountMustBeMoreZero);
    }
    if !verify_derived(
        &SEED_SIGNER,
        &accounts.wallet,
        wallet.signer_bump,
        program_id,
        &accounts.wallet_signer,
    ) {
        return Err(WalletError::SeedsMismatch);
    }
    Ok(
        TokenTransfer {
            from: accounts.vault,
            to: accounts.destination,
            authority: accounts.wallet_signer,
            amount: accounts.vault_amount,
            signer_seeds: Some(SignerSeeds { origin: accounts.wallet, bump: wallet.signer_bump }),
        },
    )
}

/// Books a withdrawal on the record once its transfer has run: when the
/// transfer went through, `withdrawn` grows by its amount, saturating;
/// when it failed, the record stays as it was.
pub fn finish_withdraw(wallet: &mut Wallet, transfer: &TokenTransfer, transferred: bool)
    ensures
        *final(wallet) == if transferred {
            old(wallet).with_withdrawal(transfer.amount)
        } else {
            *old(wallet)
        },
{
    if transferred {
        wallet.withdrawn = wallet.withdrawn.saturating_add(transfer.amount);
    }
}

/// The accounts of a deposit.
#[derive(Clone, Copy, Debug)]
pub struct Deposit {
    /// Address of the vault record.
    pub wallet: Address,
    /// Owner of the source account; the token program checks that it is.
    pub authority: Address,
    pub authority_is_signer: bool,
    pub source: Address,
    /// The holding account that receives the tokens.
    pub vault: Address,
}

/// What `deposit` decides for these accounts and amount.
pub open spec fn deposit_result(
    program_id: Seq<u8>,
    wallet: Wallet,
    accounts: Deposit,
    amount: u64,
) -> Result<TokenTransfer, WalletError> {
    if !accounts.authority_is_signer {
        Err(WalletError::Unauthorized)
    } else if wallet.vault@ != accounts.vault@ {
        Err(WalletError::VaultMismatch)
    } else if !derives(SEED_VAULT@, accounts.wallet@, wallet.vault_bump, program_id, accounts.vault@) {
        Err(WalletError::SeedsMismatch)
    } else if amount == 0 {
        Err(WalletError::AmountMustBeMoreZero)
    } else {
        Ok(
            TokenTransfer {
                from: accounts.source,
                to: accounts.vault,
                authority: accounts.authority,
                amount,
                signer_seeds: None,
            },
        )
    }
}

/// Checks a deposit and returns the transfer of `amount` from the source
/// into the holding account, authorized by the signer. The record is not
/// changed by a deposit.
pub fn deposit(program_id: &Address, wallet: &Wallet, accounts: &Deposit, amount: u64) -> (r:
    Result<TokenTransfer, WalletError>)
    ensures
        r == deposit_result(program_id@, *wallet, *accounts, amount),
{
    if !accounts.authority_is_signer {
        return Err(WalletError::Unauthorized);
    }
    if !wallet.vault.same_as(&accounts.vault) {
        return Err(WalletError::VaultMismatch);
    }
    if !verify_derived(&SEED_VAULT, &accounts.wallet, wallet.vault_bump, program_id, &accounts.vault) {
        return Err(WalletError::SeedsMismatch);
    }
    if amount == 0 {
        return Err(WalletError::AmountMustBeMoreZero);
    }
    Ok(
        TokenTransfer {
            from: accounts.source,
            to: accounts.vault,
            authority: accounts.authority,
            amount,
            signer_seeds: None,
        },
    )
}

/// The accounts of a change of authority.
#[derive(Clone, Copy, Debug)]
pub struct UpdateAuthority {
    pub authority: Address,
    pub authority_is_signer: bool,
    pub new_authority: Address,
}

/// Hands the vault over to `new_authority`. Only the current authority,
/// signing, may do so; nothing else in the record changes.
pub fn update_authority(wallet: &mut Wallet, accounts: &UpdateAuthority) -> (r: Result<
    (),
    WalletError,
>)
    ensures
        accounts.authority_is_signer && old(wallet).authority@ == accounts.authority@ ==> r
            == Ok::<(), WalletError>(()) && *final(wallet) == old(wallet).with_authority(
            accounts.new_authority,
        ),
        !(accounts.authority_is_signer && old(wallet).authority@ == accounts.authority@) ==> r
            == Err::<(), WalletError>(WalletError::Unauthorized) && *final(wallet) == *old(wallet),
{
    if !accounts.authority_is_signer || !wallet.authority.same_as(&accounts.authority) {
        return Err(WalletError::Unauthorized);
    }
    wallet.authority = accounts.new_authority;
    Ok(())
}

/// The accounts of a vault's creation.
#[derive(Clone, Copy, Debug)]
pub struct Initialize {
    /// Address of the new vault record.
    pub wallet: Address,
    /// The owner to record; it need not sign.
    pub authority: Address,
    /// Who pays for the new accounts; must sign.
    pub payer: Address,
    pub payer_is_signer: bool,
    /// The keyless signer that will own the holding account.
    pub wallet_signer: Address,
    pub mint: Address,
    /// The holding account to create.
    pub vault: Address,
}

/// The token holding account that a new vault needs created.
#[derive(Clone, Copy, Debug)]
pub struct HoldingAccount {
    pub address: Address,
    pub mint: Address,
    /// The only party that can move its tokens.
    pub authority: Address,
}

/// What `initialize` decides for these accounts.
pub open spec fn initialize_result(program_id: Seq<u8>, accounts: Initialize) -> Result<
    (Wallet, HoldingAccount),
    WalletError,
> {
    if !accounts.payer_is_signer {
        Err(WalletError::Unauthorized)
    } else {
        match canonical_program_address(seq![SEED_SIGNER@, accounts.wallet@], program_id) {
            None => Err(WalletError::DerivationFailed),
            Some((signer, signer_bump)) => if signer != accounts.wallet_signer@ {
                Err(WalletError::SeedsMismatch)
            } else {
                match canonical_program_address(seq![SEED_VAULT@, accounts.wallet@], program_id) {
                    None => Err(WalletError::DerivationFailed),
                    Some((vault, vault_bump)) => if vault != accounts.vault@ {
                        Err(WalletError::SeedsMismatch)
                    } else {
                        Ok(
                            (
                                Wallet {
                                    authority: accounts.authority,
                                    vault: accounts.vault,
                                    withdrawn: 0,
                                    signer_bump,
                                    vault_bump,
                                },
                                HoldingAccount {
                                    address: accounts.vault,
                                    mint: accounts.mint,
                                    authority: accounts.wallet_signer,
                                },
                            ),
                        )
                    },
                }
            },
        }
    }
}

/// Whether the record's bumps re-derive, from the record's address, the
/// keyless signer and the holding account.
pub open spec fn bumps_rederive(
    program_id: Seq<u8>,
    wallet_address: Seq<u8>,
    wallet: Wallet,
    signer: Seq<u8>,
) -> bool {
    &&& derives(SEED_SIGNER@, wallet_address, wallet.signer_bump, program_id, signer)
    &&& derives(SEED_VAULT@, wallet_address, wallet.vault_bump, program_id, wallet.vault@)
}

/// Creates a vault record: finds the canonical bumps of the keyless signer
/// and of the holding account, checks that the accounts supplied are those
/// addresses, and records the authority with nothing withdrawn. Also returns
/// the holding account to create, owned by the keyless signer.
pub fn initialize(program_id: &Address, accounts: &Initialize) -> (r: Result<
    (Wallet, HoldingAccount),
    WalletError,
>)
    ensures
        r == initialize_result(program_id@, *accounts),
        r matches Ok((w, h)) ==> bumps_rederive(program_id@, accounts.wallet@, w, h.authority@),
{
    if !accounts.payer_is_signer {
        return Err(WalletError::Unauthorized);
    }
    let (signer, signer_bump) = match derive_address(&SEED_SIGNER, &accounts.wallet, program_id) {
        Some(found) => found,
        None => return Err(WalletError::DerivationFailed),
    };
    if !signer.same_as(&accounts.wallet_signer) {
        return Err(WalletError::SeedsMismatch);
    }
    let (vault, vault_bump) = match derive_address(&SEED_VAULT, &accounts.wallet, program_id) {
        Some(found) => found,
        None => return Err(WalletError::DerivationFailed),
    };
    if !vault.same_as(&accounts.vault) {
        return Err(WalletError::SeedsMismatch);
    }
    let wallet = Wallet {
        authority: accounts.authority,
        vault: accounts.vault,
        withdrawn: 0,
        signer_bump,
        vault_bump,
    };
    let holding = HoldingAccount {
        address: accounts.vault,
        mint: accounts.mint,
        authority: accounts.wallet_signer,
    };
    Ok((wallet, holding))
}

} // verus!
