//! Laws that relate the operations to one another.
use crate::address::Address;
use crate::derivation::{derives, SEED_VAULT};
use crate::instructions::{
    bumps_rederive, deposit_result, withdraw_result, Deposit, TokenTransfer, Withdraw,
};
use crate::wallet::{Wallet, WalletError};
use vstd::prelude::*;

verus! {

/// Whether a deposit's accounts pass every check that comes before the amount.
pub open spec fn deposit_accounts_valid(program_id: Seq<u8>, wallet: Wallet, accounts: Deposit) -> bool {
    &&& accounts.authority_is_signer
    &&& wallet.vault@ == accounts.vault@
    &&& derives(SEED_VAULT@, accounts.wallet@, wallet.vault_bump, program_id, accounts.vault@)
}

/// Whether a withdrawal's accounts pass every check that comes before the balance.
pub open spec fn withdraw_accounts_valid(program_id: Seq<u8>, wallet: Wallet, accounts: Withdraw) -> bool {
    &&& accounts.authority_is_signer
    &&& wallet.authority@ == accounts.authority@
    &&& wallet.vault@ == accounts.vault@
    &&& derives(SEED_VAULT@, accounts.wallet@, wallet.vault_bump, program_id, accounts.vault@)
}

/// A deposit of zero is always refused, so no transfer is asked for and the
/// holding account's balance cannot change; when its accounts pass their
/// checks, the refusal is for the amount.
pub proof fn lemma_zero_deposit_refused(program_id: Seq<u8>, wallet: Wallet, accounts: Deposit)
    ensures
        deposit_result(program_id, wallet, accounts, 0) is Err,
        deposit_accounts_valid(program_id, wallet, accounts) ==> deposit_result(
            program_id,
            wallet,
            accounts,
            0,
        ) == Err::<TokenTransfer, WalletError>(WalletError::AmountMustBeMoreZero),
{
}

/// A withdrawal from an empty holding account is always refused, so nothing
/// is booked and `withdrawn` stays; when its accounts pass their checks, the
/// refusal is for the amount.
pub proof fn lemma_empty_vault_withdraw_refused(
    program_id: Seq<u8>,
    wallet: Wallet,
    accounts: Withdraw,
)
    requires
        accounts.vault_amount == 0,
    ensures
        withdraw_result(program_id, wallet, accounts) is Err,
        withdraw_accounts_valid(program_id, wallet, accounts) ==> withdraw_result(
            program_id,
            wallet,
            accounts,
        ) == Err::<TokenTransfer, WalletError>(WalletError::AmountMustBeMoreZero),
{
}

/// A withdrawal that is accepted moves the whole balance out of the holding
/// account, leaving it empty, and once done raises `withdrawn` by exactly
/// that balance, saturating.
pub proof fn lemma_withdraw_drains_and_counts(
    program_id: Seq<u8>,
    wallet: Wallet,
    accounts: Withdraw,
    transfer: TokenTransfer,
)
    requires
        withdraw_result(program_id, wallet, accounts) == Ok::<TokenTransfer, WalletError>(transfer),
    ensures
        transfer.from == accounts.vault,
        transfer.amount == accounts.vault_amount,
        accounts.vault_amount - transfer.amount == 0,
        wallet.with_withdrawal(transfer.amount).withdrawn == wallet.withdrawn.saturating_add(
            accounts.vault_amount,
        ),
        wallet.with_withdrawal(transfer.amount).authority == wallet.authority,
        wallet.with_withdrawal(transfer.amount).vault == wallet.vault,
{
}

/// The bumps that a record was created with prove its keyless signer and its
/// holding account in every later withdrawal: when the record's authority
/// signs for a non-empty holding account, the withdrawal is accepted.
pub proof fn lemma_rederived_bumps_admit_withdraw(
    program_id: Seq<u8>,
    wallet_address: Address,
    wallet: Wallet,
    signer: Address,
    accounts: Withdraw,
)
    requires
        bumps_rederive(program_id, wallet_address@, wallet, signer@),
        accounts.wallet@ == wallet_address@,
        accounts.authority_is_signer,
        accounts.authority@ == wallet.authority@,
        accounts.vault@ == wallet.vault@,
        accounts.wallet_signer@ == signer@,
        accounts.vault_amount > 0,
    ensures
        withdraw_result(program_id, wallet, accounts) is Ok,
{
}

/// The bumps that a record was created with prove its holding account in
/// every later deposit: a signed deposit of a positive amount into that
/// account is accepted.
pub proof fn lemma_rederived_bumps_admit_deposit(
    program_id: Seq<u8>,
    wallet_address: Address,
    wallet: Wallet,
    signer: Address,
    accounts: Deposit,
    amount: u64,
)
    requires
        bumps_rederive(program_id, wallet_address@, wallet, signer@),
        accounts.wallet@ == wallet_address@,
        accounts.authority_is_signer,
        accounts.vault@ == wallet.vault@,
        amount > 0,
    ensures
        deposit_result(program_id, wallet, accounts, amount) is Ok,
{
}

} // verus!
