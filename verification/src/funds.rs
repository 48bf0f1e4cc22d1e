//! The custody of the pooled funds. Each competition has a vault, an account
//! at an address derived from the competition's identifier. Funds enter it on
//! the paying party's own signature; they leave it only on the authority
//! that the derivation itself yields, which this module recomputes each time.

use vstd::prelude::*;
use crate::address::{
    authority,
    derived_bump,
    seeds_view,
    vault_authority,
    vault_seeds,
    vault_signer,
    vault_signer_seeds,
};
use crate::error::{ErrorCode, InstructionError};
use crate::pubkey::Pubkey;
use crate::state::SystemAccount;

verus! {

/// An account named by an instruction, and how the instruction uses it.
#[derive(Clone, Copy, Debug, PartialEq, Eq)]
pub struct AccountMeta {
    pub pubkey: Pubkey,
    pub is_signer: bool,
    pub is_writable: bool,
}

/// An instruction for another program: which program, on which accounts, with
/// which data.
#[derive(Clone, Debug, PartialEq, Eq)]
pub struct Instruction {
    pub program_id: Pubkey,
    pub accounts: Vec<AccountMeta>,
    pub data: Vec<u8>,
}

/// What an instruction says.
pub ghost struct InstructionView {
    pub program_id: Pubkey,
    pub accounts: Seq<AccountMeta>,
    pub data: Seq<u8>,
}

impl View for Instruction {
    type V = InstructionView;

    open spec fn view(&self) -> InstructionView {
        InstructionView { program_id: self.program_id, accounts: self.accounts@, data: self.data@ }
    }
}

/// A movement of funds for the ledger to carry out: the instruction, and the
/// seeds with which the vault signs it. The seeds are empty where the paying
/// party signs for itself.
#[derive(Clone, Debug, PartialEq, Eq)]
pub struct Transfer {
    pub instruction: Instruction,
    pub signer_seeds: Vec<Vec<u8>>,
}

/// What a transfer says.
pub ghost struct TransferView {
    pub instruction: InstructionView,
    pub signer_seeds: Seq<Seq<u8>>,
}

impl View for Transfer {
    type V = TransferView;

    open spec fn view(&self) -> TransferView {
        TransferView {
            instruction: self.instruction@,
            signer_seeds: seeds_view(self.signer_seeds@),
        }
    }
}

/// The data of the system program's instruction that moves `lamports`.
pub uninterp spec fn transfer_data(lamports: u64) -> Seq<u8>;

/// The accounts of a transfer from `from` to `to`: the source, which signs
/// and is written to, then the destination, which is written to.
pub open spec fn transfer_accounts(from: Pubkey, to: Pubkey) -> Seq<AccountMeta> {
    seq![
        AccountMeta { pubkey: from, is_signer: true, is_writable: true },
        AccountMeta { pubkey: to, is_signer: false, is_writable: true },
    ]
}

/// The system program's instruction that moves `lamports` from `from` to `to`.
/// It is addressed to the system program, whose identity is the empty one.
pub open spec fn system_transfer(from: Pubkey, to: Pubkey, lamports: u64) -> InstructionView {
    InstructionView {
        program_id: Pubkey::empty(),
        accounts: transfer_accounts(from, to),
        data: transfer_data(lamports),
    }
}

/// Calls `system_instruction::transfer` of `anchor_lang::solana_program`. It
/// builds an instruction for the system program, whose identity is thirty-two
/// zero bytes, on two accounts: the source as a writable signer, then the
/// destination as writable. The data are the encoded request, which depends
/// on the amount alone and is taken on trust under the name `transfer_data`.
#[verifier::external_body]
fn system_instruction_transfer(from: &Pubkey, to: &Pubkey, lamports: u64) -> (instruction:
    Instruction)
    ensures
        instruction.program_id == Pubkey::empty(),
        instruction.accounts@ == transfer_accounts(*from, *to),
        instruction.data@ == transfer_data(lamports),
{
    let source = anchor_lang::prelude::Pubkey::new_from_array(from.bytes);
    let target = anchor_lang::prelude::Pubkey::new_from_array(to.bytes);
    let built =
        anchor_lang::solana_program::system_instruction::transfer(&source, &target, lamports);
    let convert = |meta: &anchor_lang::prelude::AccountMeta| AccountMeta {
        pubkey: Pubkey { bytes: meta.pubkey.to_bytes() },
        is_signer: meta.is_signer,
        is_writable: meta.is_writable,
    };
    Instruction {
        program_id: Pubkey { bytes: built.program_id.to_bytes() },
        accounts: built.accounts.iter().map(convert).collect(),
        data: built.data,
    }
}

/// The transfer by which `payer` pays `lamports` into the vault at `vault`,
/// on its own signature.
pub open spec fn inbound_transfer(payer: Pubkey, vault: Pubkey, lamports: u64) -> TransferView {
    TransferView { instruction: system_transfer(payer, vault, lamports), signer_seeds: seq![] }
}

/// The transfer by which the vault of the competition `id` pays `lamports` to
/// `recipient`, signed with the vault's own seeds.
pub open spec fn outbound_transfer(
    vault: Pubkey,
    recipient: Pubkey,
    lamports: u64,
    id: Seq<char>,
    bump: u8,
) -> TransferView {
    TransferView {
        instruction: system_transfer(vault, recipient, lamports),
        signer_seeds: vault_signer_seeds(id, bump),
    }
}

/// Whether `payer` can pay `lamports` into `vault`, and if not, why.
/// `authority` is the vault's bump where the account is the vault derived for
/// the competition, `None` where it is not.
pub open spec fn judge_deposit(
    vault: SystemAccount,
    authority: Option<u8>,
    payer: Pubkey,
    lamports: u64,
) -> Result<(), InstructionError> {
    if authority is None {
        Err(InstructionError::SeedsMismatch)
    } else if payer == vault.key {
        Err(InstructionError::InvalidSigner)
    } else if vault.lamports + lamports > u64::MAX {
        Err(InstructionError::BalanceOverflow)
    } else {
        Ok(())
    }
}

/// Whether `vault` can pay out `lamports`, and if not, why. `authority` is the
/// vault's bump where the account is the vault derived for the competition,
/// `None` where it is not.
pub open spec fn judge_pay_out(vault: SystemAccount, authority: Option<u8>, lamports: u64) -> Result<
    (),
    InstructionError,
> {
    if authority is None {
        Err(InstructionError::SeedsMismatch)
    } else if lamports > vault.lamports {
        Err(InstructionError::Program(ErrorCode::InsufficientFunds))
    } else {
        Ok(())
    }
}

/// Whether `payer` can pay `lamports` into `vault` as the vault of the
/// competition `id` under `program_id`, and if not, why.
pub open spec fn deposit_check(
    program_id: Pubkey,
    vault: SystemAccount,
    id: Seq<char>,
    payer: Pubkey,
    lamports: u64,
) -> Result<(), InstructionError> {
    judge_deposit(vault, authority(vault_seeds(id), program_id, vault.key), payer, lamports)
}

/// Whether `vault` can pay out `lamports` as the vault of the competition `id`
/// under `program_id`, and if not, why.
pub open spec fn pay_out_check(
    program_id: Pubkey,
    vault: SystemAccount,
    id: Seq<char>,
    lamports: u64,
) -> Result<(), InstructionError> {
    judge_pay_out(vault, authority(vault_seeds(id), program_id, vault.key), lamports)
}

impl SystemAccount {
    /// The account after `lamports` were paid into it.
    pub open spec fn credited(self, lamports: u64) -> SystemAccount
        recommends
            self.lamports + lamports <= u64::MAX,
    {
        SystemAccount { key: self.key, lamports: (self.lamports + lamports) as u64 }
    }

    /// The account after it paid `lamports` to `recipient`. What an account
    /// pays to itself it keeps.
    pub open spec fn debited(self, recipient: Pubkey, lamports: u64) -> SystemAccount
        recommends
            lamports <= self.lamports,
    {
        if recipient == self.key {
            self
        } else {
            SystemAccount { key: self.key, lamports: (self.lamports - lamports) as u64 }
        }
    }
}

/// Pays `lamports` from `payer` into `vault`, given the authority that was
/// established for the vault: its bump, or `None` where the account is not
/// the vault derived for the competition.
///
/// Without authority nothing is paid. Nor is anything paid where the payer is
/// the vault itself, which cannot sign for a payment, or where the new
/// balance would not be representable. Otherwise the balance grows by
/// `lamports` and the transfer to carry out, signed by the payer, is returned.
/// On failure nothing changes.
pub fn deposit_authorized(
    vault: &mut SystemAccount,
    authority: Option<u8>,
    payer: &Pubkey,
    lamports: u64,
) -> (paid: Result<Transfer, InstructionError>)
    ensures
        match judge_deposit(*old(vault), authority, *payer, lamports) {
            Ok(()) => {
                &&& paid matches Ok(transfer)
                &&& transfer@ == inbound_transfer(*payer, old(vault).key, lamports)
                &&& *final(vault) == old(vault).credited(lamports)
            },
            Err(reason) => {
                &&& paid matches Err(error)
                &&& error == reason
                &&& *final(vault) == *old(vault)
            },
        },
{
    if authority.is_none() {
        return Err(InstructionError::SeedsMismatch);
    }
    if *payer == vault.key {
        return Err(InstructionError::InvalidSigner);
    }
    if lamports > u64::MAX - vault.lamports {
        return Err(InstructionError::BalanceOverflow);
    }
    let instruction = system_instruction_transfer(payer, &vault.key, lamports);
    vault.lamports = vault.lamports + lamports;
    let transfer = Transfer { instruction, signer_seeds: Vec::new() };
    assert(transfer@.signer_seeds =~= Seq::<Seq<u8>>::empty());
    Ok(transfer)
}

/// Pays `lamports` from `vault`, the vault of `competition_id`, to
/// `recipient`, given the authority that was established for the vault: its
/// bump, or `None` where the account is not the vault derived for the
/// competition.
///
/// Without authority nothing is paid. The balance is checked at this point,
/// whatever was checked before: a transfer for more than the vault holds is
/// never built. Otherwise the balance shrinks by `lamports` and the transfer
/// to carry out, signed with the vault's seeds and bump, is returned. On
/// failure nothing changes.
pub fn pay_out_authorized(
    vault: &mut SystemAccount,
    authority: Option<u8>,
    competition_id: &str,
    recipient: &Pubkey,
    lamports: u64,
) -> (paid: Result<Transfer, InstructionError>)
    ensures
        match judge_pay_out(*old(vault), authority, lamports) {
            Ok(()) => {
                &&& paid matches Ok(transfer)
                &&& transfer@ == outbound_transfer(
                    old(vault).key,
                    *recipient,
                    lamports,
                    competition_id@,
                    authority->0,
                )
                &&& *final(vault) == old(vault).debited(*recipient, lamports)
            },
            Err(reason) => {
                &&& paid matches Err(error)
                &&& error == reason
                &&& *final(vault) == *old(vault)
            },
        },
{
    let bump = match authority {
        Some(bump) => bump,
        None => { return Err(InstructionError::SeedsMismatch); },
    };
    if vault.lamports < lamports {
        return Err(InstructionError::Program(ErrorCode::InsufficientFunds));
    }
    let instruction = system_instruction_transfer(&vault.key, recipient, lamports);
    let signer_seeds = vault_signer(competition_id, bump);
    if !(*recipient == vault.key) {
        vault.lamports = vault.lamports - lamports;
    }
    Ok(Transfer { instruction, signer_seeds })
}

/// Pays `lamports` from `payer` into the vault of `competition_id`.
///
/// The vault's address is recomputed from the identifier first; what follows
/// is `deposit_authorized`.
pub fn deposit(
    program_id: &Pubkey,
    vault: &mut SystemAccount,
    competition_id: &str,
    payer: &Pubkey,
    lamports: u64,
) -> (paid: Result<Transfer, InstructionError>)
    ensures
        match deposit_check(*program_id, *old(vault), competition_id@, *payer, lamports) {
            Ok(()) => {
                &&& paid matches Ok(transfer)
                &&& transfer@ == inbound_transfer(*payer, old(vault).key, lamports)
                &&& *final(vault) == old(vault).credited(lamports)
            },
            Err(reason) => {
                &&& paid matches Err(error)
                &&& error == reason
                &&& *final(vault) == *old(vault)
            },
        },
{
    let authority = vault_authority(program_id, &vault.key, competition_id);
    deposit_authorized(vault, authority, payer, lamports)
}

/// Pays `lamports` from the vault of `competition_id` to `recipient`.
///
/// The vault's authority is recomputed from the identifier first; what
/// follows is `pay_out_authorized`.
pub fn pay_out(
    program_id: &Pubkey,
    vault: &mut SystemAccount,
    competition_id: &str,
    recipient: &Pubkey,
    lamports: u64,
) -> (paid: Result<Transfer, InstructionError>)
    ensures
        match pay_out_check(*program_id, *old(vault), competition_id@, lamports) {
            Ok(()) => {
                &&& paid matches Ok(transfer)
                &&& transfer@ == outbound_transfer(
                    old(vault).key,
                    *recipient,
                    lamports,
                    competition_id@,
                    derived_bump(vault_seeds(competition_id@), *program_id),
                )
                &&& *final(vault) == old(vault).debited(*recipient, lamports)
            },
            Err(reason) => {
                &&& paid matches Err(error)
                &&& error == reason
                &&& *final(vault) == *old(vault)
            },
        },
{
    let authority = vault_authority(program_id, &vault.key, competition_id);
    pay_out_authorized(vault, authority, competition_id, recipient, lamports)
}

} // verus!
