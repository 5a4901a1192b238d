//! What holds of every settlement, stated over the processors' own spec
//! functions.
use vstd::prelude::*;
use crate::address::{escrow_address, Address};
use crate::errors::{PinocchioError, ProgramError};
use crate::refund::{Refund, RefundAccounts};
use crate::state::Account;
use crate::take::{Take, TakeAccounts};
use crate::validation::{initialize_fault, initialized, is_associated};

verus! {

/// A settled Take leaves the vault without balance, gives the taker exactly
/// what the vault held, gives the maker exactly the amount that the record
/// demands and takes it from the taker, closes the vault and the record, and
/// credits the record's storage to the taker and the vault's to the maker.
pub proof fn take_moves_exact_amounts(t: Take)
    requires
        t.fault() is None,
    ensures
        ({
            let before = t.accounts;
            let after = t.accounts.settled(t.record());
            &&& after.vault_pda.balance() == 0
            &&& after.vault_pda.is_closed()
            &&& after.escrow_pda.is_closed()
            &&& after.taker_ata_a.balance() == before.taker_ata_a.balance()
                + before.vault_pda.balance()
            &&& after.maker_ata_b.balance() == before.maker_ata_b.balance() + t.record().receive
            &&& after.taker_ata_b.balance() == before.taker_ata_b.balance() - t.record().receive
            &&& after.taker.lamports == before.taker.lamports + before.escrow_pda.lamports
            &&& after.maker.lamports == before.maker.lamports + before.vault_pda.lamports
            &&& after.mint_a == before.mint_a
            &&& after.mint_b == before.mint_b
        }),
{
}

/// A settled Refund gives the maker exactly what the vault held, closes the
/// vault and the record, and credits the storage of both to the maker.
pub proof fn refund_moves_exact_amounts(r: Refund)
    requires
        r.fault() is None,
    ensures
        ({
            let before = r.accounts;
            let after = r.accounts.settled();
            &&& after.vault_pda.balance() == 0
            &&& after.vault_pda.is_closed()
            &&& after.escrow_pda.is_closed()
            &&& after.maker_ata_a.balance() == before.maker_ata_a.balance()
                + before.vault_pda.balance()
            &&& after.maker.lamports == before.maker.lamports + before.vault_pda.lamports
                + before.escrow_pda.lamports
            &&& after.mint_a == before.mint_a
        }),
{
}

/// A record account whose address is not the one derived from the record's
/// maker, nonce and bump makes a signed Take fail with the invalid-address
/// fault, whatever the other accounts hold.
pub proof fn take_rejects_underived_record(t: Take)
    requires
        t.accounts.taker.is_signer,
        t.accounts.escrow_pda.data is Record,
        escrow_address(t.record().maker@, t.record().seed, t.record().bump, t.program_id@) != Some(
            t.accounts.escrow_pda.address@,
        ),
    ensures
        t.fault() == Some(PinocchioError::InvalidAddress.spec_program_error()),
{
}

/// A record account whose address is not the one derived from the record's
/// maker, nonce and bump makes a signed Refund fail with the invalid-address
/// fault, whatever the other accounts hold.
pub proof fn refund_rejects_underived_record(r: Refund)
    requires
        r.accounts.maker.is_signer,
        r.accounts.escrow_pda.data is Record,
        escrow_address(r.record().maker@, r.record().seed, r.record().bump, r.program_id@) != Some(
            r.accounts.escrow_pda.address@,
        ),
    ensures
        r.fault() == Some(PinocchioError::InvalidAddress.spec_program_error()),
{
}

/// A Take whose taker did not sign fails with the not-signer fault, in
/// validation and in settlement, whatever the other accounts hold.
pub proof fn take_demands_taker_signature(t: Take, list: Seq<Account>)
    requires
        !t.accounts.taker.is_signer,
        list.len() == 12,
        !list[0].is_signer,
    ensures
        t.fault() == Some(PinocchioError::NotSigner.spec_program_error()),
        TakeAccounts::spec_try_from(list, t.program_id) == Err::<TakeAccounts, ProgramError>(
            PinocchioError::NotSigner.spec_program_error(),
        ),
        Take::spec_try_from(list, t.program_id) == Err::<Take, ProgramError>(
            PinocchioError::NotSigner.spec_program_error(),
        ),
{
}

/// A Refund whose maker did not sign fails with the not-signer fault, in
/// validation and in settlement, whatever the other accounts hold.
pub proof fn refund_demands_maker_signature(r: Refund, list: Seq<Account>)
    requires
        !r.accounts.maker.is_signer,
        list.len() == 8,
        !list[0].is_signer,
    ensures
        r.fault() == Some(PinocchioError::NotSigner.spec_program_error()),
        Refund::spec_try_from(list, r.program_id) == Err::<Refund, ProgramError>(
            PinocchioError::NotSigner.spec_program_error(),
        ),
{
}

/// Creating a token account where it is missing is idempotent: a second run
/// changes nothing, and an account that already is the token account of its
/// owner for its mint is never created again nor has its balance changed.
pub proof fn lazy_creation_is_idempotent(
    candidate: Account,
    owner: Address,
    mint: Address,
    token_program: Address,
)
    requires
        initialize_fault(candidate, owner, mint, token_program) is None,
    ensures
        is_associated(initialized(candidate, owner, mint), owner, mint, token_program),
        initialize_fault(initialized(candidate, owner, mint), owner, mint, token_program) is None,
        initialized(initialized(candidate, owner, mint), owner, mint) == initialized(
            candidate,
            owner,
            mint,
        ),
        is_associated(candidate, owner, mint, token_program) ==> initialized(
            candidate,
            owner,
            mint,
        ) == candidate,
{
}

/// Validation of a Take hands every token account that already exists to
/// settlement as it found it.
pub proof fn take_keeps_existing_accounts(list: Seq<Account>, program_id: Address)
    requires
        Take::spec_try_from(list, program_id) is Ok,
    ensures
        ({
            let before = TakeAccounts::slots(list);
            let after = Take::spec_try_from(list, program_id)->Ok_0.accounts;
            &&& !(before.taker_ata_a.data is Empty) ==> after.taker_ata_a == before.taker_ata_a
            &&& !(before.maker_ata_b.data is Empty) ==> after.maker_ata_b == before.maker_ata_b
            &&& after.taker_ata_a.balance() == before.taker_ata_a.balance()
            &&& after.maker_ata_b.balance() == before.maker_ata_b.balance()
            &&& after.vault_pda == before.vault_pda
            &&& after.taker_ata_b == before.taker_ata_b
        }),
{
}

/// Validation of a Refund hands every token account that already exists to
/// settlement as it found it.
pub proof fn refund_keeps_existing_accounts(list: Seq<Account>, program_id: Address)
    requires
        Refund::spec_try_from(list, program_id) is Ok,
    ensures
        ({
            let before = RefundAccounts::slots(list);
            let after = Refund::spec_try_from(list, program_id)->Ok_0.accounts;
            &&& !(before.maker_ata_a.data is Empty) ==> after.maker_ata_a == before.maker_ata_a
            &&& after.maker_ata_a.balance() == before.maker_ata_a.balance()
            &&& after.vault_pda == before.vault_pda
        }),
{
}

/// An escrow settles once: after a settled Take, a second Take and a Refund
/// on the same accounts both fail with the invalid-account-data fault, for
/// the record is gone.
pub proof fn take_settles_once(t: Take, r: Refund)
    requires
        t.fault() is None,
        r.accounts.escrow_pda == t.accounts.settled(t.record()).escrow_pda,
        r.accounts.maker.is_signer,
    ensures
        (Take { accounts: t.accounts.settled(t.record()), program_id: t.program_id }).fault()
            == Some(PinocchioError::InvalidAccountData.spec_program_error()),
        r.fault() == Some(PinocchioError::InvalidAccountData.spec_program_error()),
{
}

/// An escrow settles once: after a settled Refund, a second Refund and a Take
/// on the same accounts both fail with the invalid-account-data fault, for
/// the record is gone.
pub proof fn refund_settles_once(r: Refund, t: Take)
    requires
        r.fault() is None,
        t.accounts.escrow_pda == r.accounts.settled().escrow_pda,
        t.accounts.taker.is_signer,
    ensures
        (Refund { accounts: r.accounts.settled(), program_id: r.program_id }).fault() == Some(
            PinocchioError::InvalidAccountData.spec_program_error(),
        ),
        t.fault() == Some(PinocchioError::InvalidAccountData.spec_program_error()),
{
}

/// An account list whose record and vault slots hold closed accounts never
/// passes validation: once settled, an escrow cannot be presented again.
pub proof fn closed_accounts_fail_validation(
    take_list: Seq<Account>,
    refund_list: Seq<Account>,
    program_id: Address,
)
    requires
        take_list.len() == 12,
        take_list[2].data is Empty,
        take_list[5].data is Empty,
        refund_list.len() == 8,
        refund_list[1].data is Empty,
        refund_list[3].data is Empty,
    ensures
        TakeAccounts::spec_try_from(take_list, program_id) is Err,
        Take::spec_try_from(take_list, program_id) is Err,
        RefundAccounts::spec_try_from(refund_list, program_id) is Err,
        Refund::spec_try_from(refund_list, program_id) is Err,
{
}

} // verus!
