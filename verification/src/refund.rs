//! The Refund processor: the maker cancels and reclaims the deposit.
use vstd::prelude::*;
use crate::address::{escrow_address, Address};
use crate::errors::{PinocchioError, ProgramError};
use crate::state::{Account, AccountData, Escrow};
use crate::token::{
    close_account, reclaim, transfer, transfer_fault, Authority, Signing, Step,
};
use crate::validation::{
    associated_fault, check_associated_account, check_mint_interface, check_program_owned,
    check_signer, init_associated_account_if_needed, initialize_fault, initialized,
};

verus! {

/// The accounts of a Refund, by role. Each slot is tracked on its own: a list
/// that names one address in two slots is settled slot by slot.
#[derive(Clone, Copy, Debug, PartialEq, Eq)]
pub struct RefundAccounts {
    pub maker: Account,
    pub maker_ata_a: Account,
    pub mint_a: Account,
    pub escrow_pda: Account,
    pub vault_pda: Account,
    pub token_program: Account,
    pub system_program: Account,
}

/// A Refund that passed validation, under the identity of the program that
/// runs it.
#[derive(Clone, Copy, Debug, PartialEq, Eq)]
pub struct Refund {
    pub accounts: RefundAccounts,
    pub program_id: Address,
}

/// Number of slots in a Refund's account list; the last one is reserved.
pub const REFUND_SLOTS: usize = 8;

impl RefundAccounts {
    /// The roles of an 8-slot account list, in their fixed order.
    pub open spec fn slots(s: Seq<Account>) -> RefundAccounts {
        RefundAccounts {
            maker: s[0],
            escrow_pda: s[1],
            mint_a: s[2],
            vault_pda: s[3],
            maker_ata_a: s[4],
            system_program: s[5],
            token_program: s[6],
        }
    }

    /// Why the vault is refused as the escrow's account for the deposited
    /// asset, if it is.
    pub open spec fn vault_fault(self) -> Option<PinocchioError> {
        associated_fault(
            self.vault_pda,
            self.escrow_pda.address,
            self.mint_a.address,
            self.token_program.address,
        )
    }

    /// Why "create if missing" refuses the maker's account for the deposited
    /// asset, if it does.
    pub open spec fn maker_ata_a_fault(self) -> Option<PinocchioError> {
        initialize_fault(
            self.maker_ata_a,
            self.maker.address,
            self.mint_a.address,
            self.token_program.address,
        )
    }

    /// Why validation refuses these accounts, if it does. The conditions are
    /// tested in this order.
    pub open spec fn fault(self, program_id: Address) -> Option<ProgramError> {
        if !self.maker.is_signer {
            Some(PinocchioError::NotSigner.spec_program_error())
        } else if self.escrow_pda.owner@ != program_id@ {
            Some(PinocchioError::InvalidOwner.spec_program_error())
        } else if !(self.mint_a.data is Mint) {
            Some(PinocchioError::InvalidAccountData.spec_program_error())
        } else if self.vault_fault() is Some {
            Some(self.vault_fault()->Some_0.spec_program_error())
        } else {
            None
        }
    }

    /// What `try_from` returns for an account list.
    pub open spec fn spec_try_from(s: Seq<Account>, program_id: Address) -> Result<
        RefundAccounts,
        ProgramError,
    > {
        if s.len() != REFUND_SLOTS {
            Err(ProgramError::NotEnoughAccountKeys)
        } else {
            match Self::slots(s).fault(program_id) {
                Some(e) => Err(e),
                None => Ok(Self::slots(s)),
            }
        }
    }

    /// Names the slots of an account list and validates them. A list that is
    /// not of 8 slots is refused before any other check.
    pub fn try_from(accounts: &[Account], program_id: &Address) -> (r: Result<
        RefundAccounts,
        ProgramError,
    >)
        ensures
            r == Self::spec_try_from(accounts@, *program_id),
    {
        if accounts.len() != REFUND_SLOTS {
            return Err(ProgramError::NotEnoughAccountKeys);
        }
        let named = RefundAccounts {
            maker: accounts[0],
            escrow_pda: accounts[1],
            mint_a: accounts[2],
            vault_pda: accounts[3],
            maker_ata_a: accounts[4],
            system_program: accounts[5],
            token_program: accounts[6],
        };
        if let Err(e) = check_signer(&named.maker) {
            return Err(ProgramError::Custom(e.code()));
        }
        if let Err(e) = check_program_owned(&named.escrow_pda, program_id) {
            return Err(ProgramError::Custom(e.code()));
        }
        if let Err(e) = check_mint_interface(&named.mint_a) {
            return Err(ProgramError::Custom(e.code()));
        }
        if let Err(e) = check_associated_account(
            &named.vault_pda,
            &named.escrow_pda.address,
            &named.mint_a.address,
            &named.token_program.address,
        ) {
            return Err(ProgramError::Custom(e.code()));
        }
        Ok(named)
    }

    /// The accounts after a settled Refund: the vault is drained into the
    /// maker's account, and the vault and the record are closed in favour of
    /// the maker.
    pub open spec fn settled(self) -> RefundAccounts {
        RefundAccounts {
            vault_pda: self.vault_pda.with_amount(0).closed(),
            maker_ata_a: self.maker_ata_a.with_amount(
                (self.maker_ata_a.token().amount + self.vault_pda.token().amount) as u64,
            ),
            maker: self.maker.credited(self.vault_pda.lamports).credited(self.escrow_pda.lamports),
            escrow_pda: self.escrow_pda.closed(),
            ..self
        }
    }
}

impl Refund {
    /// The instruction selector of Refund.
    pub const DISCRIMINATOR: u8 = 2;

    /// What `try_from` returns for an account list.
    pub open spec fn spec_try_from(s: Seq<Account>, program_id: Address) -> Result<
        Refund,
        ProgramError,
    > {
        match RefundAccounts::spec_try_from(s, program_id) {
            Err(e) => Err(e),
            Ok(a) => if a.maker_ata_a_fault() is Some {
                Err(a.maker_ata_a_fault()->Some_0.spec_program_error())
            } else {
                Ok(
                    Refund {
                        accounts: RefundAccounts {
                            maker_ata_a: initialized(
                                a.maker_ata_a,
                                a.maker.address,
                                a.mint_a.address,
                            ),
                            ..a
                        },
                        program_id,
                    },
                )
            },
        }
    }

    /// Validates an account list, then creates the maker's account for the
    /// deposited asset where it does not exist yet.
    pub fn try_from(accounts: &[Account], program_id: &Address) -> (r: Result<
        Refund,
        ProgramError,
    >)
        ensures
            r == Self::spec_try_from(accounts@, *program_id),
    {
        let a = match RefundAccounts::try_from(accounts, program_id) {
            Ok(a) => a,
            Err(e) => { return Err(e); },
        };
        let maker_ata_a = match init_associated_account_if_needed(
            &a.maker_ata_a,
            &a.maker.address,
            &a.mint_a.address,
            &a.token_program.address,
        ) {
            Ok(x) => x,
            Err(e) => { return Err(ProgramError::Custom(e.code())); },
        };
        Ok(
            Refund {
                accounts: RefundAccounts {
                    maker: a.maker,
                    maker_ata_a,
                    mint_a: a.mint_a,
                    escrow_pda: a.escrow_pda,
                    vault_pda: a.vault_pda,
                    token_program: a.token_program,
                    system_program: a.system_program,
                },
                program_id: *program_id,
            },
        )
    }

    /// The record that the escrow account holds; meaningful only where it
    /// holds one.
    pub open spec fn record(self) -> Escrow {
        self.accounts.escrow_pda.data->Record_0
    }

    /// The record account's address is the one derived from the record's
    /// maker, nonce and bump, and the maker's slot holds that maker.
    pub open spec fn derivation_holds(self) -> bool {
        &&& self.accounts.maker.address@ == self.record().maker@
        &&& escrow_address(
            self.record().maker@,
            self.record().seed,
            self.record().bump,
            self.program_id@,
        ) == Some(self.accounts.escrow_pda.address@)
    }

    /// Why settlement is refused, if it is. The conditions are tested in this
    /// order; `None` means that settlement is owed. Only the maker that the
    /// record names, as a signer, can have a deposit refunded.
    pub open spec fn fault(self) -> Option<ProgramError> {
        let a = self.accounts;
        let escrow = a.escrow_pda.address@;
        if !a.maker.is_signer {
            Some(PinocchioError::NotSigner.spec_program_error())
        } else if !(a.escrow_pda.data is Record) {
            Some(PinocchioError::InvalidAccountData.spec_program_error())
        } else if !self.derivation_holds() {
            Some(PinocchioError::InvalidAddress.spec_program_error())
        } else if transfer_fault(a.vault_pda, a.maker_ata_a, escrow, a.vault_pda.balance()) is Some {
            transfer_fault(a.vault_pda, a.maker_ata_a, escrow, a.vault_pda.balance())
        } else if a.maker.lamports + a.vault_pda.lamports + a.escrow_pda.lamports > u64::MAX {
            Some(ProgramError::ArithmeticOverflow)
        } else {
            None
        }
    }

    /// Returns the deposit as one indivisible unit: either every effect
    /// lands, or the accounts stay as they were and the fault says why.
    pub fn process(&mut self) -> (r: Result<(), ProgramError>)
        ensures
            final(self).program_id == old(self).program_id,
            match old(self).fault() {
                Some(e) => r == Err::<(), ProgramError>(e) && *final(self) == *old(self),
                None => r is Ok && final(self).accounts == old(self).accounts.settled(),
            },
    {
        let a = self.accounts;
        if let Err(e) = check_signer(&a.maker) {
            return Err(ProgramError::Custom(e.code()));
        }
        let escrow = match Escrow::load(&a.escrow_pda) {
            Ok(e) => e,
            Err(e) => { return Err(ProgramError::Custom(e.code())); },
        };
        if !a.maker.address.same(&escrow.maker) {
            return Err(ProgramError::Custom(PinocchioError::InvalidAddress.code()));
        }
        let authority = match Authority::delegated(
            &escrow.maker,
            escrow.seed,
            escrow.bump,
            &self.program_id,
        ) {
            Some(x) => x,
            None => { return Err(ProgramError::Custom(PinocchioError::InvalidAddress.code())); },
        };
        if !authority.speaks_for(&a.escrow_pda.address) {
            return Err(ProgramError::Custom(PinocchioError::InvalidAddress.code()));
        }
        let amount = match a.vault_pda.data {
            AccountData::Token(t) => t.amount,
            _ => 0,
        };
        let (vault, maker_ata_a) = match transfer(&a.vault_pda, &a.maker_ata_a, &authority, amount) {
            Ok(pair) => pair,
            Err(e) => { return Err(e); },
        };
        let (vault, maker) = match close_account(&vault, &a.maker, &authority) {
            Ok(pair) => pair,
            Err(e) => { return Err(e); },
        };
        let (escrow_pda, maker) = match reclaim(&a.escrow_pda, &maker) {
            Ok(pair) => pair,
            Err(e) => { return Err(e); },
        };
        self.accounts = RefundAccounts {
            maker,
            maker_ata_a,
            mint_a: a.mint_a,
            escrow_pda,
            vault_pda: vault,
            token_program: a.token_program,
            system_program: a.system_program,
        };
        Ok(())
    }
    /// The operations of a settled Refund, in the order in which they run:
    /// the vault is drained and closed under the escrow's delegated
    /// authority, then the record is closed.
    pub open spec fn spec_steps(self) -> Seq<Step> {
        let a = self.accounts;
        let e = self.record();
        let signing = Signing::Delegated { maker: e.maker, seed: e.seed, bump: e.bump };
        seq![
            Step::Transfer {
                from: a.vault_pda.address,
                to: a.maker_ata_a.address,
                authority: a.escrow_pda.address,
                amount: a.vault_pda.balance(),
                signing,
            },
            Step::CloseAccount {
                account: a.vault_pda.address,
                destination: a.maker.address,
                authority: a.escrow_pda.address,
                signing,
            },
            Step::CloseRecord { account: a.escrow_pda.address, destination: a.maker.address },
        ]
    }

    /// The operations that `process` performs, for a runtime that carries
    /// them out on the ledger; the fault where settlement is refused.
    pub fn steps(&self) -> (r: Result<Vec<Step>, ProgramError>)
        ensures
            match self.fault() {
                Some(e) => r == Err::<Vec<Step>, ProgramError>(e),
                None => r is Ok && r->Ok_0@ == self.spec_steps(),
            },
    {
        let mut probe = *self;
        if let Err(e) = probe.process() {
            return Err(e);
        }
        let a = self.accounts;
        let (e, amount) = match (a.escrow_pda.data, a.vault_pda.data) {
            (AccountData::Record(e), AccountData::Token(t)) => (e, t.amount),
            _ => { return Err(ProgramError::InvalidArgument); },
        };
        let signing = Signing::Delegated { maker: e.maker, seed: e.seed, bump: e.bump };
        let mut steps: Vec<Step> = Vec::new();
        steps.push(
            Step::Transfer {
                from: a.vault_pda.address,
                to: a.maker_ata_a.address,
                authority: a.escrow_pda.address,
                amount,
                signing,
            },
        );
        steps.push(
            Step::CloseAccount {
                account: a.vault_pda.address,
                destination: a.maker.address,
                authority: a.escrow_pda.address,
                signing,
            },
        );
        steps.push(Step::CloseRecord { account: a.escrow_pda.address, destination: a.maker.address });
        assert(steps@ =~= self.spec_steps());
        Ok(steps)
    }
}

} // verus!
