//! The Take processor: a taker fulfils the swap.
use vstd::prelude::*;
use crate::address::{escrow_address, Address};
use crate::errors::{PinocchioError, ProgramError};
use crate::state::{Account, AccountData, Escrow};
use crate::token::{
    close_account, reclaim, transfer, transfer_fault, Authority, Signing, Step,
};
use crate::validation::{
    associated_fault, check_associated_account, check_mint_interface, check_program_owned,
    check_signer, init_associated_account_if_needed, initialize_fault, initialized,
};

verus! {

/// The accounts of a Take, by role. Each slot is tracked on its own: a list
/// that names one address in two slots is settled slot by slot.
#[derive(Clone, Copy, Debug, PartialEq, Eq)]
pub struct TakeAccounts {
    pub taker: Account,
    pub maker: Account,
    pub escrow_pda: Account,
    pub mint_a: Account,
    pub mint_b: Account,
    pub vault_pda: Account,
    pub taker_ata_a: Account,
    pub taker_ata_b: Account,
    pub maker_ata_b: Account,
    pub system_program: Account,
    pub token_program: Account,
}

/// A Take that passed validation, under the identity of the program that
/// runs it.
#[derive(Clone, Copy, Debug, PartialEq, Eq)]
pub struct Take {
    pub accounts: TakeAccounts,
    pub program_id: Address,
}

/// Number of slots in a Take's account list; the last one is reserved.
pub const TAKE_SLOTS: usize = 12;

impl TakeAccounts {
    /// The roles of a 12-slot account list, in their fixed order.
    pub open spec fn slots(s: Seq<Account>) -> TakeAccounts {
        TakeAccounts {
            taker: s[0],
            maker: s[1],
            escrow_pda: s[2],
            mint_a: s[3],
            mint_b: s[4],
            vault_pda: s[5],
            taker_ata_a: s[6],
            taker_ata_b: s[7],
            maker_ata_b: s[8],
            system_program: s[9],
            token_program: s[10],
        }
    }

    /// Why the taker's account for the requested asset is refused, if it is.
    pub open spec fn taker_ata_b_fault(self) -> Option<PinocchioError> {
        associated_fault(
            self.taker_ata_b,
            self.taker.address,
            self.mint_b.address,
            self.token_program.address,
        )
    }

    /// Why the vault is refused as the escrow's account for the deposited
    /// asset, if it is.
    pub open spec fn vault_fault(self) -> Option<PinocchioError> {
        associated_fault(
            self.vault_pda,
            self.escrow_pda.address,
            self.mint_a.address,
            self.token_program.address,
        )
    }

    /// Why "create if missing" refuses the taker's account for the deposited
    /// asset, if it does.
    pub open spec fn taker_ata_a_fault(self) -> Option<PinocchioError> {
        initialize_fault(
            self.taker_ata_a,
            self.taker.address,
            self.mint_a.address,
            self.token_program.address,
        )
    }

    /// Why "create if missing" refuses the maker's account for the requested
    /// asset, if it does.
    pub open spec fn maker_ata_b_fault(self) -> Option<PinocchioError> {
        initialize_fault(
            self.maker_ata_b,
            self.maker.address,
            self.mint_b.address,
            self.token_program.address,
        )
    }

    /// Why validation refuses these accounts, if it does. The conditions are
    /// tested in this order.
    pub open spec fn fault(self, program_id: Address) -> Option<ProgramError> {
        if !self.taker.is_signer {
            Some(PinocchioError::NotSigner.spec_program_error())
        } else if self.escrow_pda.owner@ != program_id@ {
            Some(PinocchioError::InvalidOwner.spec_program_error())
        } else if !(self.mint_a.data is Mint) || !(self.mint_b.data is Mint) {
            Some(PinocchioError::InvalidAccountData.spec_program_error())
        } else if self.taker_ata_b_fault() is Some {
            Some(self.taker_ata_b_fault()->Some_0.spec_program_error())
        } else if self.vault_fault() is Some {
            Some(self.vault_fault()->Some_0.spec_program_error())
        } else {
            None
        }
    }

    /// What `try_from` returns for an account list.
    pub open spec fn spec_try_from(s: Seq<Account>, program_id: Address) -> Result<
        TakeAccounts,
        ProgramError,
    > {
        if s.len() != TAKE_SLOTS {
            Err(ProgramError::NotEnoughAccountKeys)
        } else {
            match Self::slots(s).fault(program_id) {
                Some(e) => Err(e),
                None => Ok(Self::slots(s)),
            }
        }
    }

    /// Names the slots of an account list and validates them. A list that is
    /// not of 12 slots is refused before any other check.
    pub fn try_from(accounts: &[Account], program_id: &Address) -> (r: Result<
        TakeAccounts,
        ProgramError,
    >)
        ensures
            r == Self::spec_try_from(accounts@, *program_id),
    {
        if accounts.len() != TAKE_SLOTS {
            return Err(ProgramError::NotEnoughAccountKeys);
        }
        let named = TakeAccounts {
            taker: accounts[0],
            maker: accounts[1],
            escrow_pda: accounts[2],
            mint_a: accounts[3],
            mint_b: accounts[4],
            vault_pda: accounts[5],
            taker_ata_a: accounts[6],
            taker_ata_b: accounts[7],
            maker_ata_b: accounts[8],
            system_program: accounts[9],
            token_program: accounts[10],
        };
        if let Err(e) = check_signer(&named.taker) {
            return Err(ProgramError::Custom(e.code()));
        }
        if let Err(e) = check_program_owned(&named.escrow_pda, program_id) {
            return Err(ProgramError::Custom(e.code()));
        }
        if let Err(e) = check_mint_interface(&named.mint_a) {
            return Err(ProgramError::Custom(e.code()));
        }
        if let Err(e) = check_mint_interface(&named.mint_b) {
            return Err(ProgramError::Custom(e.code()));
        }
        if let Err(e) = check_associated_account(
            &named.taker_ata_b,
            &named.taker.address,
            &named.mint_b.address,
            &named.token_program.address,
        ) {
            return Err(ProgramError::Custom(e.code()));
        }
        if let Err(e) = check_associated_account(
            &named.vault_pda,
            &named.escrow_pda.address,
            &named.mint_a.address,
            &named.token_program.address,
        ) {
            return Err(ProgramError::Custom(e.code()));
        }
        Ok(named)
    }

    /// The accounts after a settled Take of the record `e`: the vault is
    /// drained into the taker's account and closed in favour of the maker,
    /// `e.receive` moves from the taker to the maker, and the record is closed
    /// in favour of the taker.
    pub open spec fn settled(self, e: Escrow) -> TakeAccounts {
        TakeAccounts {
            vault_pda: self.vault_pda.with_amount(0).closed(),
            taker_ata_a: self.taker_ata_a.with_amount(
                (self.taker_ata_a.token().amount + self.vault_pda.token().amount) as u64,
            ),
            maker: self.maker.credited(self.vault_pda.lamports),
            taker_ata_b: self.taker_ata_b.with_amount(
                (self.taker_ata_b.token().amount - e.receive) as u64,
            ),
            maker_ata_b: self.maker_ata_b.with_amount(
                (self.maker_ata_b.token().amount + e.receive) as u64,
            ),
            escrow_pda: self.escrow_pda.closed(),
            taker: self.taker.credited(self.escrow_pda.lamports),
            ..self
        }
    }
}

impl Take {
    /// The instruction selector of Take.
    pub const DISCRIMINATOR: u8 = 1;

    /// What `try_from` returns for an account list.
    pub open spec fn spec_try_from(s: Seq<Account>, program_id: Address) -> Result<
        Take,
        ProgramError,
    > {
        match TakeAccounts::spec_try_from(s, program_id) {
            Err(e) => Err(e),
            Ok(a) => if a.taker_ata_a_fault() is Some {
                Err(a.taker_ata_a_fault()->Some_0.spec_program_error())
            } else if a.maker_ata_b_fault() is Some {
                Err(a.maker_ata_b_fault()->Some_0.spec_program_error())
            } else {
                Ok(
                    Take {
                        accounts: TakeAccounts {
                            taker_ata_a: initialized(
                                a.taker_ata_a,
                                a.taker.address,
                                a.mint_a.address,
                            ),
                            maker_ata_b: initialized(
                                a.maker_ata_b,
                                a.maker.address,
                                a.mint_b.address,
                            ),
                            ..a
                        },
                        program_id,
                    },
                )
            },
        }
    }

    /// Validates an account list, then creates the taker's account for the
    /// deposited asset and the maker's account for the requested asset where
    /// they do not exist yet.
    pub fn try_from(accounts: &[Account], program_id: &Address) -> (r: Result<Take, ProgramError>)
        ensures
            r == Self::spec_try_from(accounts@, *program_id),
    {
        let a = match TakeAccounts::try_from(accounts, program_id) {
            Ok(a) => a,
            Err(e) => { return Err(e); },
        };
        let taker_ata_a = match init_associated_account_if_needed(
            &a.taker_ata_a,
            &a.taker.address,
            &a.mint_a.address,
            &a.token_program.address,
        ) {
            Ok(x) => x,
            Err(e) => { return Err(ProgramError::Custom(e.code())); },
        };
        let maker_ata_b = match init_associated_account_if_needed(
            &a.maker_ata_b,
            &a.maker.address,
            &a.mint_b.address,
            &a.token_program.address,
        ) {
            Ok(x) => x,
            Err(e) => { return Err(ProgramError::Custom(e.code())); },
        };
        Ok(
            Take {
                accounts: TakeAccounts {
                    taker: a.taker,
                    maker: a.maker,
                    escrow_pda: a.escrow_pda,
                    mint_a: a.mint_a,
                    mint_b: a.mint_b,
                    vault_pda: a.vault_pda,
                    taker_ata_a,
                    taker_ata_b: a.taker_ata_b,
                    maker_ata_b,
                    system_program: a.system_program,
                    token_program: a.token_program,
                },
                program_id: *program_id,
            },
        )
    }

    /// The record that the escrow account holds; meaningful only where it
    /// holds one.
    pub open spec fn record(self) -> Escrow {
        self.accounts.escrow_pda.data->Record_0
    }

    /// The record account's address is the one derived from the record's
    /// maker, nonce and bump, and the maker's slot holds that maker.
    pub open spec fn derivation_holds(self) -> bool {
        &&& self.accounts.maker.address@ == self.record().maker@
        &&& escrow_address(
            self.record().maker@,
            self.record().seed,
            self.record().bump,
            self.program_id@,
        ) == Some(self.accounts.escrow_pda.address@)
    }

    /// Why settlement is refused, if it is. The conditions are tested in this
    /// order; `None` means that settlement is owed.
    pub open spec fn fault(self) -> Option<ProgramError> {
        let a = self.accounts;
        let escrow = a.escrow_pda.address@;
        if !a.taker.is_signer {
            Some(PinocchioError::NotSigner.spec_program_error())
        } else if !(a.escrow_pda.data is Record) {
            Some(PinocchioError::InvalidAccountData.spec_program_error())
        } else if !self.derivation_holds() {
            Some(PinocchioError::InvalidAddress.spec_program_error())
        } else if transfer_fault(a.vault_pda, a.taker_ata_a, escrow, a.vault_pda.balance()) is Some {
            transfer_fault(a.vault_pda, a.taker_ata_a, escrow, a.vault_pda.balance())
        } else if a.maker.lamports + a.vault_pda.lamports > u64::MAX {
            Some(ProgramError::ArithmeticOverflow)
        } else if transfer_fault(a.taker_ata_b, a.maker_ata_b, a.taker.address@, self.record().receive)
            is Some {
            transfer_fault(a.taker_ata_b, a.maker_ata_b, a.taker.address@, self.record().receive)
        } else if a.taker.lamports + a.escrow_pda.lamports > u64::MAX {
            Some(ProgramError::ArithmeticOverflow)
        } else {
            None
        }
    }

    /// Settles the swap as one indivisible unit: either every effect lands,
    /// or the accounts stay as they were and the fault says why.
    pub fn process(&mut self) -> (r: Result<(), ProgramError>)
        ensures
            final(self).program_id == old(self).program_id,
            match old(self).fault() {
                Some(e) => r == Err::<(), ProgramError>(e) && *final(self) == *old(self),
                None => r is Ok && final(self).accounts == old(self).accounts.settled(
                    old(self).record(),
                ),
            },
    {
        let a = self.accounts;
        let taker_authority = match Authority::signed_by(&a.taker) {
            Some(x) => x,
            None => { return Err(ProgramError::Custom(PinocchioError::NotSigner.code())); },
        };
        let escrow = match Escrow::load(&a.escrow_pda) {
            Ok(e) => e,
            Err(e) => { return Err(ProgramError::Custom(e.code())); },
        };
        if !a.maker.address.same(&escrow.maker) {
            return Err(ProgramError::Custom(PinocchioError::InvalidAddress.code()));
        }
        let authority = match Authority::delegated(
            &escrow.maker,
            escrow.seed,
            escrow.bump,
            &self.program_id,
        ) {
            Some(x) => x,
            None => { return Err(ProgramError::Custom(PinocchioError::InvalidAddress.code())); },
        };
        if !authority.speaks_for(&a.escrow_pda.address) {
            return Err(ProgramError::Custom(PinocchioError::InvalidAddress.code()));
        }
        let amount = match a.vault_pda.data {
            AccountData::Token(t) => t.amount,
            _ => 0,
        };
        let (vault, taker_ata_a) = match transfer(&a.vault_pda, &a.taker_ata_a, &authority, amount) {
            Ok(pair) => pair,
            Err(e) => { return Err(e); },
        };
        let (vault, maker) = match close_account(&vault, &a.maker, &authority) {
            Ok(pair) => pair,
            Err(e) => { return Err(e); },
        };
        let (taker_ata_b, maker_ata_b) = match transfer(
            &a.taker_ata_b,
            &a.maker_ata_b,
            &taker_authority,
            escrow.receive,
        ) {
            Ok(pair) => pair,
            Err(e) => { return Err(e); },
        };
        let (escrow_pda, taker) = match reclaim(&a.escrow_pda, &a.taker) {
            Ok(pair) => pair,
            Err(e) => { return Err(e); },
        };
        self.accounts = TakeAccounts {
            taker,
            maker,
            escrow_pda,
            mint_a: a.mint_a,
            mint_b: a.mint_b,
            vault_pda: vault,
            taker_ata_a,
            taker_ata_b,
            maker_ata_b,
            system_program: a.system_program,
            token_program: a.token_program,
        };
        Ok(())
    }
    /// The operations of a settled Take, in the order in which they run: the
    /// vault is drained and closed under the escrow's delegated authority,
    /// then the taker pays under its own signature, then the record is closed.
    pub open spec fn spec_steps(self) -> Seq<Step> {
        let a = self.accounts;
        let e = self.record();
        let signing = Signing::Delegated { maker: e.maker, seed: e.seed, bump: e.bump };
        seq![
            Step::Transfer {
                from: a.vault_pda.address,
                to: a.taker_ata_a.address,
                authority: a.escrow_pda.address,
                amount: a.vault_pda.balance(),
                signing,
            },
            Step::CloseAccount {
                account: a.vault_pda.address,
                destination: a.maker.address,
                authority: a.escrow_pda.address,
                signing,
            },
            Step::Transfer {
                from: a.taker_ata_b.address,
                to: a.maker_ata_b.address,
                authority: a.taker.address,
                amount: e.receive,
                signing: Signing::Direct,
            },
            Step::CloseRecord { account: a.escrow_pda.address, destination: a.taker.address },
        ]
    }

    /// The operations that `process` performs, for a runtime that carries
    /// them out on the ledger; the fault where settlement is refused.
    pub fn steps(&self) -> (r: Result<Vec<Step>, ProgramError>)
        ensures
            match self.fault() {
                Some(e) => r == Err::<Vec<Step>, ProgramError>(e),
                None => r is Ok && r->Ok_0@ == self.spec_steps(),
            },
    {
        let mut probe = *self;
        if let Err(e) = probe.process() {
            return Err(e);
        }
        let a = self.accounts;
        let (e, amount) = match (a.escrow_pda.data, a.vault_pda.data) {
            (AccountData::Record(e), AccountData::Token(t)) => (e, t.amount),
            _ => { return Err(ProgramError::InvalidArgument); },
        };
        let signing = Signing::Delegated { maker: e.maker, seed: e.seed, bump: e.bump };
        let mut steps: Vec<Step> = Vec::new();
        steps.push(
            Step::Transfer {
                from: a.vault_pda.address,
                to: a.taker_ata_a.address,
                authority: a.escrow_pda.address,
                amount,
                signing,
            },
        );
        steps.push(
            Step::CloseAccount {
                account: a.vault_pda.address,
                destination: a.maker.address,
                authority: a.escrow_pda.address,
                signing,
            },
        );
        steps.push(
            Step::Transfer {
                from: a.taker_ata_b.address,
                to: a.maker_ata_b.address,
                authority: a.taker.address,
                amount: e.receive,
                signing: Signing::Direct,
            },
        );
        steps.push(Step::CloseRecord { account: a.escrow_pda.address, destination: a.taker.address });
        assert(steps@ =~= self.spec_steps());
        Ok(steps)
    }
}

} // verus!
