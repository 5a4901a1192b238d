//! Token vault operations: transfer and closure, and the authority that each
//! of them demands.
use vstd::prelude::*;
use crate::address::{escrow_address, Address};
use crate::errors::{PinocchioError, ProgramError};
use crate::state::{system_address, Account, AccountData, TokenAccount};

verus! {

/// Proof of authorization to act for one identity. It is made only from a
/// transaction signer or by re-running the escrow derivation, and is consumed
/// by the transfer and close operations.
pub struct Authority {
    address: Address,
}

impl Authority {
    /// The identity on whose behalf the holder may act.
    pub closed spec fn identity(&self) -> Seq<u8> {
        self.address@
    }

    /// The authority of the escrow identity derived from `(maker, seed, bump)`
    /// under `program_id`; `None` where the tuple has no derived address.
    pub fn delegated(maker: &Address, seed: u64, bump: u8, program_id: &Address) -> (r: Option<
        Authority,
    >)
        ensures
            match r {
                Some(a) => Some(a.identity()) == escrow_address(maker@, seed, bump, program_id@),
                None => escrow_address(maker@, seed, bump, program_id@) is None,
            },
    {
        match crate::address::derive(maker, seed, bump, program_id) {
            Some(address) => Some(Authority { address }),
            None => None,
        }
    }

    /// The authority of an account that signed the transaction.
    pub fn signed_by(account: &Account) -> (r: Option<Authority>)
        ensures
            r is Some <==> account.is_signer,
            r is Some ==> r->Some_0.identity() == account.address@,
    {
        if account.is_signer {
            Some(Authority { address: account.address })
        } else {
            None
        }
    }

    /// Whether the authority speaks for `who`.
    pub fn speaks_for(&self, who: &Address) -> (r: bool)
        ensures
            r == (self.identity() == who@),
    {
        self.address.same(who)
    }
}

/// How an operation is authorized.
#[derive(Clone, Copy, Debug, PartialEq, Eq)]
pub enum Signing {
    /// By the authority's own signature on the transaction.
    Direct,
    /// By the escrow identity, re-derived from the record's maker, nonce and
    /// bump.
    Delegated { maker: Address, seed: u64, bump: u8 },
}

/// One operation of a settlement, by the addresses of the accounts it
/// touches.
#[derive(Clone, Copy, Debug, PartialEq, Eq)]
pub enum Step {
    /// Move `amount` units between two token accounts.
    Transfer { from: Address, to: Address, authority: Address, amount: u64, signing: Signing },
    /// Close a token account and return its storage to `destination`.
    CloseAccount { account: Address, destination: Address, authority: Address, signing: Signing },
    /// Close the escrow record and return its storage to `destination`.
    CloseRecord { account: Address, destination: Address },
}

/// Why a transfer of `amount` from `from` to `to` under `authority` is
/// refused, if it is. The conditions are tested in this order.
pub open spec fn transfer_fault(from: Account, to: Account, authority: Seq<u8>, amount: u64) -> Option<
    ProgramError,
> {
    if !from.is_token() || !to.is_token() || from.token().mint@ != to.token().mint@ {
        Some(PinocchioError::InvalidAccountData.spec_program_error())
    } else if from.token().owner@ != authority {
        Some(PinocchioError::InvalidOwner.spec_program_error())
    } else if from.token().amount < amount {
        Some(ProgramError::InsufficientFunds)
    } else if to.token().amount + amount > u64::MAX {
        Some(ProgramError::ArithmeticOverflow)
    } else {
        None
    }
}

/// Moves `amount` units from one token account to another of the same mint.
/// Returns the two accounts as they stand afterwards, source first.
pub fn transfer(from: &Account, to: &Account, authority: &Authority, amount: u64) -> (r: Result<
    (Account, Account),
    ProgramError,
>)
    ensures
        r == match transfer_fault(*from, *to, authority.identity(), amount) {
            Some(e) => Err::<(Account, Account), ProgramError>(e),
            None => Ok::<(Account, Account), ProgramError>(
                (
                    from.with_amount((from.token().amount - amount) as u64),
                    to.with_amount((to.token().amount + amount) as u64),
                ),
            ),
        },
{
    let (source, target) = match (from.data, to.data) {
        (AccountData::Token(s), AccountData::Token(t)) => (s, t),
        _ => { return Err(ProgramError::Custom(PinocchioError::InvalidAccountData.code())); },
    };
    if !source.mint.same(&target.mint) {
        return Err(ProgramError::Custom(PinocchioError::InvalidAccountData.code()));
    }
    if !authority.speaks_for(&source.owner) {
        return Err(ProgramError::Custom(PinocchioError::InvalidOwner.code()));
    }
    if source.amount < amount {
        return Err(ProgramError::InsufficientFunds);
    }
    if target.amount > u64::MAX - amount {
        return Err(ProgramError::ArithmeticOverflow);
    }
    let from_after = Account {
        address: from.address,
        owner: from.owner,
        is_signer: from.is_signer,
        lamports: from.lamports,
        data: AccountData::Token(
            TokenAccount { mint: source.mint, owner: source.owner, amount: source.amount - amount },
        ),
    };
    let to_after = Account {
        address: to.address,
        owner: to.owner,
        is_signer: to.is_signer,
        lamports: to.lamports,
        data: AccountData::Token(
            TokenAccount { mint: target.mint, owner: target.owner, amount: target.amount + amount },
        ),
    };
    Ok((from_after, to_after))
}

/// Why closing the token account `account` under `authority` in favour of
/// `destination` is refused, if it is.
pub open spec fn close_account_fault(account: Account, destination: Account, authority: Seq<u8>) -> Option<
    ProgramError,
> {
    if !account.is_token() {
        Some(PinocchioError::InvalidAccountData.spec_program_error())
    } else if account.token().owner@ != authority {
        Some(PinocchioError::InvalidOwner.spec_program_error())
    } else if account.token().amount != 0 {
        Some(ProgramError::InvalidArgument)
    } else if destination.lamports + account.lamports > u64::MAX {
        Some(ProgramError::ArithmeticOverflow)
    } else {
        None
    }
}

/// Closes an emptied token account and returns its storage allocation to
/// `destination`. Returns the two accounts as they stand afterwards, the
/// closed one first.
pub fn close_account(account: &Account, destination: &Account, authority: &Authority) -> (r: Result<
    (Account, Account),
    ProgramError,
>)
    ensures
        r == match close_account_fault(*account, *destination, authority.identity()) {
            Some(e) => Err::<(Account, Account), ProgramError>(e),
            None => Ok::<(Account, Account), ProgramError>(
                (account.closed(), destination.credited(account.lamports)),
            ),
        },
{
    let held = match account.data {
        AccountData::Token(t) => t,
        _ => { return Err(ProgramError::Custom(PinocchioError::InvalidAccountData.code())); },
    };
    if !authority.speaks_for(&held.owner) {
        return Err(ProgramError::Custom(PinocchioError::InvalidOwner.code()));
    }
    if held.amount != 0 {
        return Err(ProgramError::InvalidArgument);
    }
    reclaim(account, destination)
}

/// Returns an account's storage allocation to `destination` and leaves the
/// account without storage, owned by the system. Returns the two accounts as
/// they stand afterwards, the closed one first.
pub fn reclaim(account: &Account, destination: &Account) -> (r: Result<
    (Account, Account),
    ProgramError,
>)
    ensures
        r == if destination.lamports + account.lamports > u64::MAX {
            Err::<(Account, Account), ProgramError>(ProgramError::ArithmeticOverflow)
        } else {
            Ok::<(Account, Account), ProgramError>(
                (account.closed(), destination.credited(account.lamports)),
            )
        },
{
    if destination.lamports > u64::MAX - account.lamports {
        return Err(ProgramError::ArithmeticOverflow);
    }
    let closed = Account {
        address: account.address,
        owner: system_address(),
        is_signer: account.is_signer,
        lamports: 0,
        data: AccountData::Empty,
    };
    let credited = Account {
        address: destination.address,
        owner: destination.owner,
        is_signer: destination.is_signer,
        lamports: destination.lamports + account.lamports,
        data: destination.data,
    };
    Ok((closed, credited))
}

} // verus!
