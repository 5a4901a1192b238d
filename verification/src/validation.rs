//! The account checks that the processors run before settlement.
use vstd::prelude::*;
use crate::address::{associated_address, derive_associated, verify, Address};
use crate::errors::PinocchioError;
use crate::state::{Account, AccountData, TokenAccount};

verus! {

/// The account holds a token balance of `owner` in `mint`.
pub open spec fn holds_token_of(candidate: Account, owner: Address, mint: Address) -> bool {
    &&& candidate.is_token()
    &&& candidate.token().owner@ == owner@
    &&& candidate.token().mint@ == mint@
}

/// The account sits at the address derived for `(owner, mint)`.
pub open spec fn at_associated_address(
    candidate: Account,
    owner: Address,
    mint: Address,
    token_program: Address,
) -> bool {
    associated_address(owner@, token_program@, mint@) == Some(candidate.address@)
}

/// The account is the associated token account of `owner` for `mint`.
pub open spec fn is_associated(
    candidate: Account,
    owner: Address,
    mint: Address,
    token_program: Address,
) -> bool {
    holds_token_of(candidate, owner, mint) && at_associated_address(
        candidate,
        owner,
        mint,
        token_program,
    )
}

/// Why the candidate is refused as the associated token account of `owner`
/// for `mint`, if it is.
pub open spec fn associated_fault(
    candidate: Account,
    owner: Address,
    mint: Address,
    token_program: Address,
) -> Option<PinocchioError> {
    if !holds_token_of(candidate, owner, mint) {
        Some(PinocchioError::InvalidAccountData)
    } else if !at_associated_address(candidate, owner, mint, token_program) {
        Some(PinocchioError::InvalidAddress)
    } else {
        None
    }
}

/// Why "create if missing" refuses the candidate, if it does.
pub open spec fn initialize_fault(
    candidate: Account,
    owner: Address,
    mint: Address,
    token_program: Address,
) -> Option<PinocchioError> {
    if !(candidate.data is Empty) {
        associated_fault(candidate, owner, mint, token_program)
    } else if !at_associated_address(candidate, owner, mint, token_program) {
        Some(PinocchioError::InvalidAddress)
    } else {
        None
    }
}

/// The candidate once the token account of `owner` for `mint` was created in
/// it, with no balance.
pub open spec fn created(candidate: Account, owner: Address, mint: Address) -> Account {
    Account { data: AccountData::Token(TokenAccount { mint, owner, amount: 0 }), ..candidate }
}

/// A lazily created token account after the "create if missing" step: an
/// account that exists stays as it is.
pub open spec fn initialized(candidate: Account, owner: Address, mint: Address) -> Account {
    if candidate.data is Empty {
        created(candidate, owner, mint)
    } else {
        candidate
    }
}

/// The account signed the transaction.
pub fn check_signer(account: &Account) -> (r: Result<(), PinocchioError>)
    ensures
        r == if account.is_signer {
            Ok::<(), PinocchioError>(())
        } else {
            Err::<(), PinocchioError>(PinocchioError::NotSigner)
        },
{
    if account.is_signer {
        Ok(())
    } else {
        Err(PinocchioError::NotSigner)
    }
}

/// The account's storage is owned by this program.
pub fn check_program_owned(account: &Account, program_id: &Address) -> (r: Result<
    (),
    PinocchioError,
>)
    ensures
        r == if account.owner@ == program_id@ {
            Ok::<(), PinocchioError>(())
        } else {
            Err::<(), PinocchioError>(PinocchioError::InvalidOwner)
        },
{
    if account.owner.same(program_id) {
        Ok(())
    } else {
        Err(PinocchioError::InvalidOwner)
    }
}

/// The account is a token mint.
pub fn check_mint_interface(account: &Account) -> (r: Result<(), PinocchioError>)
    ensures
        r == if account.data is Mint {
            Ok::<(), PinocchioError>(())
        } else {
            Err::<(), PinocchioError>(PinocchioError::InvalidAccountData)
        },
{
    match account.data {
        AccountData::Mint => Ok(()),
        _ => Err(PinocchioError::InvalidAccountData),
    }
}

/// The candidate is the associated token account of `owner` for `mint`: it
/// holds a balance of that owner in that mint, at the derived address.
pub fn check_associated_account(
    candidate: &Account,
    owner: &Address,
    mint: &Address,
    token_program: &Address,
) -> (r: Result<(), PinocchioError>)
    ensures
        r == match associated_fault(*candidate, *owner, *mint, *token_program) {
            Some(e) => Err::<(), PinocchioError>(e),
            None => Ok::<(), PinocchioError>(()),
        },
{
    let held = match candidate.data {
        AccountData::Token(t) => t,
        _ => { return Err(PinocchioError::InvalidAccountData); },
    };
    if !held.owner.same(owner) || !held.mint.same(mint) {
        return Err(PinocchioError::InvalidAccountData);
    }
    check_associated_address(candidate, owner, mint, token_program)
}

/// The candidate sits at the address derived for `(owner, mint)`.
pub fn check_associated_address(
    candidate: &Account,
    owner: &Address,
    mint: &Address,
    token_program: &Address,
) -> (r: Result<(), PinocchioError>)
    ensures
        r == if at_associated_address(*candidate, *owner, *mint, *token_program) {
            Ok::<(), PinocchioError>(())
        } else {
            Err::<(), PinocchioError>(PinocchioError::InvalidAddress)
        },
{
    match derive_associated(owner, token_program, mint) {
        Some(derived) => verify(&candidate.address, &derived),
        None => Err(PinocchioError::InvalidAddress),
    }
}

/// Creates the associated token account of `owner` for `mint` where the
/// candidate has no storage yet. An account that exists is checked and handed
/// back as it is.
pub fn init_associated_account_if_needed(
    candidate: &Account,
    owner: &Address,
    mint: &Address,
    token_program: &Address,
) -> (r: Result<Account, PinocchioError>)
    ensures
        r == match initialize_fault(*candidate, *owner, *mint, *token_program) {
            Some(e) => Err::<Account, PinocchioError>(e),
            None => Ok::<Account, PinocchioError>(initialized(*candidate, *owner, *mint)),
        },
{
    match candidate.data {
        AccountData::Empty => match check_associated_address(candidate, owner, mint, token_program) {
            Ok(()) => Ok(
                Account {
                    address: candidate.address,
                    owner: candidate.owner,
                    is_signer: candidate.is_signer,
                    lamports: candidate.lamports,
                    data: AccountData::Token(TokenAccount { mint: *mint, owner: *owner, amount: 0 }),
                },
            ),
            Err(e) => Err(e),
        },
        _ => match check_associated_account(candidate, owner, mint, token_program) {
            Ok(()) => Ok(*candidate),
            Err(e) => Err(e),
        },
    }
}

} // verus!
