//! Plain-value model of the accounts that settlement reads and changes.
use vstd::prelude::*;
use crate::address::Address;
use crate::errors::PinocchioError;
use vstd::bytes::{spec_u64_from_le_bytes, u64_from_le_bytes};
use vstd::slice::slice_subrange;

verus! {

/// The persisted escrow record. It is never changed in place.
#[derive(Clone, Copy, Debug, PartialEq, Eq)]
pub struct Escrow {
    /// Maker-chosen nonce that tells the maker's escrows apart.
    pub seed: u64,
    pub maker: Address,
    /// The deposited asset.
    pub mint_a: Address,
    /// The requested asset.
    pub mint_b: Address,
    /// Amount of the requested asset that the maker demands.
    pub receive: u64,
    /// Derivation nonce of the record's address.
    pub bump: u8,
}

/// The decoded contents of a token account.
#[derive(Clone, Copy, Debug, PartialEq, Eq)]
pub struct TokenAccount {
    pub mint: Address,
    /// The identity that may move the balance.
    pub owner: Address,
    pub amount: u64,
}

/// What an account's storage decodes to.
#[derive(Clone, Copy, Debug, PartialEq, Eq)]
pub enum AccountData {
    /// No storage: never created, or closed.
    Empty,
    /// A token mint.
    Mint,
    Token(TokenAccount),
    Record(Escrow),
    /// Bytes that decode as none of the above.
    Other,
}

/// One slot of an instruction's account list.
#[derive(Clone, Copy, Debug, PartialEq, Eq)]
pub struct Account {
    pub address: Address,
    /// The program that owns the account's storage.
    pub owner: Address,
    pub is_signer: bool,
    /// The storage allocation's balance, returned to a beneficiary on closure.
    pub lamports: u64,
    pub data: AccountData,
}

/// The owner of accounts without storage.
pub open spec fn spec_system_address() -> Address {
    Address {
        bytes: [
            0u8, 0u8, 0u8, 0u8, 0u8, 0u8, 0u8, 0u8, 0u8, 0u8, 0u8, 0u8, 0u8, 0u8, 0u8, 0u8,
            0u8, 0u8, 0u8, 0u8, 0u8, 0u8, 0u8, 0u8, 0u8, 0u8, 0u8, 0u8, 0u8, 0u8, 0u8, 0u8,
        ],
    }
}

/// The owner of accounts without storage.
pub fn system_address() -> (a: Address)
    ensures
        a == spec_system_address(),
{
    Address {
        bytes: [
            0u8, 0u8, 0u8, 0u8, 0u8, 0u8, 0u8, 0u8, 0u8, 0u8, 0u8, 0u8, 0u8, 0u8, 0u8, 0u8,
            0u8, 0u8, 0u8, 0u8, 0u8, 0u8, 0u8, 0u8, 0u8, 0u8, 0u8, 0u8, 0u8, 0u8, 0u8, 0u8,
        ],
    }
}

impl Account {
    /// The account holds a token balance.
    pub open spec fn is_token(&self) -> bool {
        self.data is Token
    }

    /// The token contents; meaningful only where `is_token` holds.
    pub open spec fn token(&self) -> TokenAccount {
        self.data->Token_0
    }

    /// The token balance, 0 where the account holds none.
    pub open spec fn balance(&self) -> u64 {
        if self.is_token() {
            self.token().amount
        } else {
            0
        }
    }

    /// The account has ceased to exist.
    pub open spec fn is_closed(&self) -> bool {
        self.data is Empty && self.lamports == 0
    }

    /// The account after its storage was reclaimed.
    pub open spec fn closed(self) -> Account {
        Account { owner: spec_system_address(), lamports: 0, data: AccountData::Empty, ..self }
    }

    /// The account with `amount` more storage balance.
    pub open spec fn credited(self, amount: u64) -> Account {
        Account { lamports: (self.lamports + amount) as u64, ..self }
    }

    /// The token account with its balance replaced.
    pub open spec fn with_amount(self, amount: u64) -> Account {
        Account {
            data: AccountData::Token(TokenAccount { amount, ..self.token() }),
            ..self
        }
    }
}

/// Length of the persisted record: the nonce, the maker, the two mints, the
/// demanded amount and the bump, in this order.
pub const RECORD_LEN: usize = 113;

impl Escrow {
    /// Decodes the persisted record. Integers are little-endian.
    pub fn from_bytes(bytes: &[u8]) -> (r: Result<Escrow, PinocchioError>)
        ensures
            r is Ok <==> bytes@.len() == RECORD_LEN,
            r is Err ==> r == Err::<Escrow, PinocchioError>(PinocchioError::InvalidAccountData),
            r is Ok ==> ({
                let e = r->Ok_0;
                &&& e.seed == spec_u64_from_le_bytes(bytes@.subrange(0, 8))
                &&& e.maker@ == bytes@.subrange(8, 40)
                &&& e.mint_a@ == bytes@.subrange(40, 72)
                &&& e.mint_b@ == bytes@.subrange(72, 104)
                &&& e.receive == spec_u64_from_le_bytes(bytes@.subrange(104, 112))
                &&& e.bump == bytes@[112]
            }),
    {
        if bytes.len() != RECORD_LEN {
            return Err(PinocchioError::InvalidAccountData);
        }
        Ok(
            Escrow {
                seed: u64_from_le_bytes(slice_subrange(bytes, 0, 8)),
                maker: Address::from_slice(bytes, 8),
                mint_a: Address::from_slice(bytes, 40),
                mint_b: Address::from_slice(bytes, 72),
                receive: u64_from_le_bytes(slice_subrange(bytes, 104, 112)),
                bump: bytes[112],
            },
        )
    }

    /// Reads the escrow record that an account holds.
    pub fn load(account: &Account) -> (r: Result<Escrow, PinocchioError>)
        ensures
            r == match account.data {
                AccountData::Record(e) => Ok::<Escrow, PinocchioError>(e),
                _ => Err::<Escrow, PinocchioError>(PinocchioError::InvalidAccountData),
            },
    {
        match account.data {
            AccountData::Record(e) => Ok(e),
            _ => Err(PinocchioError::InvalidAccountData),
        }
    }
}

} // verus!
