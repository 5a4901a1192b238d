//! Addresses and deterministic address derivation.
use vstd::prelude::*;
use vstd::bytes::{spec_u64_to_le_bytes, u64_to_le_bytes};

verus! {

/// A 32-byte ledger address.
#[derive(Clone, Copy, Debug, PartialEq, Eq)]
pub struct Address {
    pub bytes: [u8; 32],
}

impl View for Address {
    type V = Seq<u8>;

    open spec fn view(&self) -> Seq<u8> {
        self.bytes@
    }
}

impl Address {
    /// Byte-wise comparison of two addresses.
    pub fn same(&self, other: &Address) -> (r: bool)
        ensures
            r == (self@ == other@),
    {
        let mut i: usize = 0;
        while i < 32
            invariant
                i <= 32,
                forall|j: int| 0 <= j < i ==> self.bytes@[j] == other.bytes@[j],
            decreases 32 - i,
        {
            if self.bytes[i] != other.bytes[i] {
                return false;
            }
            i += 1;
        }
        assert(self@ =~= other@);
        true
    }

    /// Reads the 32 bytes that start at `at`.
    pub fn from_slice(bytes: &[u8], at: usize) -> (a: Address)
        requires
            at + 32 <= bytes@.len(),
        ensures
            a@ == bytes@.subrange(at as int, at + 32),
    {
        let mut out = [0u8; 32];
        let len = bytes.len();
        let mut i: usize = 0;
        while i < 32
            invariant
                i <= 32,
                at + 32 <= len,
                len == bytes@.len(),
                forall|j: int| 0 <= j < i ==> out@[j] == bytes@[at + j],
            decreases 32 - i,
        {
            out[i] = bytes[at + i];
            i += 1;
        }
        assert(out@ =~= bytes@.subrange(at as int, at + 32));
        Address { bytes: out }
    }

    /// The address as a growable byte string.
    pub fn to_vec(&self) -> (v: Vec<u8>)
        ensures
            v@ == self@,
    {
        let mut v: Vec<u8> = Vec::new();
        let mut i: usize = 0;
        while i < 32
            invariant
                i <= 32,
                v@.len() == i,
                forall|j: int| 0 <= j < i ==> v@[j] == self.bytes@[j],
            decreases 32 - i,
        {
            v.push(self.bytes[i]);
            i += 1;
        }
        assert(v@ =~= self@);
        v
    }
}

/// The address that the ledger's derivation assigns to a seed tuple under a
/// program identity, or `None` where the tuple has no derived address.
pub uninterp spec fn program_address(seeds: Seq<Seq<u8>>, program_id: Seq<u8>) -> Option<Seq<u8>>;

/// View of an optional address.
pub open spec fn address_option_view(a: Option<Address>) -> Option<Seq<u8>> {
    match a {
        Some(x) => Some(x@),
        None => None,
    }
}

/// View of a seed list.
pub open spec fn seeds_view(seeds: Seq<Vec<u8>>) -> Seq<Seq<u8>> {
    Seq::new(seeds.len(), |i: int| seeds[i]@)
}

/// Calls `pinocchio::Address::create_program_address`. The result is a
/// function of the seeds and the program identity alone; it is `None` where
/// the outside function reports an error (too many seeds, a seed that is too
/// long, or a tuple that hashes onto the curve).
#[verifier::external_body]
fn create_program_address(seeds: &Vec<Vec<u8>>, program_id: &Address) -> (r: Option<Address>)
    ensures
        address_option_view(r) == program_address(seeds_view(seeds@), program_id@),
{
    let parts: Vec<&[u8]> = seeds.iter().map(|s| s.as_slice()).collect();
    let id = pinocchio::Address::new_from_array(program_id.bytes);
    match pinocchio::Address::create_program_address(&parts, &id) {
        Ok(a) => Some(Address { bytes: a.to_bytes() }),
        Err(_) => None,
    }
}

/// The tag that starts every escrow seed tuple: the ASCII bytes of `escrow`.
pub open spec fn escrow_tag() -> Seq<u8> {
    seq![101u8, 115u8, 99u8, 114u8, 111u8, 119u8]
}

/// The seed tuple of an escrow record: the tag, the maker's address, the
/// maker-chosen nonce in little-endian order, and the bump byte.
pub open spec fn escrow_seeds(maker: Seq<u8>, seed: u64, bump: u8) -> Seq<Seq<u8>> {
    seq![escrow_tag(), maker, spec_u64_to_le_bytes(seed), seq![bump]]
}

/// The derived address of the escrow record of `(maker, seed, bump)`.
pub open spec fn escrow_address(maker: Seq<u8>, seed: u64, bump: u8, program_id: Seq<u8>) -> Option<
    Seq<u8>,
> {
    program_address(escrow_seeds(maker, seed, bump), program_id)
}

/// Derives the address of the escrow record of `(maker, seed, bump)` under
/// `program_id`.
pub fn derive(maker: &Address, seed: u64, bump: u8, program_id: &Address) -> (r: Option<Address>)
    ensures
        address_option_view(r) == escrow_address(maker@, seed, bump, program_id@),
{
    let mut seeds: Vec<Vec<u8>> = Vec::new();
    seeds.push(vec![101u8, 115u8, 99u8, 114u8, 111u8, 119u8]);
    seeds.push(maker.to_vec());
    seeds.push(u64_to_le_bytes(seed));
    seeds.push(vec![bump]);
    assert(seeds_view(seeds@) =~= escrow_seeds(maker@, seed, bump)) by {
        assert(seeds@[0]@ =~= escrow_tag());
        assert(seeds@[3]@ =~= seq![bump]);
    }
    create_program_address(&seeds, program_id)
}

/// The address and bump that the ledger's search finds for a seed tuple under
/// a program identity, or `None` where it finds none.
pub uninterp spec fn found_program_address(seeds: Seq<Seq<u8>>, program_id: Seq<u8>) -> Option<
    (Seq<u8>, u8),
>;

/// View of an optional address with its bump.
pub open spec fn found_view(f: Option<(Address, u8)>) -> Option<(Seq<u8>, u8)> {
    match f {
        Some(p) => Some((p.0@, p.1)),
        None => None,
    }
}

/// Calls `pinocchio::Address::try_find_program_address`. The result is a
/// function of the seeds and the program identity alone; it is `None` where
/// the outside function finds no bump that gives the tuple a derived address.
#[verifier::external_body]
fn try_find_program_address(seeds: &Vec<Vec<u8>>, program_id: &Address) -> (r: Option<(Address, u8)>)
    ensures
        found_view(r) == found_program_address(seeds_view(seeds@), program_id@),
{
    let parts: Vec<&[u8]> = seeds.iter().map(|s| s.as_slice()).collect();
    let id = pinocchio::Address::new_from_array(program_id.bytes);
    match pinocchio::Address::try_find_program_address(&parts, &id) {
        Some((a, bump)) => Some((Address { bytes: a.to_bytes() }, bump)),
        None => None,
    }
}

/// The program under which associated token accounts are derived.
pub open spec fn spec_associated_token_program() -> Address {
    Address {
        bytes: [
            140u8, 151u8, 37u8, 143u8, 78u8, 36u8, 137u8, 241u8, 187u8, 61u8, 16u8, 41u8, 20u8,
            142u8, 13u8, 131u8, 11u8, 90u8, 19u8, 153u8, 218u8, 255u8, 16u8, 132u8, 4u8, 142u8,
            123u8, 216u8, 219u8, 233u8, 248u8, 89u8,
        ],
    }
}

/// The program under which associated token accounts are derived.
pub fn associated_token_program() -> (a: Address)
    ensures
        a == spec_associated_token_program(),
{
    Address {
        bytes: [
            140u8, 151u8, 37u8, 143u8, 78u8, 36u8, 137u8, 241u8, 187u8, 61u8, 16u8, 41u8, 20u8,
            142u8, 13u8, 131u8, 11u8, 90u8, 19u8, 153u8, 218u8, 255u8, 16u8, 132u8, 4u8, 142u8,
            123u8, 216u8, 219u8, 233u8, 248u8, 89u8,
        ],
    }
}

/// The address of the token account of `owner` for `mint` under
/// `token_program`: the one found for the tuple of owner, token program and
/// mint.
pub open spec fn associated_address(owner: Seq<u8>, token_program: Seq<u8>, mint: Seq<u8>) -> Option<
    Seq<u8>,
> {
    match found_program_address(
        seq![owner, token_program, mint],
        spec_associated_token_program()@,
    ) {
        Some(p) => Some(p.0),
        None => None,
    }
}

/// Derives the address of the token account of `owner` for `mint`.
pub fn derive_associated(owner: &Address, token_program: &Address, mint: &Address) -> (r: Option<
    Address,
>)
    ensures
        address_option_view(r) == associated_address(owner@, token_program@, mint@),
{
    let mut seeds: Vec<Vec<u8>> = Vec::new();
    seeds.push(owner.to_vec());
    seeds.push(token_program.to_vec());
    seeds.push(mint.to_vec());
    assert(seeds_view(seeds@) =~= seq![owner@, token_program@, mint@]);
    match try_find_program_address(&seeds, &associated_token_program()) {
        Some(found) => Some(found.0),
        None => None,
    }
}

/// Compares a claimed address with a derived one.
pub fn verify(claimed: &Address, derived: &Address) -> (r: Result<(), crate::errors::PinocchioError>)
    ensures
        r == if claimed@ == derived@ {
            Ok::<(), crate::errors::PinocchioError>(())
        } else {
            Err::<(), crate::errors::PinocchioError>(crate::errors::PinocchioError::InvalidAddress)
        },
{
    if claimed.same(derived) {
        Ok(())
    } else {
        Err(crate::errors::PinocchioError::InvalidAddress)
    }
}

} // verus!
