//! Comparing, combining and deriving account addresses.

use crate::error::SeedError;
use crate::schema::stake_pool::Key;
use solana_program::pubkey::Pubkey;
use solana_program::pubkey::PubkeyError;
use vstd::prelude::*;

verus! {

/// What `Pubkey::create_program_address` of `solana_program` derives from
/// the single seed `seed` for the program `program_id`: the bytes of the
/// address, or the error of the derivation.
pub uninterp spec fn program_address(seed: Seq<u8>, program_id: Seq<u8>) -> Result<
    Seq<u8>,
    SeedError,
>;

/// `Pubkey::create_program_address` with one seed of 32 bytes. Not proved:
/// the result is the derivation's, address for address and error for error.
#[verifier::external_body]
pub(crate) fn create_program_address(seed: &Key, program_id: &Key) -> (r: Result<Key, SeedError>)
    ensures
        r is Ok ==> program_address(seed@, program_id@) == Ok::<Seq<u8>, SeedError>(r->Ok_0@),
        r is Err ==> program_address(seed@, program_id@) == Err::<Seq<u8>, SeedError>(r->Err_0),
{
    match Pubkey::create_program_address(&[&seed[..]], &Pubkey::new_from_array(*program_id)) {
        Ok(key) => Ok(key.to_bytes()),
        Err(PubkeyError::MaxSeedLengthExceeded) => Err(SeedError::MaxSeedLengthExceeded),
        Err(PubkeyError::InvalidSeeds) => Err(SeedError::InvalidSeeds),
        Err(PubkeyError::IllegalOwner) => Err(SeedError::IllegalOwner),
    }
}

/// Whether `r` is what checking a seed against the expected address gives,
/// where `derived` is what the seed derives: the seed itself where the
/// address is the expected one, `InvalidSeeds` where it is another, and the
/// error of the derivation where there is none.
pub open spec fn seed_checked(
    r: Result<Key, SeedError>,
    seed: Seq<u8>,
    derived: Result<Seq<u8>, SeedError>,
    expected: Seq<u8>,
) -> bool {
    match derived {
        Ok(address) => if address == expected {
            r is Ok && r->Ok_0@ == seed
        } else {
            r == Err::<Key, SeedError>(SeedError::InvalidSeeds)
        },
        Err(error) => r == Err::<Key, SeedError>(error),
    }
}

/// Checks the address that a seed derived against the expected one.
pub fn check_seed(seed: &Key, derived: Result<Key, SeedError>, expected: &Key) -> (r: Result<
    Key,
    SeedError,
>)
    ensures
        seed_checked(
            r,
            seed@,
            match derived {
                Ok(address) => Ok(address@),
                Err(error) => Err(error),
            },
            expected@,
        ),
{
    match derived {
        Ok(address) => {
            if !same_key(&address, expected) {
                return Err(SeedError::InvalidSeeds);
            }
            Ok(*seed)
        },
        Err(error) => Err(error),
    }
}

/// Whether two keys hold the same bytes.
pub fn same_key(a: &Key, b: &Key) -> (r: bool)
    ensures
        r == (a@ == b@),
{
    let mut i: usize = 0;
    while i < 32
        invariant
            i <= 32,
            forall|j: int| 0 <= j < i ==> a@[j] == b@[j],
        decreases 32 - i,
    {
        if a[i] != b[i] {
            return false;
        }
        i += 1;
    }
    proof {
        assert(a@ =~= b@);
    }
    true
}

/// The 32 bytes of which each is the exclusive or of the bytes of `a` and
/// `b` at its place.
pub open spec fn xored(a: Seq<u8>, b: Seq<u8>) -> Seq<u8> {
    Seq::new(32, |i: int| a[i] ^ b[i])
}

/// The key whose every byte is the exclusive or of the bytes of `a` and `b`
/// at its place.
pub fn xor(a: &Key, b: &Key) -> (r: Key)
    ensures
        r@ == xored(a@, b@),
{
    let mut key = [0u8; 32];
    let mut i: usize = 0;
    while i < 32
        invariant
            i <= 32,
            forall|j: int| 0 <= j < i ==> key@[j] == a@[j] ^ b@[j],
        decreases 32 - i,
    {
        key[i] = a[i] ^ b[i];
        i += 1;
    }
    key
}

} // verus!
