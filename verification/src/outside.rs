//! The calls this library makes into `solana_program`, `spl_token`,
//! `spl_associated_token_account` and `std`, each with the contract it is
//! trusted to meet.
use solana_program::pubkey::Pubkey;
use vstd::prelude::*;
use vstd::string::StringSliceAdditionalSpecFns;
use vstd::utf8::valid_utf8;

verus! {

/// The program-derived address and bump seed that `Pubkey::try_find_program_address`
/// finds for `seeds` under `program_id` (`None` when it finds none).
pub uninterp spec fn program_address(seeds: Seq<Seq<u8>>, program_id: Seq<u8>) -> Option<(Seq<u8>, u8)>;

/// The byte contents of each seed.
pub open spec fn seeds_view(seeds: Seq<Vec<u8>>) -> Seq<Seq<u8>> {
    seeds.map_values(|s: Vec<u8>| s@)
}

/// An address and bump seed, with the address by its bytes.
pub open spec fn found_view(r: Option<([u8; 32], u8)>) -> Option<(Seq<u8>, u8)> {
    match r {
        Some((k, b)) => Some((k@, b)),
        None => None,
    }
}

/// `Pubkey::try_find_program_address(seeds, program_id)`, on raw key bytes.
/// Its result is the name `program_address` applied to the seeds and the
/// program id. As its source shows, it finds nothing when there are 16 seeds
/// or more (the bump seed it appends would make one too many) or when a seed
/// is longer than 32 bytes.
#[verifier::external_body]
pub(crate) fn find_program_address(seeds: &Vec<Vec<u8>>, program_id: &[u8; 32]) -> (r: Option<([u8; 32], u8)>)
    ensures
        found_view(r) == program_address(seeds_view(seeds@), program_id@),
        (seeds@.len() >= 16 || exists|i: int| 0 <= i < seeds@.len() && seeds@[i]@.len() > 32)
            ==> r is None,
{
    let refs: Vec<&[u8]> = seeds.iter().map(|s| s.as_slice()).collect();
    let id = Pubkey::new_from_array(*program_id);
    Pubkey::try_find_program_address(&refs, &id).map(|(k, b)| (k.to_bytes(), b))
}

/// The bytes of `TokenkegQfeZyiNwAJbNbGKPFXCWuBvf9Ss623VQ5DA`.
pub open spec fn token_program_key() -> Seq<u8> {
    seq![6u8, 221, 246, 225, 215, 101, 161, 147, 217, 203, 225, 70, 206, 235, 121, 172, 28, 180,
        133, 237, 95, 91, 55, 145, 58, 140, 245, 133, 126, 255, 0, 169]
}

/// The bytes of `ATokenGPvbdGVxr1b2hvZbsiqW5xWH25efTNsLJA8knL`.
pub open spec fn associated_token_program_key() -> Seq<u8> {
    seq![140u8, 151, 37, 143, 78, 36, 137, 241, 187, 61, 16, 41, 20, 142, 13, 131, 11, 90, 19,
        153, 218, 255, 16, 132, 4, 142, 123, 216, 219, 233, 248, 89]
}

/// The bytes of `SysvarRent111111111111111111111111111111111`.
pub open spec fn rent_sysvar_key() -> Seq<u8> {
    seq![6u8, 167, 213, 23, 25, 44, 92, 81, 33, 140, 201, 76, 61, 74, 241, 127, 88, 218, 238, 8,
        155, 161, 253, 68, 227, 219, 217, 138, 0, 0, 0, 0]
}

/// The bytes of `11111111111111111111111111111111`: 32 zero bytes.
pub open spec fn system_program_key() -> Seq<u8> {
    Seq::new(32, |i: int| 0u8)
}

/// `spl_token::ID`, the token program's address, whose base58 form is
/// `TokenkegQfeZyiNwAJbNbGKPFXCWuBvf9Ss623VQ5DA`.
#[verifier::external_body]
pub(crate) fn token_program_id() -> (r: [u8; 32])
    ensures
        r@ == token_program_key(),
{
    spl_token::ID.to_bytes()
}

/// `spl_associated_token_account::ID`, the associated token account
/// program's address, whose base58 form is
/// `ATokenGPvbdGVxr1b2hvZbsiqW5xWH25efTNsLJA8knL`.
#[verifier::external_body]
pub(crate) fn associated_token_program_id() -> (r: [u8; 32])
    ensures
        r@ == associated_token_program_key(),
{
    spl_associated_token_account::ID.to_bytes()
}

/// `solana_program::sysvar::rent::ID`, whose base58 form is
/// `SysvarRent111111111111111111111111111111111`.
#[verifier::external_body]
pub(crate) fn rent_sysvar_id() -> (r: [u8; 32])
    ensures
        r@ == rent_sysvar_key(),
{
    solana_program::sysvar::rent::ID.to_bytes()
}

/// `solana_program::system_program::ID`, whose base58 form is
/// `11111111111111111111111111111111`.
#[verifier::external_body]
pub(crate) fn system_program_id() -> (r: [u8; 32])
    ensures
        r@ == system_program_key(),
{
    solana_program::system_program::ID.to_bytes()
}

/// `solana_program::native_token::LAMPORTS_PER_SOL`.
#[verifier::external_body]
pub(crate) fn lamports_per_sol() -> (r: u64)
    ensures
        r == 1_000_000_000,
{
    solana_program::native_token::LAMPORTS_PER_SOL
}

/// `std::str::from_utf8(v)`: the string whose UTF-8 bytes are `v`, when `v`
/// is valid UTF-8.
#[verifier::external_body]
pub(crate) fn utf8_str(v: &[u8]) -> (r: Option<&str>)
    ensures
        r is Some <==> valid_utf8(v@),
        r matches Some(s) ==> s.spec_bytes() == v@,
{
    std::str::from_utf8(v).ok()
}

} // verus!
