use vstd::prelude::*;

use solana_program::program_pack::Pack;
use solana_program::sysvar::Sysvar;

verus! {

/// What parsing a token mint account's bytes yields: `None` when the bytes are
/// not an initialized 82-byte mint record, otherwise the record's optional
/// mint-authority identity. A function of the bytes alone.
pub uninterp spec fn mint_authority_of(data: Seq<u8>) -> Option<Option<Seq<u8>>>;

/// Relies on `spl_token::state::Mint::unpack` (through
/// `solana_program::program_pack::Pack`): it parses exactly 82 bytes, fails on
/// any malformed or uninitialized record, and its result depends on the bytes
/// alone.
#[verifier::external_body]
pub(crate) fn read_mint_authority(data: &[u8]) -> (r: Option<Option<[u8; 32]>>)
    ensures
        match r {
            Option::None => mint_authority_of(data@) is None,
            Option::Some(Option::None) => mint_authority_of(data@) == Option::Some(
                Option::None::<Seq<u8>>,
            ),
            Option::Some(Option::Some(a)) => mint_authority_of(data@) == Option::Some(
                Option::Some(a@),
            ),
        },
        data@.len() != 82 ==> r is None,
{
    match spl_token::state::Mint::unpack(data) {
        Ok(mint) => match mint.mint_authority {
            solana_program::program_option::COption::Some(pk) => Some(Some(pk.to_bytes())),
            solana_program::program_option::COption::None => Some(None),
        },
        Err(_) => None,
    }
}

/// The host's persistence-funding exemption predicate: `None` when the proof
/// account is not the rent sysvar or its data does not deserialize, otherwise
/// whether `lamports` meets the exemption minimum for `data_len` bytes. A
/// function of its inputs alone.
pub uninterp spec fn rent_exemption(
    key: Seq<u8>,
    data: Seq<u8>,
    lamports: u64,
    data_len: int,
) -> Option<bool>;

/// Relies on `solana_program::sysvar::rent::Rent::from_account_info` (rejects
/// any account whose key is not the rent sysvar id, then deserializes the rent
/// parameters from the account data) and `Rent::is_exempt` (whether the
/// balance reaches the minimum for the given data length): both depend on
/// their inputs alone. A deserialized rate so large that `Rent::minimum_balance`
/// would overflow its 64-bit multiplication (a panic under overflow checks) is
/// rejected like any other invalid rent account, before `is_exempt` is called.
#[verifier::external_body]
pub(crate) fn check_rent_exemption(
    key: &[u8; 32],
    data: &[u8],
    lamports: u64,
    data_len: usize,
) -> (r: Option<bool>)
    ensures
        r == rent_exemption(key@, data@, lamports, data_len as int),
{
    let key_pk = solana_program::pubkey::Pubkey::new_from_array(*key);
    let owner = solana_program::pubkey::Pubkey::new_from_array([0u8; 32]);
    let mut lamports_cell: u64 = 0;
    let mut data_copy = data.to_vec();
    let info = solana_program::account_info::AccountInfo::new(
        &key_pk, false, false, &mut lamports_cell, &mut data_copy, &owner, false, 0,
    );
    let rent = solana_program::sysvar::rent::Rent::from_account_info(&info).ok()?;
    let bytes = (data_len as u64).checked_add(solana_program::rent::ACCOUNT_STORAGE_OVERHEAD)?;
    bytes.checked_mul(rent.lamports_per_byte_year)?;
    Some(rent.is_exempt(lamports, data_len))
}

} // verus!
