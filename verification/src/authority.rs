use vstd::prelude::*;

verus! {

/// The fixed domain-separation seed, the bytes of `"faucet"`: every authority
/// derivation and every delegated-call authorization uses it.
pub open spec fn spec_authority_seed() -> Seq<u8> {
    seq![102u8, 97u8, 117u8, 99u8, 101u8, 116u8]
}

/// The seed material that authorizes a delegated call as the derived address:
/// the fixed seed followed by the bump nonce returned by the derivation.
pub fn authorize(nonce: u8) -> (r: (Vec<u8>, Vec<u8>))
    ensures
        r.0@ == spec_authority_seed(),
        r.1@ == seq![nonce],
{
    let mut seed: Vec<u8> = Vec::new();
    seed.push(102u8);
    seed.push(97u8);
    seed.push(117u8);
    seed.push(99u8);
    seed.push(101u8);
    seed.push(116u8);
    let mut bump: Vec<u8> = Vec::new();
    bump.push(nonce);
    proof {
        assert(seed@ =~= spec_authority_seed());
        assert(bump@ =~= seq![nonce]);
    }
    (seed, bump)
}

/// The address and bump nonce that the host derives for this program from the
/// fixed seed `b"faucet"`, or `None` in the improbable case that no bump seed
/// yields a keyless address. A function of the program identity alone.
pub uninterp spec fn derived_authority(program_id: Seq<u8>) -> Option<(Seq<u8>, u8)>;

/// Relies on `solana_program::pubkey::Pubkey::try_find_program_address` with
/// the fixed seed `b"faucet"`: a deterministic, collision-resistant derivation
/// whose result has no corresponding private key; it returns `None` only when
/// no bump seed in 255..=1 produces an off-curve address.
#[verifier::external_body]
pub(crate) fn derive_faucet_authority(program_id: &[u8; 32]) -> (r: Option<([u8; 32], u8)>)
    ensures
        match r {
            Option::None => derived_authority(program_id@) is None,
            Option::Some(pair) => derived_authority(program_id@) == Option::Some(
                (pair.0@, pair.1),
            ),
        },
{
    let pk = solana_program::pubkey::Pubkey::new_from_array(*program_id);
    solana_program::pubkey::Pubkey::try_find_program_address(&[b"faucet"], &pk).map(
        |(address, nonce)| (address.to_bytes(), nonce),
    )
}

} // verus!
