use vstd::bytes::{
    lemma_auto_spec_u64_to_from_le_bytes, spec_u64_from_le_bytes, spec_u64_to_le_bytes,
    u64_from_le_bytes, u64_to_le_bytes,
};
use vstd::prelude::*;
use vstd::slice::{slice_index_get, slice_subrange};

use crate::error::FaucetError;

verus! {

/// Number of bytes of the persisted faucet record: one flag byte, an 8-byte
/// little-endian ceiling, and a 32-byte mint identity.
pub const FAUCET_RECORD_LEN: usize = 41;

/// The persisted faucet state, read from and written to a fixed 41-byte
/// account layout.
#[derive(Clone, Copy, Debug, PartialEq, Eq)]
pub struct Faucet {
    /// Whether this record has been initialized; set exactly once.
    pub is_initialized: bool,
    /// The token mint this faucet is bound to, fixed at initialization.
    pub mint: [u8; 32],
    /// The per-call minting ceiling, fixed at initialization. It is never
    /// decremented: each successful mint may request up to this amount.
    pub amount: u64,
}

/// The mathematical content of a faucet record, with the mint identity as a
/// byte sequence.
#[verifier::ext_equal]
pub struct FaucetV {
    pub is_initialized: bool,
    pub mint: Seq<u8>,
    pub amount: u64,
}

impl FaucetV {
    /// A well-formed record holds a 32-byte mint identity.
    pub open spec fn wf(self) -> bool {
        self.mint.len() == 32
    }

    /// The exact 41-byte layout `Faucet::pack` produces: flag byte, amount in
    /// little-endian, mint identity.
    pub open spec fn spec_pack(self) -> Seq<u8> {
        seq![
            if self.is_initialized {
                1u8
            } else {
                0u8
            },
        ] + spec_u64_to_le_bytes(self.amount) + self.mint
    }

    /// Whether a byte buffer decodes as a faucet record: at least 41 bytes,
    /// with a flag byte of exactly 0 or 1.
    pub open spec fn decodes(src: Seq<u8>) -> bool {
        src.len() >= 41 && (src[0] == 0 || src[0] == 1)
    }

    /// The exact outcome of decoding `src`; fails with
    /// `IncorrectInitializationData` on a short buffer or an invalid flag.
    pub open spec fn spec_unpack(src: Seq<u8>) -> Result<FaucetV, FaucetError> {
        if Self::decodes(src) {
            Ok(
                FaucetV {
                    is_initialized: src[0] == 1,
                    mint: src.subrange(9, 41),
                    amount: spec_u64_from_le_bytes(src.subrange(1, 9)),
                },
            )
        } else {
            Err(FaucetError::IncorrectInitializationData)
        }
    }
}

impl View for Faucet {
    type V = FaucetV;

    open spec fn view(&self) -> FaucetV {
        FaucetV { is_initialized: self.is_initialized, mint: self.mint@, amount: self.amount }
    }
}

impl Faucet {
    /// Whether the record has been initialized.
    pub fn is_initialized(&self) -> (r: bool)
        ensures
            r == self.is_initialized,
    {
        self.is_initialized
    }

    /// Decodes a faucet record from a byte buffer, validating its length and
    /// flag byte.
    pub fn unpack_from_slice(src: &[u8]) -> (r: Result<Faucet, FaucetError>)
        ensures
            r matches Ok(f) ==> FaucetV::spec_unpack(src@) == Ok::<FaucetV, FaucetError>(f@),
            r matches Err(e) ==> FaucetV::spec_unpack(src@) == Err::<FaucetV, FaucetError>(e),
    {
        if src.len() < FAUCET_RECORD_LEN {
            return Err(FaucetError::IncorrectInitializationData);
        }
        let flag = *slice_index_get(src, 0);
        let is_initialized = match flag {
            0 => false,
            1 => true,
            _ => {
                return Err(FaucetError::IncorrectInitializationData);
            },
        };
        let amount = u64_from_le_bytes(slice_subrange(src, 1, 9));
        let mint_slice = slice_subrange(src, 9, 41);
        let mut mint = [0u8; 32];
        let mut i: usize = 0;
        while i < 32
            invariant
                i <= 32,
                mint_slice@.len() == 32,
                forall|j: int| 0 <= j < i ==> mint@[j] == mint_slice@[j],
            decreases 32 - i,
        {
            mint[i] = *slice_index_get(mint_slice, i);
            i += 1;
        }
        let f = Faucet { is_initialized, mint, amount };
        proof {
            assert(f@.mint =~= src@.subrange(9, 41));
            assert(f@ =~= FaucetV::spec_unpack(src@)->Ok_0);
        }
        Ok(f)
    }

    /// Decodes a faucet record at initialization time, where a fresh account's
    /// zeroed bytes read as an uninitialized record. It accepts and rejects
    /// exactly the same inputs as `unpack_from_slice`.
    pub fn unpack_unchecked(src: &[u8]) -> (r: Result<Faucet, FaucetError>)
        ensures
            r matches Ok(f) ==> FaucetV::spec_unpack(src@) == Ok::<FaucetV, FaucetError>(f@),
            r matches Err(e) ==> FaucetV::spec_unpack(src@) == Err::<FaucetV, FaucetError>(e),
    {
        Self::unpack_from_slice(src)
    }

    /// Encodes the record as its exact 41-byte layout.
    pub fn pack(&self) -> (r: Vec<u8>)
        ensures
            r@ == self@.spec_pack(),
            r@.len() == 41,
    {
        proof {
            lemma_auto_spec_u64_to_from_le_bytes();
        }
        let mut buf: Vec<u8> = Vec::new();
        buf.push(if self.is_initialized {
            1u8
        } else {
            0u8
        });
        let mut amount_bytes = u64_to_le_bytes(self.amount);
        buf.append(&mut amount_bytes);
        let mut i: usize = 0;
        while i < 32
            invariant
                buf@.len() == 9 + i,
                i <= 32,
                buf@.subrange(0, 9) == self@.spec_pack().subrange(0, 9),
                forall|j: int| 0 <= j < i ==> buf@[9 + j] == self.mint@[j],
            decreases 32 - i,
        {
            buf.push(self.mint[i]);
            proof {
                assert(buf@.subrange(0, 9) =~= self@.spec_pack().subrange(0, 9));
            }
            i += 1;
        }
        proof {
            assert(spec_u64_to_le_bytes(self.amount).len() == 8);
            assert forall|k: int| 0 <= k < 41 implies buf@[k] == self@.spec_pack()[k] by {
                if k < 9 {
                    assert(buf@.subrange(0, 9)[k] == self@.spec_pack().subrange(0, 9)[k]);
                } else {
                    assert(buf@[k] == self.mint@[k - 9]);
                }
            }
            assert(buf@ =~= self@.spec_pack());
        }
        buf
    }
}

/// Law: strictly decoding an encoded record yields the record back, for any
/// well-formed combination of flag, 64-bit amount and 32-byte mint identity.
pub proof fn lemma_record_round_trip(v: FaucetV)
    requires
        v.wf(),
    ensures
        FaucetV::spec_unpack(v.spec_pack()) == Ok::<FaucetV, FaucetError>(v),
{
    lemma_auto_spec_u64_to_from_le_bytes();
    let packed = v.spec_pack();
    assert(packed.subrange(1, 9) =~= spec_u64_to_le_bytes(v.amount));
    assert(packed.subrange(9, 41) =~= v.mint);
    assert(FaucetV::spec_unpack(packed)->Ok_0 =~= v);
}

/// Law: decoding fails with `IncorrectInitializationData` on inputs shorter
/// than 41 bytes and on inputs whose flag byte is neither 0 nor 1.
pub proof fn lemma_record_rejects_malformed(src: Seq<u8>)
    ensures
        src.len() < 41 ==> FaucetV::spec_unpack(src) == Err::<FaucetV, FaucetError>(
            FaucetError::IncorrectInitializationData,
        ),
        src.len() > 0 && src[0] != 0 && src[0] != 1 ==> FaucetV::spec_unpack(src) == Err::<
            FaucetV,
            FaucetError,
        >(FaucetError::IncorrectInitializationData),
{
}

} // verus!
