use vstd::prelude::*;

use crate::authority::{derive_faucet_authority, derived_authority};
use crate::error::{FaucetError, ProcessError};
use crate::host::{check_rent_exemption, mint_authority_of, read_mint_authority, rent_exemption};
use crate::instruction::FaucetInstruction;
use crate::keys_equal;
use crate::state::{Faucet, FaucetV};

verus! {

/// One account of the host-supplied ordered account list, reduced to what the
/// faucet's logic reads: its address, its balance, and its data bytes.
pub struct AccountView {
    pub key: [u8; 32],
    pub lamports: u64,
    pub data: Vec<u8>,
}

/// The mathematical content of an account entry.
#[verifier::ext_equal]
pub struct AccountViewV {
    pub key: Seq<u8>,
    pub lamports: u64,
    pub data: Seq<u8>,
}

impl View for AccountView {
    type V = AccountViewV;

    open spec fn view(&self) -> AccountViewV {
        AccountViewV { key: self.key@, lamports: self.lamports, data: self.data@ }
    }
}

/// The single side effect a successful invocation asks the host to commit.
/// Every failure commits nothing.
#[derive(Clone, Debug, PartialEq, Eq)]
pub enum Effect {
    /// Write this record into the faucet account's data.
    WriteFaucet { record: Faucet },
    /// Delegate a "mint `amount` tokens to `destination`" call to the token
    /// ledger program, authorized as `authority` by re-deriving it from the
    /// fixed seed and `nonce`.
    DelegatedMint {
        token_program: [u8; 32],
        mint: [u8; 32],
        destination: [u8; 32],
        authority: [u8; 32],
        nonce: u8,
        amount: u64,
    },
}

/// The mathematical content of an effect.
#[verifier::ext_equal]
pub enum EffectV {
    WriteFaucet { record: FaucetV },
    DelegatedMint {
        token_program: Seq<u8>,
        mint: Seq<u8>,
        destination: Seq<u8>,
        authority: Seq<u8>,
        nonce: u8,
        amount: u64,
    },
}

impl View for Effect {
    type V = EffectV;

    open spec fn view(&self) -> EffectV {
        match self {
            Effect::WriteFaucet { record } => EffectV::WriteFaucet { record: record@ },
            Effect::DelegatedMint {
                token_program,
                mint,
                destination,
                authority,
                nonce,
                amount,
            } => EffectV::DelegatedMint {
                token_program: token_program@,
                mint: mint@,
                destination: destination@,
                authority: authority@,
                nonce: *nonce,
                amount: *amount,
            },
        }
    }
}

/// The dispatcher: decodes an instruction and runs the matching handler.
pub struct Processor;

/// A handler result seen at the mathematical level.
pub open spec fn view_result(r: Result<Effect, ProcessError>) -> Result<EffectV, ProcessError> {
    match r {
        Ok(e) => Ok(e@),
        Err(e) => Err(e),
    }
}

/// The exact outcome of the initialization handler on the account list
/// `[mint account, faucet account, rent proof account]`.
pub open spec fn init_outcome(
    accounts: Seq<AccountView>,
    amount: u64,
    program_id: Seq<u8>,
) -> Result<EffectV, ProcessError> {
    match derived_authority(program_id) {
        Option::None => Err(ProcessError::InvalidArgument),
        Option::Some(pda) => if accounts.len() < 1 {
            Err(ProcessError::NotEnoughAccountKeys)
        } else {
            match mint_authority_of(accounts[0]@.data) {
                Option::None => Err(ProcessError::InvalidAccountData),
                Option::Some(auth) => if !(auth matches Option::Some(a) && a == pda.0) {
                    Err(ProcessError::Faucet(FaucetError::IncorrectMintAuthority))
                } else if accounts.len() < 2 {
                    Err(ProcessError::NotEnoughAccountKeys)
                } else {
                    match FaucetV::spec_unpack(accounts[1]@.data) {
                        Err(e) => Err(ProcessError::Faucet(e)),
                        Ok(record) => if record.is_initialized {
                            Err(ProcessError::Faucet(FaucetError::AccountAlreadyInUse))
                        } else if accounts.len() < 3 {
                            Err(ProcessError::NotEnoughAccountKeys)
                        } else {
                            match rent_exemption(
                                accounts[2]@.key,
                                accounts[2]@.data,
                                accounts[1]@.lamports,
                                accounts[1]@.data.len() as int,
                            ) {
                                Option::None => Err(ProcessError::InvalidArgument),
                                Option::Some(false) => Err(
                                    ProcessError::Faucet(FaucetError::AccountNotRentExempt),
                                ),
                                Option::Some(true) => Ok(
                                    EffectV::WriteFaucet {
                                        record: FaucetV {
                                            is_initialized: true,
                                            mint: accounts[0]@.key,
                                            amount,
                                        },
                                    },
                                ),
                            }
                        },
                    }
                },
            }
        },
    }
}

/// The exact outcome of the minting handler on the account list
/// `[authority account, mint account, destination account, token program
/// account, faucet account]`.
pub open spec fn mint_outcome(
    accounts: Seq<AccountView>,
    amount: u64,
    program_id: Seq<u8>,
) -> Result<EffectV, ProcessError> {
    if accounts.len() < 1 {
        Err(ProcessError::NotEnoughAccountKeys)
    } else {
        match derived_authority(program_id) {
            Option::None => Err(ProcessError::InvalidArgument),
            Option::Some(pda) => if accounts[0]@.key != pda.0 {
                Err(ProcessError::InvalidAccountData)
            } else if accounts.len() < 5 {
                Err(ProcessError::NotEnoughAccountKeys)
            } else {
                match FaucetV::spec_unpack(accounts[4]@.data) {
                    Err(e) => Err(ProcessError::Faucet(e)),
                    Ok(record) => if record.mint != accounts[1]@.key {
                        Err(ProcessError::Faucet(FaucetError::InvalidMint))
                    } else if amount > record.amount {
                        Err(ProcessError::Faucet(FaucetError::RequestingTooManyTokens))
                    } else {
                        Ok(
                            EffectV::DelegatedMint {
                                token_program: accounts[3]@.key,
                                mint: accounts[1]@.key,
                                destination: accounts[2]@.key,
                                authority: accounts[0]@.key,
                                nonce: pda.1,
                                amount,
                            },
                        )
                    },
                }
            },
        }
    }
}

/// The exact outcome of one invocation: decode, then route.
pub open spec fn process_outcome(
    program_id: Seq<u8>,
    accounts: Seq<AccountView>,
    input: Seq<u8>,
) -> Result<EffectV, ProcessError> {
    match FaucetInstruction::spec_unpack(input) {
        Err(e) => Err(ProcessError::Faucet(e)),
        Ok(FaucetInstruction::InitFaucet { amount }) => init_outcome(accounts, amount, program_id),
        Ok(FaucetInstruction::MintTokens { amount }) => mint_outcome(accounts, amount, program_id),
    }
}

impl Processor {
    /// Decodes `input` and runs the matching handler over the ordered account
    /// list, returning the one effect to commit or the error that aborts the
    /// invocation.
    pub fn process(program_id: &[u8; 32], accounts: &Vec<AccountView>, input: &[u8]) -> (r: Result<
        Effect,
        ProcessError,
    >)
        ensures
            view_result(r) == process_outcome(program_id@, accounts@, input@),
    {
        let instruction = match FaucetInstruction::unpack(input) {
            Err(e) => {
                return Err(ProcessError::Faucet(e));
            },
            Ok(i) => i,
        };
        match instruction {
            FaucetInstruction::InitFaucet { amount } => Self::process_init_faucet(
                accounts,
                amount,
                program_id,
            ),
            FaucetInstruction::MintTokens { amount } => Self::process_mint_tokens(
                accounts,
                amount,
                program_id,
            ),
        }
    }

    /// Initializes a faucet: checks that the mint's authority is the derived
    /// address, that the record is not already initialized, and that the
    /// record account is rent exempt, then asks for the record write.
    pub fn process_init_faucet(
        accounts: &Vec<AccountView>,
        amount: u64,
        program_id: &[u8; 32],
    ) -> (r: Result<Effect, ProcessError>)
        ensures
            view_result(r) == init_outcome(accounts@, amount, program_id@),
    {
        let pda = match derive_faucet_authority(program_id) {
            None => {
                return Err(ProcessError::InvalidArgument);
            },
            Some(p) => p,
        };
        if accounts.len() < 1 {
            return Err(ProcessError::NotEnoughAccountKeys);
        }
        let mint_account = &accounts[0];
        let authority = match read_mint_authority(mint_account.data.as_slice()) {
            None => {
                return Err(ProcessError::InvalidAccountData);
            },
            Some(a) => a,
        };
        let authority_key = match authority {
            None => {
                return Err(ProcessError::Faucet(FaucetError::IncorrectMintAuthority));
            },
            Some(k) => k,
        };
        if !keys_equal(&authority_key, &pda.0) {
            return Err(ProcessError::Faucet(FaucetError::IncorrectMintAuthority));
        }
        if accounts.len() < 2 {
            return Err(ProcessError::NotEnoughAccountKeys);
        }
        let faucet_account = &accounts[1];
        let record = match Faucet::unpack_unchecked(faucet_account.data.as_slice()) {
            Err(e) => {
                return Err(ProcessError::Faucet(e));
            },
            Ok(f) => f,
        };
        if record.is_initialized {
            return Err(ProcessError::Faucet(FaucetError::AccountAlreadyInUse));
        }
        if accounts.len() < 3 {
            return Err(ProcessError::NotEnoughAccountKeys);
        }
        let rent_account = &accounts[2];
        match check_rent_exemption(
            &rent_account.key,
            rent_account.data.as_slice(),
            faucet_account.lamports,
            faucet_account.data.len(),
        ) {
            None => Err(ProcessError::InvalidArgument),
            Some(false) => Err(ProcessError::Faucet(FaucetError::AccountNotRentExempt)),
            Some(true) => Ok(
                Effect::WriteFaucet {
                    record: Faucet { is_initialized: true, mint: mint_account.key, amount },
                },
            ),
        }
    }

    /// Mints tokens: checks that the first account holds the derived
    /// authority, that the faucet record is bound to the supplied mint, and
    /// that the request is within the per-call ceiling, then asks for the
    /// delegated mint call. No state is mutated.
    pub fn process_mint_tokens(
        accounts: &Vec<AccountView>,
        amount: u64,
        program_id: &[u8; 32],
    ) -> (r: Result<Effect, ProcessError>)
        ensures
            view_result(r) == mint_outcome(accounts@, amount, program_id@),
    {
        if accounts.len() < 1 {
            return Err(ProcessError::NotEnoughAccountKeys);
        }
        let pda_account = &accounts[0];
        let pda = match derive_faucet_authority(program_id) {
            None => {
                return Err(ProcessError::InvalidArgument);
            },
            Some(p) => p,
        };
        if !keys_equal(&pda_account.key, &pda.0) {
            return Err(ProcessError::InvalidAccountData);
        }
        if accounts.len() < 5 {
            return Err(ProcessError::NotEnoughAccountKeys);
        }
        let mint_account = &accounts[1];
        let destination_account = &accounts[2];
        let token_program_account = &accounts[3];
        let faucet_account = &accounts[4];
        let record = match Faucet::unpack_from_slice(faucet_account.data.as_slice()) {
            Err(e) => {
                return Err(ProcessError::Faucet(e));
            },
            Ok(f) => f,
        };
        if !keys_equal(&record.mint, &mint_account.key) {
            return Err(ProcessError::Faucet(FaucetError::InvalidMint));
        }
        if amount > record.amount {
            return Err(ProcessError::Faucet(FaucetError::RequestingTooManyTokens));
        }
        Ok(
            Effect::DelegatedMint {
                token_program: token_program_account.key,
                mint: mint_account.key,
                destination: destination_account.key,
                authority: pda_account.key,
                nonce: pda.1,
                amount,
            },
        )
    }
}

/// Law: initialization fails with `IncorrectMintAuthority` whenever the mint's
/// authority field is absent or differs from the derived authority address.
pub proof fn lemma_init_rejects_wrong_authority(
    accounts: Seq<AccountView>,
    amount: u64,
    program_id: Seq<u8>,
    pda: (Seq<u8>, u8),
    authority: Option<Seq<u8>>,
)
    requires
        derived_authority(program_id) == Option::Some(pda),
        accounts.len() >= 1,
        mint_authority_of(accounts[0]@.data) == Option::Some(authority),
        authority matches Option::Some(a) ==> a != pda.0,
    ensures
        init_outcome(accounts, amount, program_id) == Err::<EffectV, ProcessError>(
            ProcessError::Faucet(FaucetError::IncorrectMintAuthority),
        ),
{
}

/// Law: initialization fails with `AccountAlreadyInUse` whenever the target
/// record decodes with its initialization flag already set, regardless of the
/// requested ceiling.
pub proof fn lemma_init_rejects_initialized_record(
    accounts: Seq<AccountView>,
    amount: u64,
    program_id: Seq<u8>,
    pda: (Seq<u8>, u8),
    record: FaucetV,
)
    requires
        derived_authority(program_id) == Option::Some(pda),
        accounts.len() >= 2,
        mint_authority_of(accounts[0]@.data) == Option::Some(Option::Some(pda.0)),
        FaucetV::spec_unpack(accounts[1]@.data) == Ok::<FaucetV, FaucetError>(record),
        record.is_initialized,
    ensures
        init_outcome(accounts, amount, program_id) == Err::<EffectV, ProcessError>(
            ProcessError::Faucet(FaucetError::AccountAlreadyInUse),
        ),
{
}

/// Law: initialization fails with `AccountNotRentExempt` whenever the host's
/// exemption predicate denies the faucet account's balance for its data
/// length.
pub proof fn lemma_init_rejects_unfunded_record(
    accounts: Seq<AccountView>,
    amount: u64,
    program_id: Seq<u8>,
    pda: (Seq<u8>, u8),
    record: FaucetV,
)
    requires
        derived_authority(program_id) == Option::Some(pda),
        accounts.len() >= 3,
        mint_authority_of(accounts[0]@.data) == Option::Some(Option::Some(pda.0)),
        FaucetV::spec_unpack(accounts[1]@.data) == Ok::<FaucetV, FaucetError>(record),
        !record.is_initialized,
        rent_exemption(
            accounts[2]@.key,
            accounts[2]@.data,
            accounts[1]@.lamports,
            accounts[1]@.data.len() as int,
        ) == Option::Some(false),
    ensures
        init_outcome(accounts, amount, program_id) == Err::<EffectV, ProcessError>(
            ProcessError::Faucet(FaucetError::AccountNotRentExempt),
        ),
{
}

/// Law: initialization succeeds exactly when every check passes, and the
/// record it writes is initialized, carries the requested ceiling, and is
/// bound to the supplied mint account's identity.
pub proof fn lemma_init_success(
    accounts: Seq<AccountView>,
    amount: u64,
    program_id: Seq<u8>,
    pda: (Seq<u8>, u8),
    record: FaucetV,
)
    requires
        derived_authority(program_id) == Option::Some(pda),
        accounts.len() >= 3,
        mint_authority_of(accounts[0]@.data) == Option::Some(Option::Some(pda.0)),
        FaucetV::spec_unpack(accounts[1]@.data) == Ok::<FaucetV, FaucetError>(record),
        !record.is_initialized,
        rent_exemption(
            accounts[2]@.key,
            accounts[2]@.data,
            accounts[1]@.lamports,
            accounts[1]@.data.len() as int,
        ) == Option::Some(true),
    ensures
        init_outcome(accounts, amount, program_id) == Ok::<EffectV, ProcessError>(
            EffectV::WriteFaucet {
                record: FaucetV { is_initialized: true, mint: accounts[0]@.key, amount },
            },
        ),
{
}

/// Law: a successful initialization always writes a record whose flag is set
/// and whose ceiling is the requested amount, so the only state transition the
/// dispatcher ever performs is uninitialized to initialized.
pub proof fn lemma_init_writes_only_initialized_records(
    accounts: Seq<AccountView>,
    amount: u64,
    program_id: Seq<u8>,
)
    ensures
        init_outcome(accounts, amount, program_id) matches Ok(e) ==> e matches
            EffectV::WriteFaucet { record } && record.is_initialized && record.amount == amount,
{
}

/// Law: the minting path never writes state: any successful outcome is a
/// delegated mint call, so the per-call ceiling is never decremented and each
/// invocation may request up to the full ceiling.
pub proof fn lemma_mint_never_writes(accounts: Seq<AccountView>, amount: u64, program_id: Seq<u8>)
    ensures
        mint_outcome(accounts, amount, program_id) matches Ok(e) ==> e is DelegatedMint,
{
}

/// Law: minting fails with `InvalidMint` whenever the recorded mint identity
/// differs from the supplied mint account's identity.
pub proof fn lemma_mint_rejects_wrong_mint(
    accounts: Seq<AccountView>,
    amount: u64,
    program_id: Seq<u8>,
    pda: (Seq<u8>, u8),
    record: FaucetV,
)
    requires
        derived_authority(program_id) == Option::Some(pda),
        accounts.len() >= 5,
        accounts[0]@.key == pda.0,
        FaucetV::spec_unpack(accounts[4]@.data) == Ok::<FaucetV, FaucetError>(record),
        record.mint != accounts[1]@.key,
    ensures
        mint_outcome(accounts, amount, program_id) == Err::<EffectV, ProcessError>(
            ProcessError::Faucet(FaucetError::InvalidMint),
        ),
{
}

/// Law: minting fails with `RequestingTooManyTokens` whenever the requested
/// amount exceeds the record's per-call ceiling.
pub proof fn lemma_mint_rejects_excessive_amount(
    accounts: Seq<AccountView>,
    amount: u64,
    program_id: Seq<u8>,
    pda: (Seq<u8>, u8),
    record: FaucetV,
)
    requires
        derived_authority(program_id) == Option::Some(pda),
        accounts.len() >= 5,
        accounts[0]@.key == pda.0,
        FaucetV::spec_unpack(accounts[4]@.data) == Ok::<FaucetV, FaucetError>(record),
        record.mint == accounts[1]@.key,
        amount > record.amount,
    ensures
        mint_outcome(accounts, amount, program_id) == Err::<EffectV, ProcessError>(
            ProcessError::Faucet(FaucetError::RequestingTooManyTokens),
        ),
{
}

/// Law: minting succeeds exactly when the authority account holds the derived
/// address, the record is bound to the supplied mint, and the request is
/// within the ceiling; the delegated call then carries exactly the requested
/// amount, and no state is written.
pub proof fn lemma_mint_success(
    accounts: Seq<AccountView>,
    amount: u64,
    program_id: Seq<u8>,
    pda: (Seq<u8>, u8),
    record: FaucetV,
)
    requires
        derived_authority(program_id) == Option::Some(pda),
        accounts.len() >= 5,
        accounts[0]@.key == pda.0,
        FaucetV::spec_unpack(accounts[4]@.data) == Ok::<FaucetV, FaucetError>(record),
        record.mint == accounts[1]@.key,
        amount <= record.amount,
    ensures
        mint_outcome(accounts, amount, program_id) == Ok::<EffectV, ProcessError>(
            EffectV::DelegatedMint {
                token_program: accounts[3]@.key,
                mint: accounts[1]@.key,
                destination: accounts[2]@.key,
                authority: accounts[0]@.key,
                nonce: pda.1,
                amount,
            },
        ),
{
}

} // verus!
