use faucet::error::FaucetError;
use faucet::instruction::FaucetInstruction;
use faucet::state::Faucet;

#[test]
fn instruction_pack_init_exact_bytes() {
    let packed = FaucetInstruction::InitFaucet { amount: 1 }.pack();
    assert_eq!(packed, vec![0u8, 1, 0, 0, 0, 0, 0, 0, 0]);
}

#[test]
fn instruction_pack_mint_exact_bytes() {
    let packed = FaucetInstruction::MintTokens { amount: 0x0102030405060708 }.pack();
    assert_eq!(packed, vec![1u8, 8, 7, 6, 5, 4, 3, 2, 1]);
}

#[test]
fn instruction_round_trip_init() {
    let i = FaucetInstruction::InitFaucet { amount: u64::MAX };
    assert_eq!(FaucetInstruction::unpack(&i.pack()), Ok(i));
}

#[test]
fn instruction_round_trip_mint() {
    let i = FaucetInstruction::MintTokens { amount: 0 };
    assert_eq!(FaucetInstruction::unpack(&i.pack()), Ok(i));
}

#[test]
fn instruction_unpack_ignores_trailing_bytes() {
    let mut bytes = FaucetInstruction::MintTokens { amount: 77 }.pack();
    bytes.push(0xAB);
    bytes.push(0xCD);
    assert_eq!(
        FaucetInstruction::unpack(&bytes),
        Ok(FaucetInstruction::MintTokens { amount: 77 })
    );
}

#[test]
fn instruction_unpack_rejects_empty_input() {
    assert_eq!(
        FaucetInstruction::unpack(&[]),
        Err(FaucetError::InvalidInstruction)
    );
}

#[test]
fn instruction_unpack_rejects_unknown_opcode() {
    assert_eq!(
        FaucetInstruction::unpack(&[2, 1, 0, 0, 0, 0, 0, 0, 0]),
        Err(FaucetError::InvalidInstruction)
    );
    assert_eq!(
        FaucetInstruction::unpack(&[255]),
        Err(FaucetError::InvalidInstruction)
    );
}

#[test]
fn instruction_unpack_rejects_short_amount() {
    assert_eq!(
        FaucetInstruction::unpack(&[0, 1, 2, 3]),
        Err(FaucetError::InvalidInstruction)
    );
    assert_eq!(
        FaucetInstruction::unpack(&[1, 1, 2, 3, 4, 5, 6, 7]),
        Err(FaucetError::InvalidInstruction)
    );
}

#[test]
fn record_pack_exact_bytes() {
    let record = Faucet {
        is_initialized: true,
        mint: [5u8; 32],
        amount: 258,
    };
    let mut expected = vec![1u8, 2, 1, 0, 0, 0, 0, 0, 0];
    expected.extend_from_slice(&[5u8; 32]);
    assert_eq!(record.pack(), expected);
}

#[test]
fn record_round_trip() {
    let mut mint = [0u8; 32];
    for (i, b) in mint.iter_mut().enumerate() {
        *b = i as u8;
    }
    for is_initialized in [false, true] {
        for amount in [0u64, 1, 1_000_000, u64::MAX] {
            let record = Faucet {
                is_initialized,
                mint,
                amount,
            };
            assert_eq!(Faucet::unpack_from_slice(&record.pack()), Ok(record));
            assert_eq!(Faucet::unpack_unchecked(&record.pack()), Ok(record));
        }
    }
}

#[test]
fn record_unpack_rejects_short_input() {
    assert_eq!(
        Faucet::unpack_from_slice(&[0u8; 40]),
        Err(FaucetError::IncorrectInitializationData)
    );
    assert_eq!(
        Faucet::unpack_from_slice(&[]),
        Err(FaucetError::IncorrectInitializationData)
    );
}

#[test]
fn record_unpack_rejects_bad_flag() {
    let mut bytes = [0u8; 41];
    bytes[0] = 2;
    assert_eq!(
        Faucet::unpack_from_slice(&bytes),
        Err(FaucetError::IncorrectInitializationData)
    );
    assert_eq!(
        Faucet::unpack_unchecked(&bytes),
        Err(FaucetError::IncorrectInitializationData)
    );
}

#[test]
fn record_unpack_accepts_zeroed_account() {
    let record = Faucet::unpack_unchecked(&[0u8; 41]).unwrap();
    assert!(!record.is_initialized());
    assert_eq!(record.amount, 0);
    assert_eq!(record.mint, [0u8; 32]);
}

#[test]
fn record_is_initialized_getter() {
    let record = Faucet {
        is_initialized: true,
        mint: [0u8; 32],
        amount: 0,
    };
    assert!(record.is_initialized());
}
