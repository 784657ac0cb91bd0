use farming::error::AppError;
use farming::instruction::AppInstruction;

fn tagged(tag: u8, arguments: &[u64]) -> Vec<u8> {
    let mut bytes = vec![tag];
    for argument in arguments {
        bytes.extend_from_slice(&argument.to_le_bytes());
    }
    bytes
}

#[test]
fn unpack_rejects_empty_input() {
    assert_eq!(AppInstruction::unpack(&[]), Err(AppError::InvalidInstruction));
}

#[test]
fn unpack_rejects_unknown_tags() {
    for tag in 12..=255u8 {
        assert_eq!(
            AppInstruction::unpack(&tagged(tag, &[1, 2])),
            Err(AppError::InvalidInstruction)
        );
    }
}

#[test]
fn unpack_initialize_stake_pool() {
    assert_eq!(
        AppInstruction::unpack(&tagged(0, &[100, 86400])),
        Ok(AppInstruction::InitializeStakePool { reward: 100, period: 86400 })
    );
    assert_eq!(
        AppInstruction::unpack(&tagged(0, &[u64::MAX, 0x0102_0304_0506_0708])),
        Ok(AppInstruction::InitializeStakePool { reward: u64::MAX, period: 0x0102_0304_0506_0708 })
    );
}

#[test]
fn unpack_reads_little_endian() {
    assert_eq!(
        AppInstruction::unpack(&[2, 1, 2, 3, 4, 5, 6, 7, 8]),
        Ok(AppInstruction::Stake { amount: 0x0807_0605_0403_0201 })
    );
}

#[test]
fn unpack_initialize_stake_pool_needs_both_arguments() {
    let full = tagged(0, &[100, 86400]);
    for len in 1..17 {
        assert_eq!(AppInstruction::unpack(&full[..len]), Err(AppError::InvalidInstruction));
    }
}

#[test]
fn unpack_instructions_without_arguments() {
    assert_eq!(AppInstruction::unpack(&[1]), Ok(AppInstruction::InitializeAccounts));
    assert_eq!(AppInstruction::unpack(&[4]), Ok(AppInstruction::Harvest));
    assert_eq!(AppInstruction::unpack(&[5]), Ok(AppInstruction::FreezeStakePool));
    assert_eq!(AppInstruction::unpack(&[6]), Ok(AppInstruction::ThawStakePool));
    assert_eq!(AppInstruction::unpack(&[9]), Ok(AppInstruction::TransferStakePoolOwnership));
    assert_eq!(AppInstruction::unpack(&[10]), Ok(AppInstruction::CloseDebt));
    assert_eq!(AppInstruction::unpack(&[11]), Ok(AppInstruction::CloseStakePool));
}

#[test]
fn unpack_instructions_with_an_amount() {
    assert_eq!(
        AppInstruction::unpack(&tagged(2, &[5])),
        Ok(AppInstruction::Stake { amount: 5 })
    );
    assert_eq!(
        AppInstruction::unpack(&tagged(3, &[6])),
        Ok(AppInstruction::Unstake { amount: 6 })
    );
    assert_eq!(AppInstruction::unpack(&tagged(7, &[7])), Ok(AppInstruction::Seed { amount: 7 }));
    assert_eq!(
        AppInstruction::unpack(&tagged(8, &[u64::MAX])),
        Ok(AppInstruction::Unseed { amount: u64::MAX })
    );
}

#[test]
fn unpack_amount_needs_eight_bytes() {
    for tag in [2u8, 3, 7, 8] {
        let full = tagged(tag, &[77]);
        for len in 1..9 {
            assert_eq!(AppInstruction::unpack(&full[..len]), Err(AppError::InvalidInstruction));
        }
    }
}

#[test]
fn unpack_ignores_trailing_bytes() {
    let mut bytes = tagged(2, &[5]);
    bytes.extend_from_slice(&[9, 9, 9]);
    assert_eq!(AppInstruction::unpack(&bytes), Ok(AppInstruction::Stake { amount: 5 }));
    assert_eq!(AppInstruction::unpack(&[4, 1, 2, 3]), Ok(AppInstruction::Harvest));
    let mut bytes = tagged(0, &[1, 2]);
    bytes.push(0);
    assert_eq!(
        AppInstruction::unpack(&bytes),
        Ok(AppInstruction::InitializeStakePool { reward: 1, period: 2 })
    );
}
