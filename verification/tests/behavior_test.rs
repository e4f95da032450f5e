use mollusk_helper::Addr;
use mollusk_helper::InstructionOutcome;
use mollusk_helper::MolluskContextHelper;
use mollusk_helper::MolluskHelperError;
use mollusk_helper::ProgramOutcome;
use mollusk_helper::TransactionResult;
use mollusk_helper::account::system_account_with_lamports;
use mollusk_helper::token::get_associated_token_address;
use solana_pubkey::Pubkey;

fn addr(tag: u8) -> Addr {
    let mut bytes = [0u8; 32];
    bytes[0] = tag;
    bytes[31] = 9;
    Addr::new(bytes)
}

fn pk(a: &Addr) -> Pubkey {
    Pubkey::new_from_array(a.bytes)
}

fn ok_outcome(cu: u64, et: u64) -> InstructionOutcome {
    InstructionOutcome {
        program_result: ProgramOutcome::Success,
        compute_units_consumed: cu,
        execution_time: et,
        raw_error: None,
    }
}

#[test]
fn test_empty_transaction_all_modes() {
    let mut ctx = MolluskContextHelper::new_without_program();
    let alice = addr(1);
    ctx.fund_account(&alice, 42);

    let r1 = ctx.transaction().execute(&mut ctx).unwrap();
    assert_eq!(r1.instruction_results.len(), 0);
    assert_eq!(r1.total_compute_units, 0);
    assert_eq!(r1.total_execution_time, 0);

    let r2 = ctx.transaction().execute_allow_failures(&mut ctx);
    assert_eq!(r2.instruction_results.len(), 0);
    assert_eq!(r2.total_compute_units, 0);
    assert_eq!(r2.total_execution_time, 0);

    let r3 = ctx.transaction().dry_run(&mut ctx);
    assert_eq!(r3.instruction_results.len(), 0);
    assert_eq!(r3.total_compute_units, 0);
    assert_eq!(r3.total_execution_time, 0);

    assert_eq!(ctx.get_balance(&alice), Some(42));
}

#[test]
fn test_execute_single_transfer() {
    let mut ctx = MolluskContextHelper::new_without_program();
    let a = addr(1);
    let b = addr(2);
    ctx.fund_account(&a, 1_000_000);
    ctx.fund_account(&b, 0);

    let ix = solana_system_interface::instruction::transfer(&pk(&a), &pk(&b), 500_000);
    let result = ctx.transaction().add_instruction(ix).execute(&mut ctx).unwrap();

    assert!(result.is_success());
    assert_eq!(result.instruction_results.len(), 1);
    assert_eq!(
        result.total_compute_units,
        result.instruction_results[0].compute_units_consumed
    );
    assert_eq!(ctx.get_balance(&a), Some(500_000));
    assert_eq!(ctx.get_balance(&b), Some(500_000));
}

#[test]
fn test_execute_failure_index() {
    let mut ctx = MolluskContextHelper::new_without_program();
    let a = addr(1);
    let b = addr(2);
    ctx.fund_account(&a, 100_000);
    ctx.fund_account(&b, 100_000);

    let ix1 = solana_system_interface::instruction::transfer(&pk(&a), &pk(&b), 50_000);
    let ix2 = solana_system_interface::instruction::transfer(&pk(&a), &pk(&b), 100_000);

    let result = ctx.transaction().add_instruction(ix1).add_instruction(ix2).execute(&mut ctx);
    match result {
        Err(MolluskHelperError::TransactionFailed { index, error: _ }) => {
            assert_eq!(index, 1);
        },
        _ => panic!("expected a transaction failure with an index"),
    }
}

#[test]
fn test_snapshot_restore_roundtrip() {
    let mut ctx = MolluskContextHelper::new_without_program();
    let a = addr(1);
    let b = addr(2);
    ctx.fund_account(&a, 777);
    ctx.fund_account(&b, 0);

    ctx.snapshot_restore_roundtrip();

    assert_eq!(ctx.get_balance(&a), Some(777));
    assert_eq!(ctx.get_balance(&b), Some(0));
}

#[test]
fn test_store_absent_vs_zero() {
    let mut ctx = MolluskContextHelper::new_without_program();
    let zero = addr(1);
    let missing = addr(2);
    ctx.fund_account(&zero, 0);

    assert_eq!(ctx.get_balance(&zero), Some(0));
    assert_eq!(ctx.get_balance(&missing), None);
    assert!(ctx.get_account(&missing).is_none());
}

#[test]
fn test_add_account_overwrites() {
    let mut ctx = MolluskContextHelper::new_without_program();
    let a = addr(1);
    ctx.add_account(&a, system_account_with_lamports(5));
    ctx.add_account(&a, system_account_with_lamports(11));
    assert_eq!(ctx.get_balance(&a), Some(11));
}

#[test]
fn test_aggregator_exact_values() {
    let result = TransactionResult {
        instruction_results: vec![
            ok_outcome(100, 3),
            InstructionOutcome {
                program_result: ProgramOutcome::Failure(
                    solana_program_error::ProgramError::Custom(7),
                ),
                compute_units_consumed: 50,
                execution_time: 2,
                raw_error: Some(solana_instruction::error::InstructionError::Custom(7)),
            },
            ok_outcome(25, 1),
        ],
        total_compute_units: 175,
        total_execution_time: 6,
    };
    assert!(!result.is_success());
    assert_eq!(result.failed_at(), Some(1));
    assert!(result.last_result().is_some());
    assert_eq!(result.last_result().unwrap().compute_units_consumed, 25);

    let all_ok = TransactionResult {
        instruction_results: vec![ok_outcome(1, 1), ok_outcome(2, 2)],
        total_compute_units: 3,
        total_execution_time: 3,
    };
    assert!(all_ok.is_success());
    assert_eq!(all_ok.failed_at(), None);

    let empty = TransactionResult::empty();
    assert!(empty.is_success());
    assert_eq!(empty.failed_at(), None);
    assert!(empty.last_result().is_none());
}

#[test]
fn test_get_token_balance_errors() {
    let mut ctx = MolluskContextHelper::new_without_program();
    let missing = addr(1);
    match ctx.get_token_balance(&missing) {
        Err(MolluskHelperError::AccountNotFound(_)) => {},
        _ => panic!("expected a lookup failure for a missing account"),
    }

    let plain = addr(2);
    ctx.fund_account(&plain, 1_000);
    match ctx.get_token_balance(&plain) {
        Err(MolluskHelperError::ProgramError(_)) => {},
        _ => panic!("expected an unpack failure for a non-token account"),
    }
}

#[test]
fn test_keypair_not_found() {
    let ctx = MolluskContextHelper::new_without_program();
    match ctx.sign_with("nobody", b"msg") {
        Err(MolluskHelperError::KeypairNotFound(_)) => {},
        _ => panic!("expected a keypair lookup failure"),
    }
    match ctx.get_keypair_pubkey("nobody") {
        Err(MolluskHelperError::KeypairNotFound(_)) => {},
        _ => panic!("expected a keypair lookup failure"),
    }
}

#[test]
fn test_associated_token_address_differs() {
    let wallet = addr(1);
    let mint = addr(2);
    let ata = get_associated_token_address(&wallet, &mint);
    assert_ne!(ata, wallet);
    assert_ne!(ata, mint);
    // The derivation is deterministic.
    assert_eq!(ata, get_associated_token_address(&wallet, &mint));
}

#[test]
fn test_build_versioned_tx_size() {
    let a = addr(1);
    let b = addr(2);
    let payer = addr(3);
    let ix = solana_system_interface::instruction::transfer(&pk(&a), &pk(&b), 1);
    let (size, limit, remaining) =
        MolluskContextHelper::build_versioned_tx_size(&payer, &vec![ix], &vec![]).unwrap();
    assert_eq!(limit, 1232);
    assert_eq!(remaining, 1232i64 - size as i64);
    // One signature plus the signature-count byte, plus a non-empty message.
    assert!(size > 65);
}

#[test]
fn test_native_token_account_balance() {
    let mut ctx = MolluskContextHelper::new_without_program();
    let owner = addr(1);
    let wrapped = addr(2);
    ctx.create_native_token_account(&wrapped, &owner, 250_000);
    assert_eq!(ctx.get_balance(&wrapped), Some(250_000));
    assert_eq!(ctx.get_token_balance(&wrapped).unwrap(), 250_000);
}

#[test]
fn test_dry_run_stops_after_first_failure() {
    let mut ctx = MolluskContextHelper::new_without_program();
    let a = addr(1);
    let b = addr(2);
    ctx.fund_account(&a, 100);
    ctx.fund_account(&b, 0);

    // Fails (insufficient funds), so the third instruction never runs.
    let ix1 = solana_system_interface::instruction::transfer(&pk(&a), &pk(&b), 50);
    let ix2 = solana_system_interface::instruction::transfer(&pk(&a), &pk(&b), 1_000_000);
    let ix3 = solana_system_interface::instruction::transfer(&pk(&a), &pk(&b), 1);

    let result = ctx
        .transaction()
        .add_instructions(vec![ix1, ix2, ix3])
        .dry_run(&mut ctx);

    assert!(!result.is_success());
    assert_eq!(result.instruction_results.len(), 2);
    assert_eq!(result.failed_at(), Some(1));
    assert_eq!(ctx.get_balance(&a), Some(100));
    assert_eq!(ctx.get_balance(&b), Some(0));
}

#[test]
fn test_update_timestamp_and_slot() {
    let mut ctx = MolluskContextHelper::new_without_program_with_timestamp(500);
    assert_eq!(ctx.get_unix_timestamp(), 500);
    ctx.update_unix_timestamp(900);
    assert_eq!(ctx.get_unix_timestamp(), 900);
    // The engine rebuilds the clock sysvar around the slot, resetting the
    // timestamp.
    ctx.warp_to_slot(33);
    assert_eq!(ctx.get_unix_timestamp(), 0);
}

#[test]
fn test_memo_instruction_executes() {
    let mut ctx = MolluskContextHelper::new_without_program();
    let memo = MolluskContextHelper::memo_program();
    let ix = solana_instruction::Instruction {
        program_id: pk(&memo),
        accounts: vec![],
        data: b"hello".to_vec(),
    };
    let outcome = ctx.process_instruction_unchecked(&ix);
    assert!(outcome.program_result.is_ok());
    assert!(outcome.compute_units_consumed > 0);
}

#[test]
fn test_token_2022_program_installed() {
    let mut ctx = MolluskContextHelper::new_without_program();
    let token_2022 = MolluskContextHelper::token_2022_program();
    // An empty instruction is rejected by the program itself, which shows
    // the engine actually ran it: compute units were consumed.
    let ix = solana_instruction::Instruction {
        program_id: pk(&token_2022),
        accounts: vec![],
        data: vec![],
    };
    let outcome = ctx.process_instruction_unchecked(&ix);
    assert!(outcome.program_result.is_err());
    assert!(outcome.compute_units_consumed > 0);
}

#[test]
fn test_uninstalled_program_is_classified() {
    let mut ctx = MolluskContextHelper::new_without_program();
    let nobody = addr(77);
    let ix = solana_instruction::Instruction {
        program_id: pk(&nobody),
        accounts: vec![],
        data: vec![],
    };
    // The engine never sees the instruction; the adapter reports an
    // unclassified engine error instead of aborting.
    let outcome = ctx.process_instruction_unchecked(&ix);
    assert!(outcome.program_result.is_err());
    assert_eq!(outcome.compute_units_consumed, 0);
    match outcome.program_result {
        mollusk_helper::ProgramOutcome::UnknownError(_) => {},
        _ => panic!("expected an unclassified engine error"),
    }

    // Strict mode reports it as a transaction failure at its index.
    let a = addr(1);
    ctx.fund_account(&a, 5);
    let ix2 = solana_instruction::Instruction {
        program_id: pk(&nobody),
        accounts: vec![],
        data: vec![],
    };
    match ctx.transaction().add_instruction(ix2).execute(&mut ctx) {
        Err(MolluskHelperError::TransactionFailed { index, error: _ }) => {
            assert_eq!(index, 0);
        },
        _ => panic!("expected a transaction failure"),
    }
    assert_eq!(ctx.get_balance(&a), Some(5));
}
