use mollusk_helper::Addr;
use mollusk_helper::MolluskContextHelper;
use mollusk_helper::ProgramLoader;
use mollusk_helper::program_ids::{
    address_lookup_table_program_id, compute_budget_program_id, memo_program_id,
    memo_v1_program_id, token_2022_program_id,
};
use solana_pubkey::Pubkey;
use solana_signer::Signer;

fn addr(tag: u8) -> Addr {
    let mut bytes = [0u8; 32];
    bytes[0] = tag;
    bytes[31] = 7;
    Addr::new(bytes)
}

fn pk(a: &Addr) -> Pubkey {
    Pubkey::new_from_array(a.bytes)
}

#[test]
fn test_constructor_variants() {
    let _ctx1 = MolluskContextHelper::new_without_program();
    let _ctx2 = MolluskContextHelper::new_without_program_with_timestamp(1000);

    let _loader_v2 = ProgramLoader::V2;
    let _loader_v3 = ProgramLoader::V3;
}

#[test]
fn test_program_id_constants() {
    assert_eq!(MolluskContextHelper::memo_program(), memo_program_id());
    assert_eq!(MolluskContextHelper::memo_v1_program(), memo_v1_program_id());
    assert_eq!(MolluskContextHelper::token_2022_program(), token_2022_program_id());
    assert_eq!(
        MolluskContextHelper::address_lookup_table_program(),
        address_lookup_table_program_id()
    );
    assert_eq!(MolluskContextHelper::compute_budget_program(), compute_budget_program_id());
}

#[test]
fn test_fund_and_transfer_sol() {
    let mut ctx = MolluskContextHelper::new_without_program();

    let alice = addr(1);
    let bob = addr(2);

    ctx.fund_account(&alice, 1_000_000);
    ctx.fund_account(&bob, 0);

    assert_eq!(ctx.get_balance(&alice), Some(1_000_000));
    assert_eq!(ctx.get_balance(&bob), Some(0));

    let result = ctx.transfer_sol(&alice, &bob, 500_000);
    assert!(result.is_ok());

    assert_eq!(ctx.get_balance(&alice), Some(500_000));
    assert_eq!(ctx.get_balance(&bob), Some(500_000));
}

#[test]
fn test_atomic_transaction_success() {
    let mut ctx = MolluskContextHelper::new_without_program();

    let alice = addr(1);
    let bob = addr(2);
    let charlie = addr(3);

    ctx.fund_account(&alice, 1_000_000);
    ctx.fund_account(&bob, 1_000_000);
    ctx.fund_account(&charlie, 0);

    let ix1 = solana_system_interface::instruction::transfer(&pk(&alice), &pk(&bob), 100_000);
    let ix2 = solana_system_interface::instruction::transfer(&pk(&bob), &pk(&charlie), 50_000);

    let result = ctx.transaction().add_instruction(ix1).add_instruction(ix2).execute(&mut ctx);

    assert!(result.is_ok());

    assert_eq!(ctx.get_balance(&alice), Some(900_000));
    assert_eq!(ctx.get_balance(&bob), Some(1_050_000));
    assert_eq!(ctx.get_balance(&charlie), Some(50_000));
}

#[test]
fn test_atomic_transaction_rollback() {
    let mut ctx = MolluskContextHelper::new_without_program();

    let alice = addr(1);
    let bob = addr(2);

    ctx.fund_account(&alice, 100_000);
    ctx.fund_account(&bob, 100_000);

    let ix1 = solana_system_interface::instruction::transfer(&pk(&alice), &pk(&bob), 50_000);
    let ix2 = solana_system_interface::instruction::transfer(&pk(&alice), &pk(&bob), 100_000); // Will fail

    let result = ctx.transaction().add_instruction(ix1).add_instruction(ix2).execute(&mut ctx);

    assert!(result.is_err());

    assert_eq!(ctx.get_balance(&alice), Some(100_000));
    assert_eq!(ctx.get_balance(&bob), Some(100_000));
}

#[test]
fn test_dry_run_no_state_change() {
    let mut ctx = MolluskContextHelper::new_without_program();

    let alice = addr(1);
    let bob = addr(2);

    ctx.fund_account(&alice, 1_000_000);
    ctx.fund_account(&bob, 0);

    let ix = solana_system_interface::instruction::transfer(&pk(&alice), &pk(&bob), 500_000);

    let result = ctx.transaction().add_instruction(ix).dry_run(&mut ctx);

    assert!(result.is_success());
    assert_eq!(ctx.get_balance(&alice), Some(1_000_000));
    assert_eq!(ctx.get_balance(&bob), Some(0));
}

#[test]
fn test_token_operations() {
    let mut ctx = MolluskContextHelper::new_without_program();

    let mint = addr(10);
    let authority = addr(11);
    let user = addr(12);
    let user_token_account = addr(13);

    ctx.fund_account(&authority, 1_000_000);
    ctx.create_mint(&mint, &authority, 9);
    ctx.create_token_account(&user_token_account, &mint, &user, 0);

    assert_eq!(ctx.get_token_balance(&user_token_account).unwrap(), 0);

    let result = ctx.mint_to(&mint, &user_token_account, &authority, 1_000_000_000);
    assert!(result.is_ok());

    assert_eq!(ctx.get_token_balance(&user_token_account).unwrap(), 1_000_000_000);
}

#[test]
fn test_keypair_storage() {
    let mut ctx = MolluskContextHelper::new_without_program();

    let keypair = solana_keypair::Keypair::new();
    let pubkey = keypair.pubkey();

    ctx.store_keypair("test_key", keypair).unwrap();

    let retrieved = ctx.get_keypair_pubkey("test_key").unwrap();
    assert_eq!(Addr::new(pubkey.to_bytes()), retrieved);

    let message = b"test message";
    let signature = ctx.sign_with("test_key", message).unwrap();
    assert_eq!(signature.len(), 64);
}

#[test]
fn test_transaction_result_helpers() {
    let mut ctx = MolluskContextHelper::new_without_program();

    let alice = addr(1);
    let bob = addr(2);

    ctx.fund_account(&alice, 1_000_000);
    ctx.fund_account(&bob, 0);

    let ix1 = solana_system_interface::instruction::transfer(&pk(&alice), &pk(&bob), 100_000);
    let ix2 = solana_system_interface::instruction::transfer(&pk(&alice), &pk(&bob), 200_000);

    let result = ctx
        .transaction()
        .add_instruction(ix1)
        .add_instruction(ix2)
        .execute(&mut ctx)
        .unwrap();

    assert!(result.is_success());
    assert!(result.failed_at().is_none());
    assert!(result.last_result().is_some());
    assert_eq!(result.instruction_results.len(), 2);
    assert!(result.total_compute_units > 0);
    assert_eq!(
        result.total_compute_units,
        result.instruction_results[0].compute_units_consumed
            + result.instruction_results[1].compute_units_consumed
    );
}

#[test]
fn test_execute_allow_failures() {
    let mut ctx = MolluskContextHelper::new_without_program();

    let alice = addr(1);
    let bob = addr(2);

    ctx.fund_account(&alice, 100_000);
    ctx.fund_account(&bob, 100_000);

    let ix1 = solana_system_interface::instruction::transfer(&pk(&alice), &pk(&bob), 50_000);
    let ix2 = solana_system_interface::instruction::transfer(&pk(&alice), &pk(&bob), 100_000); // Will fail

    let result =
        ctx.transaction().add_instruction(ix1).add_instruction(ix2).execute_allow_failures(
            &mut ctx,
        );

    assert!(!result.is_success());
    assert_eq!(result.failed_at(), Some(1));
    assert_eq!(result.instruction_results.len(), 2);

    assert_eq!(ctx.get_balance(&alice), Some(100_000));
    assert_eq!(ctx.get_balance(&bob), Some(100_000));
}
