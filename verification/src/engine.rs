use vstd::prelude::*;
use crate::addr::Addr;
use crate::account::AccountData;
use crate::outcome::{InstructionOutcome, ProgramOutcome};

verus! {

#[verifier::external_type_specification]
#[verifier::external_body]
pub struct ExMollusk(mollusk_svm::Mollusk);

#[verifier::external_type_specification]
#[verifier::external_body]
pub struct ExInstructionResult(mollusk_svm::result::InstructionResult);

#[verifier::external_type_specification]
#[verifier::external_body]
pub struct ExInstruction(solana_instruction::Instruction);

#[verifier::external_type_specification]
#[verifier::external_body]
pub struct ExPubkey(solana_pubkey::Pubkey);

#[verifier::external_type_specification]
#[verifier::external_body]
pub struct ExAccount(solana_account::Account);

#[verifier::external_type_specification]
#[verifier::external_body]
pub struct ExProgramError(solana_program_error::ProgramError);

#[verifier::external_type_specification]
#[verifier::external_body]
pub struct ExInstructionError(solana_instruction::error::InstructionError);

/// Relies on ProgramError::clone, a derived clone of a plain data enum.
pub assume_specification[ <solana_program_error::ProgramError as Clone>::clone ](
    e: &solana_program_error::ProgramError,
) -> (r: solana_program_error::ProgramError)
    ensures
        r == *e,
;

/// Relies on InstructionError::clone, a derived clone of a plain data enum.
pub assume_specification[ <solana_instruction::error::InstructionError as Clone>::clone ](
    e: &solana_instruction::error::InstructionError,
) -> (r: solana_instruction::error::InstructionError)
    ensures
        r == *e,
;

/// Relies on Pubkey::to_bytes: the address's 32 raw bytes.
#[verifier::external_body]
pub(crate) fn addr_of_pubkey(k: &solana_pubkey::Pubkey) -> Addr {
    Addr { bytes: k.to_bytes() }
}

/// Relies on Pubkey::new_from_array: an address from its 32 raw bytes.
#[verifier::external_body]
pub(crate) fn pubkey_of_addr(a: &Addr) -> solana_pubkey::Pubkey {
    solana_pubkey::Pubkey::new_from_array(a.bytes)
}

/// Relies on the engine account type's public fields, copied one for one.
#[verifier::external_body]
pub(crate) fn account_from_engine(a: solana_account::Account) -> AccountData {
    AccountData {
        lamports: a.lamports,
        data: a.data,
        owner: Addr { bytes: a.owner.to_bytes() },
        executable: a.executable,
        rent_epoch: a.rent_epoch,
    }
}

/// Relies on the engine account type's public fields, copied one for one.
#[verifier::external_body]
pub(crate) fn account_to_engine(a: &AccountData) -> solana_account::Account {
    solana_account::Account {
        lamports: a.lamports,
        data: a.data.clone(),
        owner: solana_pubkey::Pubkey::new_from_array(a.owner.bytes),
        executable: a.executable,
        rent_epoch: a.rent_epoch,
    }
}

/// Relies on Mollusk::default: a fresh engine with the builtin programs loaded.
#[verifier::external_body]
pub(crate) fn engine_new() -> mollusk_svm::Mollusk {
    mollusk_svm::Mollusk::default()
}

/// Relies on mollusk_svm_programs_token::token::add_program: installs the
/// SPL token program into the engine's program cache.
#[verifier::external_body]
pub(crate) fn engine_add_token_program(m: &mut mollusk_svm::Mollusk) {
    mollusk_svm_programs_token::token::add_program(m);
}

/// Relies on mollusk_svm_programs_token::associated_token::add_program:
/// installs the associated-token program into the engine's program cache.
#[verifier::external_body]
pub(crate) fn engine_add_associated_token_program(m: &mut mollusk_svm::Mollusk) {
    mollusk_svm_programs_token::associated_token::add_program(m);
}

/// Relies on mollusk_svm_programs_memo::memo::add_program: installs the memo
/// program into the engine's program cache.
#[verifier::external_body]
pub(crate) fn engine_add_memo_program(m: &mut mollusk_svm::Mollusk) {
    mollusk_svm_programs_memo::memo::add_program(m);
}

/// Relies on mollusk_svm_programs_memo::memo_v1::add_program: installs the
/// first memo program into the engine's program cache.
#[verifier::external_body]
pub(crate) fn engine_add_memo_v1_program(m: &mut mollusk_svm::Mollusk) {
    mollusk_svm_programs_memo::memo_v1::add_program(m);
}

/// Relies on mollusk_svm_programs_token::token2022::add_program: installs
/// the token-2022 program into the engine's program cache.
#[verifier::external_body]
pub(crate) fn engine_add_token_2022_program(m: &mut mollusk_svm::Mollusk) {
    mollusk_svm_programs_token::token2022::add_program(m);
}

/// Relies on Mollusk::add_program_with_loader_and_elf with the v2 loader
/// key. The engine's loader aborts the process on ELF bytes it cannot
/// parse; that condition is a property of the loader's full verifier and
/// cannot be stated over the bytes here.
#[verifier::external_body]
pub(crate) fn engine_add_program_elf_v2(
    m: &mut mollusk_svm::Mollusk,
    program_id: &Addr,
    elf: &[u8],
) {
    m.add_program_with_loader_and_elf(
        &solana_pubkey::Pubkey::new_from_array(program_id.bytes),
        &mollusk_svm::program::loader_keys::LOADER_V2,
        elf,
    );
}

/// Relies on Mollusk::add_program_with_loader_and_elf with the v3 loader
/// key. The engine's loader aborts the process on ELF bytes it cannot
/// parse, as for the v2 form.
#[verifier::external_body]
pub(crate) fn engine_add_program_elf_v3(
    m: &mut mollusk_svm::Mollusk,
    program_id: &Addr,
    elf: &[u8],
) {
    m.add_program_with_loader_and_elf(
        &solana_pubkey::Pubkey::new_from_array(program_id.bytes),
        &mollusk_svm::program::loader_keys::LOADER_V3,
        elf,
    );
}

/// Relies on the engine's clock sysvar field: writes its unix timestamp.
#[verifier::external_body]
pub(crate) fn engine_set_timestamp(m: &mut mollusk_svm::Mollusk, timestamp: i64) {
    m.sysvars.clock.unix_timestamp = timestamp;
}

/// Relies on Mollusk::warp_to_slot: moves the slot-based sysvars to the slot.
#[verifier::external_body]
pub(crate) fn engine_warp_to_slot(m: &mut mollusk_svm::Mollusk, slot: u64) {
    m.warp_to_slot(slot);
}

/// Relies on Sysvars::get_all_keyed_sysvar_accounts: the sysvar accounts the
/// engine consults, converted to the library's account model.
#[verifier::external_body]
pub(crate) fn engine_sysvar_accounts(m: &mollusk_svm::Mollusk) -> Vec<(Addr, AccountData)> {
    m.sysvars
        .get_all_keyed_sysvar_accounts()
        .into_iter()
        .map(|(k, a)| (Addr { bytes: k.to_bytes() }, account_from_engine(a)))
        .collect()
}

/// Relies on the instruction's public `accounts` field: the address of each
/// account meta, in order.
#[verifier::external_body]
pub(crate) fn instruction_keys(ix: &solana_instruction::Instruction) -> Vec<Addr> {
    ix.accounts.iter().map(|m| Addr { bytes: m.pubkey.to_bytes() }).collect()
}

/// Relies on the instruction's public `program_id` field.
#[verifier::external_body]
pub(crate) fn instruction_program_id(ix: &solana_instruction::Instruction) -> Addr {
    Addr { bytes: ix.program_id.to_bytes() }
}

/// Relies on the InstructionError variant for a program the engine cannot
/// run; field-less, so the value depends on nothing.
#[verifier::external_body]
pub(crate) fn unsupported_program_error() -> solana_instruction::error::InstructionError {
    solana_instruction::error::InstructionError::UnsupportedProgramId
}

/// Relies on create_keyed_account_for_builtin_program: the stub account the
/// engine itself hands out for a builtin program referenced by an
/// instruction's metas.
#[verifier::external_body]
pub(crate) fn builtin_stub_account(key: &Addr) -> AccountData {
    let (_, account) = mollusk_svm::program::create_keyed_account_for_builtin_program(
        &pubkey_of_addr(key),
        "stub",
    );
    account_from_engine(account)
}

/// Relies on create_program_account_loader_v1: a stub program account under
/// the first loader.
#[verifier::external_body]
pub(crate) fn loader_v1_stub_account() -> AccountData {
    account_from_engine(mollusk_svm::program::create_program_account_loader_v1(&[]))
}

/// Relies on create_program_account_loader_v2: a stub program account under
/// the second loader.
#[verifier::external_body]
pub(crate) fn loader_v2_stub_account() -> AccountData {
    account_from_engine(mollusk_svm::program::create_program_account_loader_v2(&[]))
}

/// Relies on create_program_account_loader_v3: a stub program account under
/// the upgradeable loader, derived from the program's own address.
#[verifier::external_body]
pub(crate) fn loader_v3_stub_account(key: &Addr) -> AccountData {
    account_from_engine(mollusk_svm::program::create_program_account_loader_v3(&pubkey_of_addr(
        key,
    )))
}

/// Relies on Mollusk::process_instruction: runs one instruction against the
/// given accounts inside the engine and returns its raw result. The engine
/// aborts the process when the instruction's target program is neither in
/// its cache nor in the accounts, or when the compiled message cannot be
/// prepared; neither condition is statable over these opaque arguments, so
/// the library only calls this after checking the target program against
/// its own record of installed programs, and with one account supplied for
/// every account the instruction's metas name.
#[verifier::external_body]
pub(crate) fn engine_run(
    m: &mollusk_svm::Mollusk,
    ix: &solana_instruction::Instruction,
    accounts: &Vec<(solana_pubkey::Pubkey, solana_account::Account)>,
) -> mollusk_svm::result::InstructionResult {
    m.process_instruction(ix, accounts)
}

/// Relies on the engine result's variants: `program_result` is derived from
/// `raw_result`, so it is `Success` exactly when no raw error is present.
#[verifier::external_body]
pub(crate) fn outcome_of_result(res: &mollusk_svm::result::InstructionResult) -> (r:
    InstructionOutcome)
    ensures
        (r.raw_error is Some) <==> !(r.program_result is Success),
{
    InstructionOutcome {
        program_result: match &res.program_result {
            mollusk_svm::result::ProgramResult::Success => ProgramOutcome::Success,
            mollusk_svm::result::ProgramResult::Failure(e) => ProgramOutcome::Failure(e.clone()),
            mollusk_svm::result::ProgramResult::UnknownError(e) => ProgramOutcome::UnknownError(
                e.clone(),
            ),
        },
        compute_units_consumed: res.compute_units_consumed,
        execution_time: res.execution_time,
        raw_error: res.raw_result.clone().err(),
    }
}

/// Relies on the engine result's `resulting_accounts` field: every account
/// handed to the engine, in order, with any modifications applied.
#[verifier::external_body]
pub(crate) fn resulting_accounts(res: &mollusk_svm::result::InstructionResult) -> Vec<
    (Addr, AccountData),
> {
    res.resulting_accounts
        .iter()
        .map(|(k, a)| (Addr { bytes: k.to_bytes() }, account_from_engine(a.clone())))
        .collect()
}

} // verus!
