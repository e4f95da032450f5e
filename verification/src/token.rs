use vstd::prelude::*;
use solana_program_pack::Pack;
use crate::addr::Addr;
use crate::account::AccountData;
use crate::engine::pubkey_of_addr;
use crate::program_ids::{native_mint_bytes, token_program_bytes, token_program_id};

verus! {

/// Names the 82-byte serialized form of an initialized mint with the given
/// authority and decimals, zero supply and no freeze authority.
pub uninterp spec fn packed_mint(authority: Seq<u8>, decimals: u8) -> Seq<u8>;

/// Names the 165-byte serialized form of an initialized token account with
/// the given mint, owner, amount, and native-rent marker.
pub uninterp spec fn packed_token_account(
    mint: Seq<u8>,
    owner: Seq<u8>,
    amount: u64,
    native_rent_reserve: Option<u64>,
) -> Seq<u8>;

/// Names the amount a serialized token account holds, absent when the bytes
/// do not form an initialized token account.
pub uninterp spec fn unpacked_amount(data: Seq<u8>) -> Option<u64>;

/// Relies on spl Mint::pack: the result depends on the authority and
/// decimals alone and is always exactly Mint::LEN bytes.
#[verifier::external_body]
fn pack_mint(authority: &Addr, decimals: u8) -> (r: Vec<u8>)
    ensures
        r@ == packed_mint(authority@, decimals),
        r@.len() == 82,
{
    let mint = spl_token_interface::state::Mint {
        mint_authority: solana_program_option::COption::Some(pubkey_of_addr(authority)),
        supply: 0,
        decimals,
        is_initialized: true,
        freeze_authority: solana_program_option::COption::None,
    };
    let mut data = vec![0u8; spl_token_interface::state::Mint::LEN];
    spl_token_interface::state::Mint::pack(mint, &mut data).unwrap();
    data
}

/// Relies on spl Account::pack for a non-native token account; unpacking the
/// result yields the packed amount again.
#[verifier::external_body]
fn pack_token_account(mint: &Addr, owner: &Addr, amount: u64) -> (r: Vec<u8>)
    ensures
        r@ == packed_token_account(mint@, owner@, amount, None::<u64>),
        r@.len() == 165,
        unpacked_amount(r@) == Some(amount),
{
    let token_account = spl_token_interface::state::Account {
        mint: pubkey_of_addr(mint),
        owner: pubkey_of_addr(owner),
        amount,
        delegate: solana_program_option::COption::None,
        state: spl_token_interface::state::AccountState::Initialized,
        is_native: solana_program_option::COption::None,
        delegated_amount: 0,
        close_authority: solana_program_option::COption::None,
    };
    let mut data = vec![0u8; spl_token_interface::state::Account::LEN];
    spl_token_interface::state::Account::pack(token_account, &mut data).unwrap();
    data
}

/// Relies on spl Account::pack for a native token account, marked with a
/// zero rent reserve; unpacking the result yields the packed amount again.
#[verifier::external_body]
fn pack_native_token_account(owner: &Addr, amount: u64) -> (r: Vec<u8>)
    ensures
        r@ == packed_token_account(native_mint_bytes(), owner@, amount, Some(0u64)),
        r@.len() == 165,
        unpacked_amount(r@) == Some(amount),
{
    let token_account = spl_token_interface::state::Account {
        mint: pubkey_of_addr(&crate::program_ids::native_mint_id()),
        owner: pubkey_of_addr(owner),
        amount,
        delegate: solana_program_option::COption::None,
        state: spl_token_interface::state::AccountState::Initialized,
        is_native: solana_program_option::COption::Some(0),
        delegated_amount: 0,
        close_authority: solana_program_option::COption::None,
    };
    let mut data = vec![0u8; spl_token_interface::state::Account::LEN];
    spl_token_interface::state::Account::pack(token_account, &mut data).unwrap();
    data
}

/// Relies on spl Account::unpack: reads the amount out of a serialized token
/// account; fails exactly when the bytes do not hold one.
#[verifier::external_body]
pub(crate) fn unpack_token_amount(data: &Vec<u8>) -> (r: Result<
    u64,
    solana_program_error::ProgramError,
>)
    ensures
        (r is Ok) == (unpacked_amount(data@) is Some),
        r matches Ok(amount) ==> unpacked_amount(data@) == Some(amount),
{
    spl_token_interface::state::Account::unpack(data).map(|a| a.amount)
}

/// A mint account as seeded into the store: one billion units, owned by the
/// token program, holding the packed mint data.
pub fn create_mint_account(mint_authority: &Addr, decimals: u8) -> (r: AccountData)
    ensures
        r@.lamports == 1_000_000_000u64,
        r@.data == packed_mint(mint_authority@, decimals),
        r@.owner == token_program_bytes(),
        r@.executable == false,
        r@.rent_epoch == 0u64,
{
    AccountData {
        lamports: 1_000_000_000,
        data: pack_mint(mint_authority, decimals),
        owner: token_program_id(),
        executable: false,
        rent_epoch: 0,
    }
}

/// A token account as seeded into the store: one billion units, owned by the
/// token program, holding the packed token-account data.
pub fn create_token_account(mint: &Addr, owner: &Addr, amount: u64) -> (r: AccountData)
    ensures
        r@.lamports == 1_000_000_000u64,
        r@.data == packed_token_account(mint@, owner@, amount, None::<u64>),
        unpacked_amount(r@.data) == Some(amount),
        r@.owner == token_program_bytes(),
        r@.executable == false,
        r@.rent_epoch == 0u64,
{
    AccountData {
        lamports: 1_000_000_000,
        data: pack_token_account(mint, owner, amount),
        owner: token_program_id(),
        executable: false,
        rent_epoch: 0,
    }
}

/// A wrapped-native token account: its lamport balance equals the wrapped
/// amount, and its data marks it as native.
pub fn create_native_token_account(owner: &Addr, lamports: u64) -> (r: AccountData)
    ensures
        r@.lamports == lamports,
        r@.data == packed_token_account(native_mint_bytes(), owner@, lamports, Some(0u64)),
        unpacked_amount(r@.data) == Some(lamports),
        r@.owner == token_program_bytes(),
        r@.executable == false,
        r@.rent_epoch == 0u64,
{
    AccountData {
        lamports,
        data: pack_native_token_account(owner, lamports),
        owner: token_program_id(),
        executable: false,
        rent_epoch: 0,
    }
}

/// Relies on spl mint_to: builds a mint instruction under the token program.
#[verifier::external_body]
pub fn mint_to_instruction(
    mint: &Addr,
    destination: &Addr,
    authority: &Addr,
    amount: u64,
) -> solana_instruction::Instruction {
    spl_token_interface::instruction::mint_to(
        &spl_token_interface::id(),
        &pubkey_of_addr(mint),
        &pubkey_of_addr(destination),
        &pubkey_of_addr(authority),
        &[],
        amount,
    ).unwrap()
}

/// Relies on spl transfer: builds a transfer instruction under the token
/// program.
#[verifier::external_body]
pub fn transfer_instruction(
    source: &Addr,
    destination: &Addr,
    authority: &Addr,
    amount: u64,
) -> solana_instruction::Instruction {
    spl_token_interface::instruction::transfer(
        &spl_token_interface::id(),
        &pubkey_of_addr(source),
        &pubkey_of_addr(destination),
        &pubkey_of_addr(authority),
        &[],
        amount,
    ).unwrap()
}

/// Relies on spl sync_native: builds a native-sync instruction under the
/// token program.
#[verifier::external_body]
pub fn sync_native_instruction(token_account: &Addr) -> solana_instruction::Instruction {
    spl_token_interface::instruction::sync_native(
        &spl_token_interface::id(),
        &pubkey_of_addr(token_account),
    ).unwrap()
}

/// Relies on the associated-token interface's idempotent create builder.
#[verifier::external_body]
pub fn create_associated_token_account_instruction(
    payer: &Addr,
    wallet: &Addr,
    mint: &Addr,
) -> solana_instruction::Instruction {
    spl_associated_token_account_interface::instruction::create_associated_token_account_idempotent(
        &pubkey_of_addr(payer),
        &pubkey_of_addr(wallet),
        &pubkey_of_addr(mint),
        &spl_token_interface::id(),
    )
}

/// Names the associated-token address derived from a wallet and a mint.
pub uninterp spec fn associated_token_address(wallet: Seq<u8>, mint: Seq<u8>) -> Seq<u8>;

/// Relies on the associated-token interface's address derivation: the result
/// depends on the wallet and mint alone.
#[verifier::external_body]
pub fn get_associated_token_address(wallet: &Addr, mint: &Addr) -> (r: Addr)
    ensures
        r@ == associated_token_address(wallet@, mint@),
{
    Addr {
        bytes: spl_associated_token_account_interface::address::get_associated_token_address(
            &pubkey_of_addr(wallet),
            &pubkey_of_addr(mint),
        ).to_bytes(),
    }
}

} // verus!
