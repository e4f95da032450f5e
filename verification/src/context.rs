use vstd::prelude::*;
use crate::addr::{addr_eq, Addr};
use crate::account::{
    default_account, system_account_view, system_account_with_lamports, program_account,
    AccountData, AccountView,
};
use crate::engine::{
    account_to_engine, builtin_stub_account, engine_add_associated_token_program,
    engine_add_memo_program, engine_add_memo_v1_program, engine_add_program_elf_v2,
    engine_add_program_elf_v3, engine_add_token_2022_program, engine_add_token_program,
    engine_new, engine_run, engine_set_timestamp, engine_sysvar_accounts, engine_warp_to_slot,
    instruction_keys, instruction_program_id, loader_v1_stub_account, loader_v2_stub_account,
    loader_v3_stub_account, outcome_of_result, pubkey_of_addr, resulting_accounts,
    unsupported_program_error,
};
use crate::error::MolluskHelperError;
use crate::keys::{pubkey_from_registry, sign_with_registry, KeypairRegistry};
use crate::outcome::{outcome_consistent, require_success, InstructionOutcome, ProgramOutcome};
use crate::program_ids::{
    address_lookup_table_program_id, associated_token_program_id, compute_budget_program_id,
    instructions_sysvar_id, loader_v1_id, loader_v2_id, loader_v3_id, memo_program_id,
    memo_v1_program_id, rent_sysvar_id, token_2022_program_id, token_program_id,
};
use crate::store::{inserted, lemma_inserted_keeps_keys, InMemoryAccountStore, StoreSnapshot};
use crate::token::{
    create_mint_account, create_native_token_account, create_token_account, mint_to_instruction,
    sync_native_instruction, transfer_instruction, unpack_token_amount, unpacked_amount,
};
use crate::account::{clone_account, zero_addr};
use crate::ProgramLoader;

verus! {

/// Relies on std::time::SystemTime::now: seconds since the Unix epoch;
/// stops the process if the clock reads before the epoch.
#[verifier::external_body]
fn system_time_now_secs() -> u64 {
    std::time::SystemTime::now()
        .duration_since(std::time::UNIX_EPOCH)
        .expect("Time went backwards")
        .as_secs()
}

/// Relies on Pubkey's base58 Display form.
#[verifier::external_body]
fn addr_display(a: &Addr) -> String {
    pubkey_of_addr(a).to_string()
}

/// Relies on the system interface's transfer builder.
#[verifier::external_body]
fn transfer_sol_instruction(from: &Addr, to: &Addr, lamports: u64) -> solana_instruction::Instruction {
    solana_system_interface::instruction::transfer(
        &pubkey_of_addr(from),
        &pubkey_of_addr(to),
        lamports,
    )
}

/// Some entry of the installed-program record carries this address.
spec fn in_program_list(s: Seq<(Addr, InstalledLoader)>, k: Seq<u8>) -> bool {
    exists|i: int| 0 <= i < s.len() && s[i].0@ == k
}

/// Which loader owns an installed program, deciding the stub account the
/// engine expects when an instruction's metas reference the program.
#[derive(Clone, Copy)]
pub(crate) enum InstalledLoader {
    Builtin,
    V1,
    V2,
    V3,
}

/// The test context: the execution engine, the account store it runs
/// against, a record of the programs installed in the engine, the engine's
/// logical clock, and a keypair registry.
pub struct MolluskContextHelper {
    engine: mollusk_svm::Mollusk,
    store: InMemoryAccountStore,
    programs: Vec<(Addr, InstalledLoader)>,
    clock_timestamp: i64,
    keypairs: KeypairRegistry,
}

impl MolluskContextHelper {
    pub closed spec fn inv(&self) -> bool {
        self.store.wf() && self.keypairs.wf()
    }

    /// The store's contents: the observable state a transaction mutates.
    pub closed spec fn accounts(&self) -> Map<Seq<u8>, AccountView> {
        self.store@
    }

    /// Whether a keypair is registered under the name.
    pub closed spec fn has_keypair(&self, name: Seq<char>) -> bool {
        self.keypairs.has_name(name)
    }

    /// Whether a program with this address is installed in the engine.
    pub closed spec fn has_program(&self, key: Seq<u8>) -> bool {
        in_program_list(self.programs@, key)
    }

    /// The engine's logical clock, as the context last set it.
    pub closed spec fn unix_timestamp(&self) -> i64 {
        self.clock_timestamp
    }

    /// The programs every fresh context has: the engine's builtins plus the
    /// token, associated-token, token-2022 and memo programs.
    pub open spec fn default_programs_installed(c: &MolluskContextHelper) -> bool {
        &&& c.has_program(crate::account::zero_addr_bytes())
        &&& c.has_program(crate::program_ids::loader_v1_bytes())
        &&& c.has_program(crate::program_ids::loader_v2_bytes())
        &&& c.has_program(crate::program_ids::loader_v3_bytes())
        &&& c.has_program(crate::program_ids::token_program_bytes())
        &&& c.has_program(crate::program_ids::associated_token_program_bytes())
        &&& c.has_program(crate::program_ids::token_2022_program_bytes())
        &&& c.has_program(crate::program_ids::memo_program_bytes())
        &&& c.has_program(crate::program_ids::memo_v1_program_bytes())
    }

    /// The engine after `Mollusk::default` plus the default helper programs,
    /// with a matching record of what is installed.
    fn default_engine() -> (r: (mollusk_svm::Mollusk, Vec<(Addr, InstalledLoader)>))
        ensures
            forall|k: Seq<u8>| #[trigger] in_program_list(r.1@, k) == (k
                == crate::account::zero_addr_bytes() || k == crate::program_ids::loader_v1_bytes()
                || k == crate::program_ids::loader_v2_bytes() || k
                == crate::program_ids::loader_v3_bytes() || k
                == crate::program_ids::token_program_bytes() || k
                == crate::program_ids::associated_token_program_bytes() || k
                == crate::program_ids::token_2022_program_bytes() || k
                == crate::program_ids::memo_program_bytes() || k
                == crate::program_ids::memo_v1_program_bytes()),
    {
        let mut engine = engine_new();
        engine_add_token_program(&mut engine);
        engine_add_associated_token_program(&mut engine);
        engine_add_token_2022_program(&mut engine);
        engine_add_memo_program(&mut engine);
        engine_add_memo_v1_program(&mut engine);
        let mut programs: Vec<(Addr, InstalledLoader)> = Vec::new();
        programs.push((zero_addr(), InstalledLoader::Builtin));
        programs.push((loader_v1_id(), InstalledLoader::Builtin));
        programs.push((loader_v2_id(), InstalledLoader::Builtin));
        programs.push((loader_v3_id(), InstalledLoader::Builtin));
        programs.push((token_program_id(), InstalledLoader::V2));
        programs.push((associated_token_program_id(), InstalledLoader::V2));
        programs.push((token_2022_program_id(), InstalledLoader::V3));
        programs.push((memo_program_id(), InstalledLoader::V2));
        programs.push((memo_v1_program_id(), InstalledLoader::V1));
        proof {
            assert forall|k: Seq<u8>| #[trigger] in_program_list(programs@, k) implies (k
                == crate::account::zero_addr_bytes() || k == crate::program_ids::loader_v1_bytes()
                || k == crate::program_ids::loader_v2_bytes() || k
                == crate::program_ids::loader_v3_bytes() || k
                == crate::program_ids::token_program_bytes() || k
                == crate::program_ids::associated_token_program_bytes() || k
                == crate::program_ids::token_2022_program_bytes() || k
                == crate::program_ids::memo_program_bytes() || k
                == crate::program_ids::memo_v1_program_bytes()) by {
                let i = choose|i: int|
                    0 <= i < programs@.len() && programs@[i].0@ == k;
            }
            assert(in_program_list(programs@, crate::account::zero_addr_bytes())) by {
                assert(programs@[0].0@ == crate::account::zero_addr_bytes());
            }
            assert(programs@[1].0@ == crate::program_ids::loader_v1_bytes());
            assert(programs@[2].0@ == crate::program_ids::loader_v2_bytes());
            assert(programs@[3].0@ == crate::program_ids::loader_v3_bytes());
            assert(programs@[4].0@ == crate::program_ids::token_program_bytes());
            assert(programs@[5].0@ == crate::program_ids::associated_token_program_bytes());
            assert(programs@[6].0@ == crate::program_ids::token_2022_program_bytes());
            assert(programs@[7].0@ == crate::program_ids::memo_program_bytes());
            assert(programs@[8].0@ == crate::program_ids::memo_v1_program_bytes());
        }
        (engine, programs)
    }

    fn assemble(
        engine: mollusk_svm::Mollusk,
        programs: Vec<(Addr, InstalledLoader)>,
        unix_timestamp: i64,
    ) -> (r: MolluskContextHelper)
        ensures
            r.inv(),
            r.accounts() == Map::<Seq<u8>, AccountView>::empty(),
            forall|n: Seq<char>| !r.has_keypair(n),
            forall|k: Seq<u8>| #[trigger] r.has_program(k) == in_program_list(programs@, k),
            r.unix_timestamp() == unix_timestamp,
    {
        MolluskContextHelper {
            engine,
            store: InMemoryAccountStore::new(),
            programs,
            clock_timestamp: unix_timestamp,
            keypairs: KeypairRegistry::new(),
        }
    }

    /// A context with the given program installed under the v3 loader and
    /// the clock set to the machine's time.
    pub fn new(program_id: &Addr, elf_bytes: &[u8]) -> (r: MolluskContextHelper)
        ensures
            r.inv(),
            r.accounts() == Map::<Seq<u8>, AccountView>::empty(),
            forall|n: Seq<char>| !r.has_keypair(n),
            Self::default_programs_installed(&r),
            r.has_program(program_id@),
    {
        Self::new_with_options(program_id, elf_bytes, ProgramLoader::V3, Self::current_unix_timestamp())
    }

    /// A context with the given program and an explicit clock value.
    pub fn new_with_timestamp(program_id: &Addr, elf_bytes: &[u8], unix_timestamp: u64) -> (r:
        MolluskContextHelper)
        ensures
            r.inv(),
            r.accounts() == Map::<Seq<u8>, AccountView>::empty(),
            forall|n: Seq<char>| !r.has_keypair(n),
            Self::default_programs_installed(&r),
            r.has_program(program_id@),
            r.unix_timestamp() == unix_timestamp as i64,
    {
        Self::new_with_options(program_id, elf_bytes, ProgramLoader::V3, unix_timestamp)
    }

    /// A context with the given program under an explicit loader.
    pub fn new_with_loader(program_id: &Addr, elf_bytes: &[u8], loader: ProgramLoader) -> (r:
        MolluskContextHelper)
        ensures
            r.inv(),
            r.accounts() == Map::<Seq<u8>, AccountView>::empty(),
            forall|n: Seq<char>| !r.has_keypair(n),
            Self::default_programs_installed(&r),
            r.has_program(program_id@),
    {
        Self::new_with_options(program_id, elf_bytes, loader, Self::current_unix_timestamp())
    }

    /// A context with the given program, loader and clock value; the default
    /// token, token-2022 and memo programs are always installed beside it.
    pub fn new_with_options(
        program_id: &Addr,
        elf_bytes: &[u8],
        loader: ProgramLoader,
        unix_timestamp: u64,
    ) -> (r: MolluskContextHelper)
        ensures
            r.inv(),
            r.accounts() == Map::<Seq<u8>, AccountView>::empty(),
            forall|n: Seq<char>| !r.has_keypair(n),
            Self::default_programs_installed(&r),
            r.has_program(program_id@),
            r.unix_timestamp() == unix_timestamp as i64,
    {
        let mut helper = Self::new_without_program_with_timestamp(unix_timestamp);
        helper.add_program_with_loader(program_id, elf_bytes, loader);
        helper
    }

    /// A context with no caller program, clocked at the machine's time.
    pub fn new_without_program() -> (r: MolluskContextHelper)
        ensures
            r.inv(),
            r.accounts() == Map::<Seq<u8>, AccountView>::empty(),
            forall|n: Seq<char>| !r.has_keypair(n),
            Self::default_programs_installed(&r),
    {
        Self::new_without_program_with_timestamp(Self::current_unix_timestamp())
    }

    /// A context with no caller program and an explicit clock value.
    pub fn new_without_program_with_timestamp(unix_timestamp: u64) -> (r: MolluskContextHelper)
        ensures
            r.inv(),
            r.accounts() == Map::<Seq<u8>, AccountView>::empty(),
            forall|n: Seq<char>| !r.has_keypair(n),
            Self::default_programs_installed(&r),
            r.unix_timestamp() == unix_timestamp as i64,
    {
        let (mut engine, programs) = Self::default_engine();
        engine_set_timestamp(&mut engine, unix_timestamp as i64);
        Self::assemble(engine, programs, unix_timestamp as i64)
    }

    /// Installs another program under the v3 loader.
    pub fn add_program(&mut self, program_id: &Addr, elf_bytes: &[u8])
        requires
            old(self).inv(),
        ensures
            final(self).inv(),
            final(self).accounts() == old(self).accounts(),
            final(self).has_program(program_id@),
            forall|k: Seq<u8>|
                #[trigger] old(self).has_program(k) ==> final(self).has_program(k),
            final(self).unix_timestamp() == old(self).unix_timestamp(),
            forall|n: Seq<char>| #[trigger] final(self).has_keypair(n) == old(self).has_keypair(n),
    {
        self.add_program_with_loader(program_id, elf_bytes, ProgramLoader::V3);
    }

    /// Installs another program under an explicit loader.
    pub fn add_program_with_loader(&mut self, program_id: &Addr, elf_bytes: &[u8], loader: ProgramLoader)
        requires
            old(self).inv(),
        ensures
            final(self).inv(),
            final(self).accounts() == old(self).accounts(),
            final(self).has_program(program_id@),
            forall|k: Seq<u8>|
                #[trigger] old(self).has_program(k) ==> final(self).has_program(k),
            final(self).unix_timestamp() == old(self).unix_timestamp(),
            forall|n: Seq<char>| #[trigger] final(self).has_keypair(n) == old(self).has_keypair(n),
    {
        let kind: InstalledLoader = match loader {
            ProgramLoader::V2 => {
                engine_add_program_elf_v2(&mut self.engine, program_id, elf_bytes);
                InstalledLoader::V2
            },
            ProgramLoader::V3 => {
                engine_add_program_elf_v3(&mut self.engine, program_id, elf_bytes);
                InstalledLoader::V3
            },
        };
        self.programs.push((*program_id, kind));
        proof {
            let last: int = self.programs@.len() - 1;
            assert(self.programs@[last].0@ == program_id@);
            assert forall|k: Seq<u8>| #[trigger] old(self).has_program(k) implies self.has_program(
                k,
            ) by {
                let i = choose|i: int|
                    0 <= i < old(self).programs@.len() && old(self).programs@[i].0@ == k;
                assert(self.programs@[i].0@ == k);
            }
        }
    }

    /// The machine's clock, as seconds since the Unix epoch.
    pub fn current_unix_timestamp() -> u64 {
        system_time_now_secs()
    }

    /// The loader an installed program was recorded under, when the address
    /// is in the record.
    fn find_program_kind(&self, key: &Addr) -> (r: Option<InstalledLoader>)
        ensures
            (r is Some) == self.has_program(key@),
    {
        let mut i: usize = 0;
        while i < self.programs.len()
            invariant
                i <= self.programs@.len(),
                forall|j: int| 0 <= j < i ==> self.programs@[j].0@ != key@,
            decreases self.programs@.len() - i,
        {
            if addr_eq(&self.programs[i].0, key) {
                proof {
                    assert(self.has_program(key@));
                }
                return Some(self.programs[i].1);
            }
            i += 1;
        }
        None
    }

    /// The stub account the engine expects for an installed program that an
    /// instruction's metas reference, by the program's recorded loader.
    fn program_stub_account(key: &Addr, kind: InstalledLoader) -> AccountData {
        match kind {
            InstalledLoader::Builtin => builtin_stub_account(key),
            InstalledLoader::V1 => loader_v1_stub_account(),
            InstalledLoader::V2 => loader_v2_stub_account(),
            InstalledLoader::V3 => loader_v3_stub_account(key),
        }
    }

    /// Looks a key up in the engine's sysvar account list.
    fn find_sysvar(sysvars: &Vec<(Addr, AccountData)>, key: &Addr) -> (r: Option<AccountData>) {
        let mut i: usize = 0;
        while i < sysvars.len()
            decreases sysvars@.len() - i,
        {
            if addr_eq(&sysvars[i].0, key) {
                return Some(clone_account(&sysvars[i].1));
            }
            i += 1;
        }
        None
    }

    /// Feeds one instruction to the engine against the current store. Each
    /// account the instruction's metas name is supplied from the store, or
    /// failing that from the engine's sysvar set, a stub for an installed
    /// program, or an empty default. On success the engine's resulting
    /// accounts are written back in order; on failure the store is left
    /// untouched. An instruction whose target program was never installed is
    /// not handed to the engine at all: it is reported as an unclassified
    /// engine error. The outcome carries a failure detail exactly when it is
    /// not a success, and no address present in the store is ever removed.
    pub fn process_instruction_unchecked(&mut self, instruction: &solana_instruction::Instruction)
        -> (r: InstructionOutcome)
        requires
            old(self).inv(),
        ensures
            final(self).inv(),
            outcome_consistent(r),
            !(r.program_result is Success) ==> final(self).accounts() == old(self).accounts(),
            r.program_result is Success ==> exists|outs: Seq<(Addr, AccountData)>|
                final(self).accounts() == inserted(old(self).accounts(), outs),
            forall|k: Seq<u8>|
                #[trigger] old(self).accounts().contains_key(k) ==> final(self).accounts().contains_key(k),
            final(self).unix_timestamp() == old(self).unix_timestamp(),
            forall|k: Seq<u8>| #[trigger] final(self).has_program(k) == old(self).has_program(k),
            forall|n: Seq<char>| #[trigger] final(self).has_keypair(n) == old(self).has_keypair(n),
    {
        let program = instruction_program_id(instruction);
        if self.find_program_kind(&program).is_none() {
            return InstructionOutcome {
                program_result: ProgramOutcome::UnknownError(unsupported_program_error()),
                compute_units_consumed: 0,
                execution_time: 0,
                raw_error: Some(unsupported_program_error()),
            };
        }
        let keys = instruction_keys(instruction);
        let sysvars = engine_sysvar_accounts(&self.engine);
        let ix_sysvar = instructions_sysvar_id();
        let mut lib_accounts: Vec<(Addr, AccountData)> = Vec::new();
        let mut i: usize = 0;
        while i < keys.len()
            invariant
                self.inv(),
            decreases keys@.len() - i,
        {
            let key = keys[i];
            if !addr_eq(&key, &ix_sysvar) {
                match self.store.get_account(&key) {
                    Some(account) => lib_accounts.push((key, account)),
                    None => match Self::find_sysvar(&sysvars, &key) {
                        Some(account) => lib_accounts.push((key, account)),
                        None => match self.find_program_kind(&key) {
                            Some(kind) => lib_accounts.push(
                                (key, Self::program_stub_account(&key, kind)),
                            ),
                            None => lib_accounts.push((key, default_account())),
                        },
                    },
                }
            }
            i += 1;
        }
        let mut engine_accounts: Vec<(solana_pubkey::Pubkey, solana_account::Account)> =
            Vec::new();
        let mut j: usize = 0;
        while j < lib_accounts.len()
            decreases lib_accounts@.len() - j,
        {
            let pair = &lib_accounts[j];
            engine_accounts.push((pubkey_of_addr(&pair.0), account_to_engine(&pair.1)));
            j += 1;
        }
        let res = engine_run(&self.engine, instruction, &engine_accounts);
        let outcome = outcome_of_result(&res);
        if outcome.program_result.is_ok() {
            let ghost pre_map = self.accounts();
            let outs = resulting_accounts(&res);
            let mut k: usize = 0;
            while k < outs.len()
                invariant
                    self.inv(),
                    k <= outs@.len(),
                    self.accounts() == inserted(pre_map, outs@.subrange(0, k as int)),
                    self.clock_timestamp == old(self).clock_timestamp,
                    self.programs@ == old(self).programs@,
                    self.keypairs == old(self).keypairs,
                decreases outs@.len() - k,
            {
                let pair = &outs[k];
                self.store.store_account(pair.0, clone_account(&pair.1));
                proof {
                    assert(outs@.subrange(0, k as int + 1).drop_last() =~= outs@.subrange(
                        0,
                        k as int,
                    ));
                    assert(outs@.subrange(0, k as int + 1).last() == outs@[k as int]);
                }
                k += 1;
            }
            proof {
                assert(outs@.subrange(0, outs@.len() as int) =~= outs@);
                lemma_inserted_keeps_keys(pre_map, outs@);
                assert(exists|o: Seq<(Addr, AccountData)>|
                    self.accounts() == inserted(old(self).accounts(), o));
            }
        }
        outcome
    }

    /// Runs one instruction and turns a non-success outcome into the
    /// corresponding typed error; on an error the store is unchanged.
    pub fn process_instruction(&mut self, instruction: &solana_instruction::Instruction) -> (r:
        Result<InstructionOutcome, MolluskHelperError>)
        requires
            old(self).inv(),
        ensures
            final(self).inv(),
            match r {
                Ok(o) => o.program_result is Success,
                Err(e) => e is ProgramError || e is InstructionFailed,
            },
            r is Err ==> final(self).accounts() == old(self).accounts(),
            forall|k: Seq<u8>|
                #[trigger] old(self).accounts().contains_key(k) ==> final(self).accounts().contains_key(k),
            final(self).unix_timestamp() == old(self).unix_timestamp(),
            forall|k: Seq<u8>| #[trigger] final(self).has_program(k) == old(self).has_program(k),
            forall|n: Seq<char>| #[trigger] final(self).has_keypair(n) == old(self).has_keypair(n),
    {
        let outcome = self.process_instruction_unchecked(instruction);
        require_success(outcome)
    }

    pub(crate) fn snapshot_accounts(&self) -> (r: StoreSnapshot)
        requires
            self.inv(),
        ensures
            r.wf(),
            r@ == self.accounts(),
    {
        self.store.snapshot()
    }

    pub(crate) fn restore_accounts(&mut self, snapshot: StoreSnapshot)
        requires
            old(self).inv(),
            snapshot.wf(),
        ensures
            final(self).inv(),
            final(self).accounts() == snapshot@,
            final(self).unix_timestamp() == old(self).unix_timestamp(),
            forall|k: Seq<u8>| #[trigger] final(self).has_program(k) == old(self).has_program(k),
            forall|n: Seq<char>| #[trigger] final(self).has_keypair(n) == old(self).has_keypair(n),
    {
        self.store.restore(snapshot);
    }

    /// Restoring a snapshot taken from the current state is a no-op on the
    /// store's observable contents.
    pub fn snapshot_restore_roundtrip(&mut self)
        requires
            old(self).inv(),
        ensures
            final(self).inv(),
            final(self).accounts() == old(self).accounts(),
    {
        let snapshot = self.snapshot_accounts();
        self.restore_accounts(snapshot);
    }

    /// Inserts or overwrites the record at the address.
    pub fn add_account(&mut self, address: &Addr, account: AccountData)
        requires
            old(self).inv(),
        ensures
            final(self).inv(),
            final(self).accounts() == old(self).accounts().insert(address@, account@),
    {
        self.store.add_account(*address, account);
    }

    /// The record at the address, or `None` when the account does not exist.
    pub fn get_account(&self, address: &Addr) -> (r: Option<AccountData>)
        requires
            self.inv(),
        ensures
            match r {
                Some(a) => self.accounts().contains_key(address@) && a@ == self.accounts()[address@],
                None => !self.accounts().contains_key(address@),
            },
    {
        self.store.get_account(address)
    }

    /// The balance at the address, or `None` when the account does not exist.
    pub fn get_balance(&self, address: &Addr) -> (r: Option<u64>)
        requires
            self.inv(),
        ensures
            r == if self.accounts().contains_key(address@) {
                Some(self.accounts()[address@].lamports)
            } else {
                None::<u64>
            },
    {
        self.store.get_balance(address)
    }

    /// Seeds a plain system account holding the given balance.
    pub fn fund_account(&mut self, address: &Addr, lamports: u64)
        requires
            old(self).inv(),
        ensures
            final(self).inv(),
            final(self).accounts() == old(self).accounts().insert(
                address@,
                system_account_view(lamports),
            ),
    {
        let account = system_account_with_lamports(lamports);
        self.add_account(address, account);
    }

    /// Seeds a program-owned account with the given payload.
    pub fn add_program_account(&mut self, address: &Addr, owner: &Addr, data: Vec<u8>)
        requires
            old(self).inv(),
        ensures
            final(self).inv(),
            final(self).accounts().contains_key(address@),
            final(self).accounts()[address@].data == data@,
            final(self).accounts()[address@].owner == owner@,
            forall|k: Seq<u8>|
                k != address@ ==> #[trigger] final(self).accounts().contains_key(k) == old(self).accounts().contains_key(k) && (old(self).accounts().contains_key(k) ==> final(self).accounts()[k] == old(self).accounts()[k]),
    {
        let account = program_account(owner, data);
        self.add_account(address, account);
    }

    /// Registers a keypair under a name; other names are unaffected.
    pub fn store_keypair(&mut self, name: &str, keypair: solana_keypair::Keypair) -> (r: Result<
        (),
        MolluskHelperError,
    >)
        requires
            old(self).inv(),
        ensures
            final(self).inv(),
            r is Ok,
            final(self).accounts() == old(self).accounts(),
            final(self).has_keypair(name@),
            forall|n: Seq<char>| n != name@ ==> final(self).has_keypair(n) == old(self).has_keypair(n),
    {
        self.keypairs.store(name.to_string(), keypair);
        Ok(())
    }

    /// Signs a message with the named keypair; fails with a lookup error
    /// exactly when the name is not registered.
    pub fn sign_with(&self, name: &str, message: &[u8]) -> (r: Result<[u8; 64], MolluskHelperError>)
        ensures
            (r is Ok) == self.has_keypair(name@),
            r matches Err(e) ==> e is KeypairNotFound,
    {
        sign_with_registry(&self.keypairs, &name.to_string(), message)
    }

    /// The public key of the named keypair; fails with a lookup error
    /// exactly when the name is not registered.
    pub fn get_keypair_pubkey(&self, name: &str) -> (r: Result<Addr, MolluskHelperError>)
        ensures
            (r is Ok) == self.has_keypair(name@),
            r matches Err(e) ==> e is KeypairNotFound,
    {
        pubkey_from_registry(&self.keypairs, &name.to_string())
    }

    /// Writes the engine's logical clock.
    pub fn update_unix_timestamp(&mut self, timestamp: i64)
        requires
            old(self).inv(),
        ensures
            final(self).inv(),
            final(self).accounts() == old(self).accounts(),
            final(self).unix_timestamp() == timestamp,
            forall|k: Seq<u8>| #[trigger] final(self).has_program(k) == old(self).has_program(k),
            forall|n: Seq<char>| #[trigger] final(self).has_keypair(n) == old(self).has_keypair(n),
    {
        engine_set_timestamp(&mut self.engine, timestamp);
        self.clock_timestamp = timestamp;
    }

    /// Reads the engine's logical clock, as the context last set it.
    pub fn get_unix_timestamp(&self) -> (r: i64)
        ensures
            r == self.unix_timestamp(),
    {
        self.clock_timestamp
    }

    /// Moves the engine's slot-based sysvars to the given slot. The engine
    /// rebuilds its clock sysvar around the slot, which resets the unix
    /// timestamp to zero.
    pub fn warp_to_slot(&mut self, slot: u64)
        requires
            old(self).inv(),
        ensures
            final(self).inv(),
            final(self).accounts() == old(self).accounts(),
            final(self).unix_timestamp() == 0i64,
            forall|k: Seq<u8>| #[trigger] final(self).has_program(k) == old(self).has_program(k),
            forall|n: Seq<char>| #[trigger] final(self).has_keypair(n) == old(self).has_keypair(n),
    {
        engine_warp_to_slot(&mut self.engine, slot);
        self.clock_timestamp = 0;
    }

    /// Seeds a mint account for the given authority and decimals.
    pub fn create_mint(&mut self, mint: &Addr, authority: &Addr, decimals: u8)
        requires
            old(self).inv(),
        ensures
            final(self).inv(),
            final(self).accounts().contains_key(mint@),
            final(self).accounts()[mint@].data == crate::token::packed_mint(authority@, decimals),
            forall|k: Seq<u8>|
                k != mint@ ==> #[trigger] final(self).accounts().contains_key(k) == old(self).accounts().contains_key(k) && (old(self).accounts().contains_key(k) ==> final(self).accounts()[k] == old(self).accounts()[k]),
    {
        let account = create_mint_account(authority, decimals);
        self.add_account(mint, account);
    }

    /// Seeds a token account holding the given amount.
    pub fn create_token_account(&mut self, token_account: &Addr, mint: &Addr, owner: &Addr, amount: u64)
        requires
            old(self).inv(),
        ensures
            final(self).inv(),
            final(self).accounts().contains_key(token_account@),
            unpacked_amount(final(self).accounts()[token_account@].data) == Some(amount),
            forall|k: Seq<u8>|
                k != token_account@ ==> #[trigger] final(self).accounts().contains_key(k) == old(self).accounts().contains_key(k) && (old(self).accounts().contains_key(k) ==> final(self).accounts()[k] == old(self).accounts()[k]),
    {
        let account = create_token_account(mint, owner, amount);
        self.add_account(token_account, account);
    }

    /// Seeds a wrapped-native token account holding the given balance.
    pub fn create_native_token_account(&mut self, token_account: &Addr, owner: &Addr, lamports: u64)
        requires
            old(self).inv(),
        ensures
            final(self).inv(),
            final(self).accounts().contains_key(token_account@),
            unpacked_amount(final(self).accounts()[token_account@].data) == Some(lamports),
            final(self).accounts()[token_account@].lamports == lamports,
    {
        let account = create_native_token_account(owner, lamports);
        self.add_account(token_account, account);
    }

    /// The amount held by a token account in the store. Fails with a lookup
    /// error when the account does not exist, and with the engine's error
    /// when its payload is not a token account.
    pub fn get_token_balance(&self, token_account: &Addr) -> (r: Result<u64, MolluskHelperError>)
        requires
            self.inv(),
        ensures
            !self.accounts().contains_key(token_account@) ==> (r matches Err(e)
                && e is AccountNotFound),
            self.accounts().contains_key(token_account@) ==> match unpacked_amount(
                self.accounts()[token_account@].data,
            ) {
                Some(amount) => r == Ok::<u64, MolluskHelperError>(amount),
                None => (r matches Err(e) && e is ProgramError),
            },
    {
        match self.store.get_account(token_account) {
            Some(account) => match unpack_token_amount(&account.data) {
                Ok(amount) => Ok(amount),
                Err(e) => Err(MolluskHelperError::ProgramError(e)),
            },
            None => Err(MolluskHelperError::AccountNotFound(addr_display(token_account))),
        }
    }

    /// Builds and runs a mint instruction.
    pub fn mint_to(&mut self, mint: &Addr, destination: &Addr, authority: &Addr, amount: u64) -> (r:
        Result<InstructionOutcome, MolluskHelperError>)
        requires
            old(self).inv(),
        ensures
            final(self).inv(),
            match r {
                Ok(o) => o.program_result is Success,
                Err(e) => e is ProgramError || e is InstructionFailed,
            },
            r is Err ==> final(self).accounts() == old(self).accounts(),
    {
        let ix = mint_to_instruction(mint, destination, authority, amount);
        self.process_instruction(&ix)
    }

    /// Builds and runs a token transfer instruction.
    pub fn transfer_tokens(&mut self, source: &Addr, destination: &Addr, authority: &Addr, amount: u64)
        -> (r: Result<InstructionOutcome, MolluskHelperError>)
        requires
            old(self).inv(),
        ensures
            final(self).inv(),
            match r {
                Ok(o) => o.program_result is Success,
                Err(e) => e is ProgramError || e is InstructionFailed,
            },
            r is Err ==> final(self).accounts() == old(self).accounts(),
    {
        let ix = transfer_instruction(source, destination, authority, amount);
        self.process_instruction(&ix)
    }

    /// Builds and runs a native-sync instruction.
    pub fn sync_native(&mut self, token_account: &Addr) -> (r: Result<
        InstructionOutcome,
        MolluskHelperError,
    >)
        requires
            old(self).inv(),
        ensures
            final(self).inv(),
            match r {
                Ok(o) => o.program_result is Success,
                Err(e) => e is ProgramError || e is InstructionFailed,
            },
            r is Err ==> final(self).accounts() == old(self).accounts(),
    {
        let ix = sync_native_instruction(token_account);
        self.process_instruction(&ix)
    }

    /// Builds and runs a system transfer instruction.
    pub fn transfer_sol(&mut self, from: &Addr, to: &Addr, lamports: u64) -> (r: Result<
        InstructionOutcome,
        MolluskHelperError,
    >)
        requires
            old(self).inv(),
        ensures
            final(self).inv(),
            match r {
                Ok(o) => o.program_result is Success,
                Err(e) => e is ProgramError || e is InstructionFailed,
            },
            r is Err ==> final(self).accounts() == old(self).accounts(),
    {
        let ix = transfer_sol_instruction(from, to, lamports);
        self.process_instruction(&ix)
    }

    /// The associated-token address for a wallet and mint.
    pub fn get_associated_token_address(&self, wallet: &Addr, mint: &Addr) -> (r: Addr)
        ensures
            r@ == crate::token::associated_token_address(wallet@, mint@),
    {
        crate::token::get_associated_token_address(wallet, mint)
    }

    pub fn system_program() -> (r: Addr)
        ensures
            r@ == crate::account::zero_addr_bytes(),
    {
        zero_addr()
    }

    pub fn token_program() -> (r: Addr)
        ensures
            r@ == crate::program_ids::token_program_bytes(),
    {
        token_program_id()
    }

    pub fn token_2022_program() -> (r: Addr)
        ensures
            r@ == crate::program_ids::token_2022_program_bytes(),
    {
        token_2022_program_id()
    }

    pub fn associated_token_program() -> (r: Addr)
        ensures
            r@ == crate::program_ids::associated_token_program_bytes(),
    {
        associated_token_program_id()
    }

    pub fn memo_program() -> (r: Addr)
        ensures
            r@ == crate::program_ids::memo_program_bytes(),
    {
        memo_program_id()
    }

    pub fn memo_v1_program() -> (r: Addr)
        ensures
            r@ == crate::program_ids::memo_v1_program_bytes(),
    {
        memo_v1_program_id()
    }

    pub fn address_lookup_table_program() -> (r: Addr)
        ensures
            r@ == crate::program_ids::address_lookup_table_program_bytes(),
    {
        address_lookup_table_program_id()
    }

    pub fn compute_budget_program() -> (r: Addr)
        ensures
            r@ == crate::program_ids::compute_budget_program_bytes(),
    {
        compute_budget_program_id()
    }

    pub fn native_mint() -> (r: Addr)
        ensures
            r@ == crate::program_ids::native_mint_bytes(),
    {
        crate::program_ids::native_mint_id()
    }

    pub fn rent_sysvar() -> (r: Addr)
        ensures
            r@ == crate::program_ids::rent_sysvar_bytes(),
    {
        rent_sysvar_id()
    }

    /// Builds the associated-token-account creation instruction.
    pub fn create_associated_token_account_instruction(payer: &Addr, wallet: &Addr, mint: &Addr)
        -> solana_instruction::Instruction {
        crate::token::create_associated_token_account_instruction(payer, wallet, mint)
    }
}

} // verus!
