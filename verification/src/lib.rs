pub mod addr;
pub mod error;
pub mod outcome;
pub mod engine;
pub mod keys;
pub mod program_ids;
pub mod token;
pub mod context;
pub mod transaction;
pub mod txsize;
pub mod account;
pub mod store;

pub use crate::account::AccountData;
pub use crate::addr::Addr;
pub use crate::context::MolluskContextHelper;
pub use crate::error::MolluskHelperError;
pub use crate::outcome::{InstructionOutcome, ProgramOutcome, TransactionResult};
pub use crate::transaction::TransactionBuilder;

use vstd::prelude::*;

verus! {

/// Which on-chain loader an added program is installed under.
#[derive(Debug, Clone, Copy, PartialEq, Eq)]
pub enum ProgramLoader {
    V2,
    V3,
}

} // verus!
