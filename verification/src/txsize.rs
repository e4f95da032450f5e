use vstd::prelude::*;
use crate::addr::{addr_eq, Addr};
use crate::context::MolluskContextHelper;
use crate::engine::pubkey_of_addr;

verus! {

#[verifier::external_type_specification]
#[verifier::external_body]
pub struct ExAddressLookupTableAccount(solana_message::AddressLookupTableAccount);

#[verifier::external_type_specification]
#[verifier::external_body]
pub struct ExVersionedMessage(solana_message::VersionedMessage);

/// Relies on the instructions' public account metas: each meta's address and
/// signer flag, over all instructions in order.
#[verifier::external_body]
fn instruction_signer_metas(instructions: &Vec<solana_instruction::Instruction>) -> Vec<
    (Addr, bool),
> {
    instructions
        .iter()
        .flat_map(|ix| ix.accounts.iter())
        .map(|m| (Addr { bytes: m.pubkey.to_bytes() }, m.is_signer))
        .collect()
}

/// Relies on v0::Message::try_compile with a default blockhash; absent when
/// the message cannot be compiled.
#[verifier::external_body]
fn compile_v0_message(
    payer: &Addr,
    instructions: &Vec<solana_instruction::Instruction>,
    lookup_tables: &Vec<solana_message::AddressLookupTableAccount>,
) -> Option<solana_message::VersionedMessage> {
    solana_message::v0::Message::try_compile(
        &pubkey_of_addr(payer),
        instructions,
        lookup_tables,
        solana_hash::Hash::default(),
    ).ok().map(solana_message::VersionedMessage::V0)
}

/// Relies on bincode's serialization of the message; absent when the message
/// cannot be serialized.
#[verifier::external_body]
fn serialized_message_len(message: &solana_message::VersionedMessage) -> Option<usize> {
    bincode::serialize(message).ok().map(|b| b.len())
}

/// Some meta marks this address as a signer.
pub open spec fn is_signer_key(metas: Seq<(Addr, bool)>, k: Seq<u8>) -> bool {
    exists|i: int| 0 <= i < metas.len() && metas[i].1 && metas[i].0@ == k
}

/// No two entries share an address.
pub open spec fn unique_addr_seq(s: Seq<Addr>) -> bool {
    forall|i: int, j: int| 0 <= i < j < s.len() ==> s[i]@ != s[j]@
}

/// The address appears in the list.
pub open spec fn in_addr_list(s: Seq<Addr>, k: Seq<u8>) -> bool {
    exists|i: int| 0 <= i < s.len() && s[i]@ == k
}

fn contains_addr(list: &Vec<Addr>, a: &Addr) -> (r: bool)
    ensures
        r == in_addr_list(list@, a@),
{
    let mut i: usize = 0;
    while i < list.len()
        invariant
            i <= list@.len(),
            forall|j: int| 0 <= j < i ==> list@[j]@ != a@,
        decreases list@.len() - i,
    {
        if addr_eq(&list[i], a) {
            assert(in_addr_list(list@, a@));
            return true;
        }
        i += 1;
    }
    false
}

/// The distinct signer addresses among the metas: one entry per address that
/// some meta marks as a signer, and no other.
pub fn distinct_signers(metas: &Vec<(Addr, bool)>) -> (r: Vec<Addr>)
    ensures
        unique_addr_seq(r@),
        forall|k: Seq<u8>| #[trigger] in_addr_list(r@, k) == is_signer_key(metas@, k),
{
    let n: usize = metas.len();
    let mut signers: Vec<Addr> = Vec::new();
    let mut idx: usize = 0;
    while idx < n
        invariant
            n == metas@.len(),
            idx <= n,
            unique_addr_seq(signers@),
            forall|k: Seq<u8>| #[trigger] in_addr_list(signers@, k) == is_signer_key(
                metas@.subrange(0, idx as int),
                k,
            ),
        decreases n - idx,
    {
        let ghost prev = signers@;
        let entry = metas[idx];
        if entry.1 && !contains_addr(&signers, &entry.0) {
            signers.push(entry.0);
        }
        proof {
            let seen_part = metas@.subrange(0, idx as int);
            let grown_part = metas@.subrange(0, idx as int + 1);
            assert(grown_part.drop_last() =~= seen_part);
            assert(grown_part.last() == metas@[idx as int]);
            assert forall|i: int| 0 <= i < seen_part.len() implies grown_part[i] == seen_part[i] by {}
            assert forall|k: Seq<u8>| #[trigger] in_addr_list(signers@, k) == is_signer_key(grown_part, k)
                by {
                if in_addr_list(signers@, k) {
                    let i = choose|i: int| 0 <= i < signers@.len() && signers@[i]@ == k;
                    if i < prev.len() {
                        assert(signers@[i] == prev[i]);
                        assert(in_addr_list(prev, k));
                        assert(is_signer_key(seen_part, k));
                        let w = choose|w: int| 0 <= w < seen_part.len() && seen_part[w].1 && seen_part[w].0@ == k;
                        assert(grown_part[w].1 && grown_part[w].0@ == k);
                        assert(is_signer_key(grown_part, k));
                    } else {
                        assert(signers@[i] == entry.0);
                        assert(entry.1);
                        assert(grown_part[idx as int].1 && grown_part[idx as int].0@ == k);
                        assert(is_signer_key(grown_part, k));
                    }
                }
                if is_signer_key(grown_part, k) {
                    let i = choose|i: int| 0 <= i < grown_part.len() && grown_part[i].1 && grown_part[i].0@ == k;
                    if i < seen_part.len() {
                        assert(seen_part[i] == grown_part[i]);
                        assert(is_signer_key(seen_part, k));
                        assert(in_addr_list(prev, k));
                        let w = choose|w: int| 0 <= w < prev.len() && prev[w]@ == k;
                        assert(signers@[w]@ == k);
                        assert(in_addr_list(signers@, k));
                    } else {
                        assert(grown_part[i] == metas@[idx as int]);
                        assert(entry.1 && entry.0@ == k);
                        if in_addr_list(prev, k) {
                            let w = choose|w: int| 0 <= w < prev.len() && prev[w]@ == k;
                            assert(signers@[w]@ == k);
                        } else {
                            assert(signers@.last() == entry.0);
                        }
                        assert(in_addr_list(signers@, k));
                    }
                }
            }
        }
        idx += 1;
    }
    proof {
        assert(metas@.subrange(0, n as int) =~= metas@);
    }
    signers
}

/// The size a versioned transaction would have on the wire: one byte for the
/// signature count, 64 bytes per signer (at least one), and the serialized
/// message; paired with the wire-size limit and the room left under it.
pub fn versioned_tx_size(num_signers: usize, message_len: usize) -> (r: (usize, usize, i64))
    requires
        1 + num_signers * 64 + message_len <= i64::MAX,
        1 + num_signers * 64 + message_len <= usize::MAX,
        num_signers >= 1,
    ensures
        r.0 == 1 + num_signers * 64 + message_len,
        r.1 == 1232usize,
        r.2 == 1232 - (1 + num_signers * 64 + message_len),
{
    let tx_size: usize = 1 + num_signers * 64 + message_len;
    let tx_limit: usize = 1232;
    let remaining: i64 = tx_limit as i64 - tx_size as i64;
    (tx_size, tx_limit, remaining)
}

impl MolluskContextHelper {
    /// Relies on AddressLookupTableAccount's public fields, filled one for
    /// one from the key and addresses.
    #[verifier::external_body]
    pub fn create_lookup_table_account(key: &Addr, addresses: &Vec<Addr>)
        -> solana_message::AddressLookupTableAccount {
        solana_message::AddressLookupTableAccount {
            key: pubkey_of_addr(key),
            addresses: addresses.iter().map(|a| pubkey_of_addr(a)).collect(),
        }
    }

    /// The wire size of a compiled versioned transaction holding the given
    /// instructions, against the wire-size limit. Absent when the message
    /// cannot be compiled or serialized, or the size would not fit.
    pub fn build_versioned_tx_size(
        payer: &Addr,
        instructions: &Vec<solana_instruction::Instruction>,
        lookup_tables: &Vec<solana_message::AddressLookupTableAccount>,
    ) -> (r: Option<(usize, usize, i64)>)
        ensures
            r matches Some(t) ==> t.1 == 1232usize && t.2 == 1232 - t.0,
    {
        let message = match compile_v0_message(payer, instructions, lookup_tables) {
            Some(m) => m,
            None => {
                return None;
            },
        };
        let message_len: usize = match serialized_message_len(&message) {
            Some(l) => l,
            None => {
                return None;
            },
        };
        let metas = instruction_signer_metas(instructions);
        let signers = distinct_signers(&metas);
        let num_signers: usize = if signers.len() == 0 {
            1
        } else {
            signers.len()
        };
        let total: u128 = 1 + (num_signers as u128) * 64 + (message_len as u128);
        if total > i64::MAX as u128 || total > usize::MAX as u128 {
            return None;
        }
        Some(versioned_tx_size(num_signers, message_len))
    }
}

} // verus!
