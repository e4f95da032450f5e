use vstd::prelude::*;
use crate::addr::{addr_eq, Addr};
use crate::account::{clone_account, AccountData, AccountView};

verus! {

/// No two entries share an address.
pub open spec fn unique_keys(s: Seq<(Addr, AccountData)>) -> bool {
    forall|i: int, j: int| 0 <= i < j < s.len() ==> s[i].0@ != s[j].0@
}

/// The mapping an entry sequence denotes: later entries overwrite earlier ones.
pub open spec fn entries_map(s: Seq<(Addr, AccountData)>) -> Map<Seq<u8>, AccountView>
    decreases s.len(),
{
    if s.len() == 0 {
        Map::<Seq<u8>, AccountView>::empty()
    } else {
        entries_map(s.drop_last()).insert(s.last().0@, s.last().1@)
    }
}

proof fn lemma_map_index(s: Seq<(Addr, AccountData)>, i: int)
    requires
        unique_keys(s),
        0 <= i < s.len(),
    ensures
        entries_map(s).contains_key(s[i].0@),
        entries_map(s)[s[i].0@] == s[i].1@,
    decreases s.len(),
{
    if i < s.len() - 1 {
        lemma_map_index(s.drop_last(), i);
    }
}

proof fn lemma_map_absent(s: Seq<(Addr, AccountData)>, k: Seq<u8>)
    requires
        forall|i: int| 0 <= i < s.len() ==> s[i].0@ != k,
    ensures
        !entries_map(s).contains_key(k),
    decreases s.len(),
{
    if s.len() > 0 {
        lemma_map_absent(s.drop_last(), k);
    }
}

proof fn lemma_map_update(s: Seq<(Addr, AccountData)>, i: int, e: (Addr, AccountData))
    requires
        unique_keys(s),
        0 <= i < s.len(),
        s[i].0@ == e.0@,
    ensures
        unique_keys(s.update(i, e)),
        entries_map(s.update(i, e)) == entries_map(s).insert(e.0@, e.1@),
    decreases s.len(),
{
    let t = s.update(i, e);
    if i == s.len() - 1 {
        assert(t.drop_last() =~= s.drop_last());
        assert(entries_map(s).insert(e.0@, e.1@) =~= entries_map(s.drop_last()).insert(
            e.0@,
            e.1@,
        ));
    } else {
        assert(t.drop_last() =~= s.drop_last().update(i, e));
        lemma_map_update(s.drop_last(), i, e);
        assert(s.last().0@ != e.0@);
        assert(entries_map(s.drop_last()).insert(e.0@, e.1@).insert(s.last().0@, s.last().1@)
            =~= entries_map(s.drop_last()).insert(s.last().0@, s.last().1@).insert(e.0@, e.1@));
    }
}

proof fn lemma_map_congruent(s: Seq<(Addr, AccountData)>, t: Seq<(Addr, AccountData)>)
    requires
        s.len() == t.len(),
        forall|i: int| 0 <= i < s.len() ==> s[i].0@ == t[i].0@ && s[i].1@ == t[i].1@,
    ensures
        entries_map(s) == entries_map(t),
    decreases s.len(),
{
    if s.len() > 0 {
        lemma_map_congruent(s.drop_last(), t.drop_last());
        assert(entries_map(s) =~= entries_map(t));
    } else {
        assert(entries_map(s) =~= entries_map(t));
    }
}


/// The map after writing each listed record back in order: later entries
/// overwrite earlier ones, and nothing is removed.
pub open spec fn inserted(
    m: Map<Seq<u8>, AccountView>,
    outs: Seq<(Addr, AccountData)>,
) -> Map<Seq<u8>, AccountView>
    decreases outs.len(),
{
    if outs.len() == 0 {
        m
    } else {
        inserted(m, outs.drop_last()).insert(outs.last().0@, outs.last().1@)
    }
}

pub proof fn lemma_inserted_keeps_keys(m: Map<Seq<u8>, AccountView>, outs: Seq<(Addr, AccountData)>)
    ensures
        forall|k: Seq<u8>| #[trigger] m.contains_key(k) ==> inserted(m, outs).contains_key(k),
    decreases outs.len(),
{
    if outs.len() > 0 {
        lemma_inserted_keeps_keys(m, outs.drop_last());
    }
}

/// The mutable account store: a mapping from address to account record.
pub struct InMemoryAccountStore {
    entries: Vec<(Addr, AccountData)>,
}

/// An immutable full copy of the store's contents at a point in time.
pub struct StoreSnapshot {
    entries: Vec<(Addr, AccountData)>,
}

impl View for InMemoryAccountStore {
    type V = Map<Seq<u8>, AccountView>;

    closed spec fn view(&self) -> Map<Seq<u8>, AccountView> {
        entries_map(self.entries@)
    }
}

impl View for StoreSnapshot {
    type V = Map<Seq<u8>, AccountView>;

    closed spec fn view(&self) -> Map<Seq<u8>, AccountView> {
        entries_map(self.entries@)
    }
}

impl StoreSnapshot {
    pub closed spec fn wf(&self) -> bool {
        unique_keys(self.entries@)
    }
}

impl InMemoryAccountStore {
    pub closed spec fn wf(&self) -> bool {
        unique_keys(self.entries@)
    }

    /// An empty store: no address is present.
    pub fn new() -> (r: InMemoryAccountStore)
        ensures
            r.wf(),
            r@ == Map::<Seq<u8>, AccountView>::empty(),
    {
        InMemoryAccountStore { entries: Vec::new() }
    }

    fn find(&self, address: &Addr) -> (r: Option<usize>)
        requires
            self.wf(),
        ensures
            match r {
                Some(i) => i < self.entries@.len() && self.entries@[i as int].0@ == address@,
                None => forall|i: int|
                    0 <= i < self.entries@.len() ==> self.entries@[i].0@ != address@,
            },
    {
        let mut i: usize = 0;
        while i < self.entries.len()
            invariant
                i <= self.entries@.len(),
                forall|j: int| 0 <= j < i ==> self.entries@[j].0@ != address@,
            decreases self.entries@.len() - i,
        {
            if addr_eq(&self.entries[i].0, address) {
                return Some(i);
            }
            i += 1;
        }
        None
    }

    /// Inserts or overwrites; the new record replaces any prior one wholesale.
    pub fn add_account(&mut self, address: Addr, account: AccountData)
        requires
            old(self).wf(),
        ensures
            final(self).wf(),
            final(self)@ == old(self)@.insert(address@, account@),
    {
        let found = self.find(&address);
        match found {
            Some(i) => {
                proof {
                    lemma_map_update(self.entries@, i as int, (address, account));
                }
                self.entries.set(i, (address, account));
            },
            None => {
                proof {
                    let s = self.entries@.push((address, account));
                    assert(s.drop_last() =~= self.entries@);
                }
                self.entries.push((address, account));
            },
        }
    }

    /// Same operation as `add_account`, under the engine-facing name.
    pub fn store_account(&mut self, address: Addr, account: AccountData)
        requires
            old(self).wf(),
        ensures
            final(self).wf(),
            final(self)@ == old(self)@.insert(address@, account@),
    {
        self.add_account(address, account);
    }

    /// The current record at an address, or `None` when absent.
    pub fn get_account(&self, address: &Addr) -> (r: Option<AccountData>)
        requires
            self.wf(),
        ensures
            match r {
                Some(a) => self@.contains_key(address@) && a@ == self@[address@],
                None => !self@.contains_key(address@),
            },
    {
        let found = self.find(address);
        match found {
            Some(i) => {
                proof {
                    lemma_map_index(self.entries@, i as int);
                }
                Some(clone_account(&self.entries[i].1))
            },
            None => {
                proof {
                    lemma_map_absent(self.entries@, address@);
                }
                None
            },
        }
    }

    /// The balance at an address, or `None` when the account does not exist.
    pub fn get_balance(&self, address: &Addr) -> (r: Option<u64>)
        requires
            self.wf(),
        ensures
            r == if self@.contains_key(address@) {
                Some(self@[address@].lamports)
            } else {
                None::<u64>
            },
    {
        match self.get_account(address) {
            Some(a) => Some(a.lamports),
            None => None,
        }
    }

    /// A full copy of the contents, sharing no mutable state with the store.
    pub fn snapshot(&self) -> (r: StoreSnapshot)
        requires
            self.wf(),
        ensures
            r.wf(),
            r@ == self@,
    {
        let mut copied: Vec<(Addr, AccountData)> = Vec::new();
        let mut i: usize = 0;
        while i < self.entries.len()
            invariant
                i <= self.entries@.len(),
                copied@.len() == i,
                forall|j: int|
                    0 <= j < i ==> copied@[j].0@ == self.entries@[j].0@ && copied@[j].1@
                        == self.entries@[j].1@,
            decreases self.entries@.len() - i,
        {
            let addr = self.entries[i].0;
            let acct = clone_account(&self.entries[i].1);
            copied.push((addr, acct));
            i += 1;
        }
        proof {
            lemma_map_congruent(copied@, self.entries@);
        }
        StoreSnapshot { entries: copied }
    }

    /// Replaces the contents wholesale with the snapshot's: addresses absent
    /// from the snapshot are removed, not merely left unchanged.
    pub fn restore(&mut self, snapshot: StoreSnapshot)
        requires
            old(self).wf(),
            snapshot.wf(),
        ensures
            final(self).wf(),
            final(self)@ == snapshot@,
    {
        self.entries = snapshot.entries;
    }
}

} // verus!
