use vstd::prelude::*;
use crate::addr::Addr;
use crate::error::MolluskHelperError;

verus! {

#[verifier::external_type_specification]
#[verifier::external_body]
pub struct ExKeypair(solana_keypair::Keypair);

/// Relies on Keypair::sign_message and the signature's conversion to its
/// 64 raw bytes.
#[verifier::external_body]
fn keypair_sign(keypair: &solana_keypair::Keypair, message: &[u8]) -> [u8; 64] {
    solana_signer::Signer::sign_message(keypair, message).into()
}

/// Relies on Signer::pubkey: the public key half of the keypair, given as
/// the library's address type.
#[verifier::external_body]
fn keypair_pubkey(keypair: &solana_keypair::Keypair) -> Addr {
    Addr { bytes: solana_signer::Signer::pubkey(keypair).to_bytes() }
}

/// Some entry of the sequence carries this name.
pub open spec fn name_in_entries(
    s: Seq<(String, solana_keypair::Keypair)>,
    name: Seq<char>,
) -> bool {
    exists|i: int| 0 <= i < s.len() && s[i].0@ == name
}

/// Some entry of the sequence carries this name together with this keypair.
pub open spec fn binding_in_entries(
    s: Seq<(String, solana_keypair::Keypair)>,
    name: Seq<char>,
    keypair: solana_keypair::Keypair,
) -> bool {
    exists|i: int| 0 <= i < s.len() && s[i].0@ == name && s[i].1 == keypair
}

/// A name-to-signing-material registry. Lookup failure is reported as an
/// error; it never mutates the registry.
pub struct KeypairRegistry {
    entries: Vec<(String, solana_keypair::Keypair)>,
}

impl KeypairRegistry {
    /// A name is registered when some entry carries it.
    pub closed spec fn has_name(&self, name: Seq<char>) -> bool {
        name_in_entries(self.entries@, name)
    }

    /// The name is registered and holds exactly this keypair.
    pub closed spec fn binds(&self, name: Seq<char>, keypair: solana_keypair::Keypair) -> bool {
        binding_in_entries(self.entries@, name, keypair)
    }

    /// Each name appears at most once, so a name determines its keypair.
    pub closed spec fn wf(&self) -> bool {
        forall|i: int, j: int|
            0 <= i < j < self.entries@.len() ==> self.entries@[i].0@ != self.entries@[j].0@
    }

    pub fn new() -> (r: KeypairRegistry)
        ensures
            r.wf(),
            forall|n: Seq<char>| !r.has_name(n),
    {
        KeypairRegistry { entries: Vec::new() }
    }

    fn find(&self, name: &String) -> (r: Option<usize>)
        ensures
            match r {
                Some(i) => i < self.entries@.len() && self.entries@[i as int].0@ == name@,
                None => !self.has_name(name@),
            },
    {
        let mut i: usize = 0;
        while i < self.entries.len()
            invariant
                i <= self.entries@.len(),
                forall|j: int| 0 <= j < i ==> self.entries@[j].0@ != name@,
            decreases self.entries@.len() - i,
        {
            if self.entries[i].0 == *name {
                return Some(i);
            }
            i += 1;
        }
        None
    }

    /// Registers the keypair under the name, replacing any prior holder of
    /// that name; other names are unaffected.
    pub fn store(&mut self, name: String, keypair: solana_keypair::Keypair)
        requires
            old(self).wf(),
        ensures
            final(self).wf(),
            final(self).has_name(name@),
            final(self).binds(name@, keypair),
            forall|kp: solana_keypair::Keypair|
                #[trigger] final(self).binds(name@, kp) ==> kp == keypair,
            forall|n: Seq<char>| n != name@ ==> final(self).has_name(n) == old(self).has_name(n),
    {
        let ghost name_view = name@;
        let found = self.find(&name);
        match found {
            Some(i) => {
                self.entries.set(i, (name, keypair));
                proof {
                    assert(self.entries@[i as int].0@ == name_view);
                    assert(self.entries@[i as int].1 == keypair);
                    assert forall|kp: solana_keypair::Keypair|
                        #[trigger] self.binds(name_view, kp) implies kp == keypair by {
                        let j = choose|j: int|
                            0 <= j < self.entries@.len() && self.entries@[j].0@ == name_view
                                && self.entries@[j].1 == kp;
                        if j != i {
                            assert(old(self).entries@[j].0@ == name_view);
                            assert(old(self).entries@[i as int].0@ == name_view);
                        }
                    }
                    assert forall|n: Seq<char>| n != name_view implies self.has_name(n) == old(
                        self,
                    ).has_name(n) by {
                        if old(self).has_name(n) {
                            let j = choose|j: int|
                                0 <= j < old(self).entries@.len() && old(self).entries@[j].0@ == n;
                            assert(j != i);
                            assert(self.entries@[j].0@ == n);
                        }
                        if self.has_name(n) {
                            let j = choose|j: int|
                                0 <= j < self.entries@.len() && self.entries@[j].0@ == n;
                            assert(j != i);
                            assert(old(self).entries@[j].0@ == n);
                        }
                    }
                }
            },
            None => {
                self.entries.push((name, keypair));
                proof {
                    let last: int = self.entries@.len() - 1;
                    assert(self.entries@[last].0@ == name_view);
                    assert(self.entries@[last].1 == keypair);
                    assert forall|kp: solana_keypair::Keypair|
                        #[trigger] self.binds(name_view, kp) implies kp == keypair by {
                        let j = choose|j: int|
                            0 <= j < self.entries@.len() && self.entries@[j].0@ == name_view
                                && self.entries@[j].1 == kp;
                        if j != last {
                            assert(old(self).entries@[j].0@ == name_view);
                        }
                    }
                    assert forall|n: Seq<char>| n != name_view implies self.has_name(n) == old(
                        self,
                    ).has_name(n) by {
                        if old(self).has_name(n) {
                            let j = choose|j: int|
                                0 <= j < old(self).entries@.len() && old(self).entries@[j].0@ == n;
                            assert(self.entries@[j].0@ == n);
                        }
                        if self.has_name(n) {
                            let j = choose|j: int|
                                0 <= j < self.entries@.len() && self.entries@[j].0@ == n;
                            assert(j != last);
                            assert(old(self).entries@[j].0@ == n);
                        }
                    }
                }
            },
        }
    }

    /// The keypair registered under the name, if any; the returned keypair
    /// is the one bound to the name.
    pub fn get(&self, name: &String) -> (r: Option<&solana_keypair::Keypair>)
        ensures
            (r is Some) == self.has_name(name@),
            r matches Some(kp) ==> self.binds(name@, *kp),
    {
        let found = self.find(name);
        match found {
            Some(i) => {
                proof {
                    assert(self.has_name(name@));
                    assert(self.binds(name@, self.entries@[i as int].1));
                }
                Some(&self.entries[i].1)
            },
            None => None,
        }
    }
}

/// Signs the message with the named keypair. Returns the 64-byte signature
/// when the name is registered, and a lookup error exactly otherwise.
pub fn sign_with_registry(registry: &KeypairRegistry, name: &String, message: &[u8]) -> (r: Result<
    [u8; 64],
    MolluskHelperError,
>)
    ensures
        (r is Ok) == registry.has_name(name@),
        r matches Err(e) ==> e is KeypairNotFound,
{
    match registry.get(name) {
        Some(keypair) => Ok(keypair_sign(keypair, message)),
        None => Err(MolluskHelperError::KeypairNotFound(name.clone())),
    }
}

/// The public key of the named keypair. Succeeds exactly when the name is
/// registered, and reports a lookup error otherwise.
pub fn pubkey_from_registry(registry: &KeypairRegistry, name: &String) -> (r: Result<
    Addr,
    MolluskHelperError,
>)
    ensures
        (r is Ok) == registry.has_name(name@),
        r matches Err(e) ==> e is KeypairNotFound,
{
    match registry.get(name) {
        Some(keypair) => Ok(keypair_pubkey(keypair)),
        None => Err(MolluskHelperError::KeypairNotFound(name.clone())),
    }
}

} // verus!
