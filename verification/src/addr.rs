use vstd::prelude::*;

verus! {

/// A 32-byte account address, the primary key of the account store.
#[derive(Clone, Copy, Debug, PartialEq, Eq)]
pub struct Addr {
    pub bytes: [u8; 32],
}

impl View for Addr {
    type V = Seq<u8>;

    open spec fn view(&self) -> Seq<u8> {
        self.bytes@
    }
}

impl Addr {
    pub fn new(bytes: [u8; 32]) -> (r: Addr)
        ensures
            r@ == bytes@,
    {
        Addr { bytes }
    }
}

/// Byte-for-byte equality of two addresses.
pub fn addr_eq(a: &Addr, b: &Addr) -> (r: bool)
    ensures
        r == (a@ == b@),
{
    let mut i: usize = 0;
    while i < 32
        invariant
            i <= 32,
            forall|j: int| 0 <= j < i ==> a.bytes@[j] == b.bytes@[j],
        decreases 32 - i,
    {
        if a.bytes[i] != b.bytes[i] {
            assert(a@ != b@);
            return false;
        }
        i += 1;
    }
    assert(a@ =~= b@);
    true
}

} // verus!
