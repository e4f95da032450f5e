use vstd::prelude::*;
use crate::addr::Addr;

verus! {

/// A ledger account record: balance, owner program, opaque payload,
/// executable flag and rent-epoch marker.
#[derive(Debug)]
pub struct AccountData {
    pub lamports: u64,
    pub data: Vec<u8>,
    pub owner: Addr,
    pub executable: bool,
    pub rent_epoch: u64,
}

/// The mathematical value of an account record.
pub ghost struct AccountView {
    pub lamports: u64,
    pub data: Seq<u8>,
    pub owner: Seq<u8>,
    pub executable: bool,
    pub rent_epoch: u64,
}

impl View for AccountData {
    type V = AccountView;

    open spec fn view(&self) -> AccountView {
        AccountView {
            lamports: self.lamports,
            data: self.data@,
            owner: self.owner@,
            executable: self.executable,
            rent_epoch: self.rent_epoch,
        }
    }
}

/// The all-zero address, which owns plain system accounts.
pub open spec fn zero_addr_bytes() -> Seq<u8> {
    Seq::new(32, |i: int| 0u8)
}

pub fn zero_addr() -> (r: Addr)
    ensures
        r@ == zero_addr_bytes(),
{
    let a = Addr { bytes: [0u8; 32] };
    proof {
        assert(a@ =~= zero_addr_bytes());
    }
    a
}

/// The value of a freshly funded system account.
pub open spec fn system_account_view(lamports: u64) -> AccountView {
    AccountView {
        lamports,
        data: Seq::<u8>::empty(),
        owner: zero_addr_bytes(),
        executable: false,
        rent_epoch: 0,
    }
}

/// An account holding `lamports` units, owned by the system program,
/// with no payload.
pub fn system_account_with_lamports(lamports: u64) -> (r: AccountData)
    ensures
        r@ == system_account_view(lamports),
{
    let r = AccountData {
        lamports,
        data: Vec::new(),
        owner: zero_addr(),
        executable: false,
        rent_epoch: 0,
    };
    proof {
        assert(r@.data =~= Seq::<u8>::empty());
    }
    r
}

/// The value of an account absent from the store, as the engine models it.
pub open spec fn default_account_view() -> AccountView {
    system_account_view(0)
}

/// The account handed to the engine for an address the store does not hold.
pub fn default_account() -> (r: AccountData)
    ensures
        r@ == default_account_view(),
{
    system_account_with_lamports(0)
}

/// A non-executable account with one billion units, a given owner and payload.
pub fn program_account(owner: &Addr, data: Vec<u8>) -> (r: AccountData)
    ensures
        r@.lamports == 1_000_000_000u64,
        r@.data == data@,
        r@.owner == owner@,
        r@.executable == false,
        r@.rent_epoch == 0u64,
{
    AccountData {
        lamports: 1_000_000_000,
        data,
        owner: *owner,
        executable: false,
        rent_epoch: 0,
    }
}

fn copy_bytes(v: &Vec<u8>) -> (r: Vec<u8>)
    ensures
        r@ == v@,
{
    let mut r: Vec<u8> = Vec::new();
    let mut i: usize = 0;
    while i < v.len()
        invariant
            i <= v.len(),
            r@ == v@.subrange(0, i as int),
        decreases v.len() - i,
    {
        r.push(v[i]);
        i += 1;
        proof {
            assert(r@ =~= v@.subrange(0, i as int));
        }
    }
    proof {
        assert(r@ =~= v@);
    }
    r
}

/// A deep copy of an account record, sharing nothing with the original.
pub fn clone_account(a: &AccountData) -> (r: AccountData)
    ensures
        r@ == a@,
{
    AccountData {
        lamports: a.lamports,
        data: copy_bytes(&a.data),
        owner: a.owner,
        executable: a.executable,
        rent_epoch: a.rent_epoch,
    }
}

} // verus!
