use vstd::prelude::*;
use crate::address::same_address;
use crate::codec::push_bytes;
use crate::error::OrderError;

verus! {

/// An account held by the host ledger.
#[derive(Debug, Clone, PartialEq, Eq)]
pub struct HostAccount {
    pub address: [u8; 32],
    /// The program allowed to change the account's data.
    pub owner: [u8; 32],
    pub lamports: u64,
    pub data: Vec<u8>,
}

pub struct HostAccountView {
    pub address: Seq<u8>,
    pub owner: Seq<u8>,
    pub lamports: u64,
    pub data: Seq<u8>,
}

impl View for HostAccount {
    type V = HostAccountView;

    open spec fn view(&self) -> HostAccountView {
        HostAccountView {
            address: self.address@,
            owner: self.owner@,
            lamports: self.lamports,
            data: self.data@,
        }
    }
}

/// A model of the host ledger: the accounts it holds, one per address. An
/// invocation either applies all of its changes to it or none.
#[derive(Debug, Clone, PartialEq, Eq)]
pub struct Ledger {
    accounts: Vec<HostAccount>,
}

/// Whether some account of `s` lives at `address`.
pub open spec fn is_allocated(s: Seq<HostAccountView>, address: Seq<u8>) -> bool {
    exists|i: int| 0 <= i < s.len() && s[i].address == address
}

/// The position of the account at `address`.
pub open spec fn index_of(s: Seq<HostAccountView>, address: Seq<u8>) -> int {
    choose|i: int| 0 <= i < s.len() && s[i].address == address
}

/// Whether the account at `payer` holds at least `lamports`. An address that
/// holds no account has no funds.
pub open spec fn can_fund(s: Seq<HostAccountView>, payer: Seq<u8>, lamports: u64) -> bool {
    is_allocated(s, payer) && s[index_of(s, payer)].lamports >= lamports
}

/// No two accounts share an address.
pub open spec fn addresses_unique(s: Seq<HostAccountView>) -> bool {
    forall|i: int, j: int| 0 <= i < j < s.len() ==> s[i].address != s[j].address
}

/// What the system allocator does to `s` when `payer` asks it to open an
/// account of `space` zero bytes at `target`, funded with `lamports` and
/// owned by `owner`.
pub open spec fn allocation_effect(
    s: Seq<HostAccountView>,
    payer: Seq<u8>,
    target: Seq<u8>,
    lamports: u64,
    space: nat,
    owner: Seq<u8>,
) -> Result<Seq<HostAccountView>, OrderError> {
    if is_allocated(s, target) {
        Err(OrderError::AccountAlreadyInUse)
    } else if !can_fund(s, payer, lamports) {
        Err(OrderError::InsufficientFunds)
    } else {
        let i = index_of(s, payer);
        Ok(
            s.update(
                i,
                HostAccountView {
                    address: s[i].address,
                    owner: s[i].owner,
                    lamports: (s[i].lamports - lamports) as u64,
                    data: s[i].data,
                },
            ).push(
                HostAccountView {
                    address: target,
                    owner,
                    lamports,
                    data: Seq::new(space, |k: int| 0u8),
                },
            ),
        )
    }
}

/// `s` with the data of its account at position `i` replaced by `data`.
pub open spec fn with_data(s: Seq<HostAccountView>, i: int, data: Seq<u8>) -> Seq<HostAccountView> {
    s.update(
        i,
        HostAccountView { address: s[i].address, owner: s[i].owner, lamports: s[i].lamports, data },
    )
}

impl View for Ledger {
    type V = Seq<HostAccountView>;

    closed spec fn view(&self) -> Seq<HostAccountView> {
        self.accounts@.map_values(|a: HostAccount| a@)
    }
}

impl Ledger {
    pub open spec fn wf(&self) -> bool {
        addresses_unique(self@)
    }

    /// A ledger that holds no account.
    pub fn new() -> (r: Ledger)
        ensures
            r.wf(),
            r@ == Seq::<HostAccountView>::empty(),
    {
        let r = Ledger { accounts: Vec::new() };
        assert(r@ =~= Seq::<HostAccountView>::empty());
        r
    }

    /// The number of accounts held.
    pub fn len(&self) -> (r: usize)
        ensures
            r == self@.len(),
    {
        self.accounts.len()
    }

    /// The position of the account at `address`, if one is held.
    pub fn find(&self, address: &[u8; 32]) -> (r: Option<usize>)
        requires
            self.wf(),
        ensures
            r is None <==> !is_allocated(self@, address@),
            r matches Some(i) ==> i < self@.len() && i == index_of(self@, address@)
                && self@[i as int].address == address@,
    {
        let mut i: usize = 0;
        while i < self.accounts.len()
            invariant
                self.wf(),
                i <= self.accounts@.len(),
                self@.len() == self.accounts@.len(),
                forall|j: int| 0 <= j < i ==> self@[j].address != address@,
            decreases self.accounts@.len() - i,
        {
            if same_address(&self.accounts[i].address, address) {
                proof {
                    assert(self@[i as int].address == address@);
                    let k = index_of(self@, address@);
                    assert(0 <= k < self@.len() && self@[k].address == address@);
                    assert(k == i as int) by {
                        if k < i {
                        } else if k > i {
                            assert(self@[i as int].address != self@[k].address);
                        }
                    }
                }
                return Some(i);
            }
            i = i + 1;
        }
        None
    }

    /// The account at `address`, if one is held.
    pub fn get(&self, address: &[u8; 32]) -> (r: Option<&HostAccount>)
        requires
            self.wf(),
        ensures
            r is None <==> !is_allocated(self@, address@),
            r matches Some(a) ==> a@ == self@[index_of(self@, address@)],
    {
        match self.find(address) {
            Some(i) => Some(&self.accounts[i]),
            None => None,
        }
    }

    /// Adds an account at a free address.
    pub fn insert(&mut self, account: HostAccount) -> (r: Result<(), OrderError>)
        requires
            old(self).wf(),
        ensures
            final(self).wf(),
            is_allocated(old(self)@, account.address@) ==> r == Err::<(), OrderError>(
                OrderError::AccountAlreadyInUse,
            ) && final(self)@ == old(self)@,
            !is_allocated(old(self)@, account.address@) ==> r is Ok && final(self)@ == old(
                self,
            )@.push(account@),
    {
        if self.find(&account.address).is_some() {
            return Err(OrderError::AccountAlreadyInUse);
        }
        let ghost a = account@;
        self.accounts.push(account);
        assert(self@ =~= old(self)@.push(a));
        Ok(())
    }

    /// The system allocator: opens an account of `space` zero bytes at
    /// `target`, owned by `owner` and funded with `lamports` taken from
    /// `payer`. It returns the new account's position.
    pub fn create_account(
        &mut self,
        payer: &[u8; 32],
        target: &[u8; 32],
        lamports: u64,
        space: usize,
        owner: &[u8; 32],
    ) -> (r: Result<usize, OrderError>)
        requires
            old(self).wf(),
        ensures
            final(self).wf(),
            match allocation_effect(old(self)@, payer@, target@, lamports, space as nat, owner@) {
                Ok(s) => r matches Ok(i) && i == old(self)@.len() && final(self)@ == s,
                Err(e) => r == Err::<usize, OrderError>(e) && final(self)@ == old(self)@,
            },
    {
        if self.find(target).is_some() {
            return Err(OrderError::AccountAlreadyInUse);
        }
        let pi = match self.find(payer) {
            Some(pi) => pi,
            None => {
                return Err(OrderError::InsufficientFunds);
            },
        };
        if self.accounts[pi].lamports < lamports {
            return Err(OrderError::InsufficientFunds);
        }
        let ghost s = self@;
        let mut kept: Vec<u8> = Vec::new();
        push_bytes(&mut kept, self.accounts[pi].data.as_slice());
        let debited = HostAccount {
            address: self.accounts[pi].address,
            owner: self.accounts[pi].owner,
            lamports: self.accounts[pi].lamports - lamports,
            data: kept,
        };
        let mut zeros: Vec<u8> = Vec::new();
        let mut k: usize = 0;
        while k < space
            invariant
                k <= space,
                zeros@ == Seq::new(k as nat, |j: int| 0u8),
            decreases space - k,
        {
            zeros.push(0u8);
            k = k + 1;
            assert(zeros@ =~= Seq::new(k as nat, |j: int| 0u8));
        }
        let n = self.accounts.len();
        self.accounts[pi] = debited;
        self.accounts.push(HostAccount { address: *target, owner: *owner, lamports, data: zeros });
        proof {
            let e = allocation_effect(s, payer@, target@, lamports, space as nat, owner@);
            assert(pi as int == index_of(s, payer@));
            assert(e is Ok);
            assert(self@ =~= e.unwrap());
            assert forall|i: int, j: int| 0 <= i < j < self@.len() implies self@[i].address
                != self@[j].address by {
                if j == n as int {
                    assert(s[i].address == self@[i].address);
                }
            }
        }
        Ok(n)
    }

    /// Replaces the data of the account at position `index` with `data`.
    pub fn write_data(&mut self, index: usize, data: Vec<u8>)
        requires
            old(self).wf(),
            index < old(self)@.len(),
        ensures
            final(self).wf(),
            final(self)@ == with_data(old(self)@, index as int, data@),
    {
        let ghost d = data@;
        let updated = HostAccount {
            address: self.accounts[index].address,
            owner: self.accounts[index].owner,
            lamports: self.accounts[index].lamports,
            data,
        };
        self.accounts[index] = updated;
        assert(self@ =~= with_data(old(self)@, index as int, d));
    }
}

} // verus!
