use vstd::prelude::*;
use crate::error::OrderError;

verus! {

/// An account as the invocation lists it: its identity and the flags the
/// transaction grants it.
#[derive(Debug, Clone, Copy, PartialEq, Eq)]
pub struct AccountEntry {
    pub address: [u8; 32],
    pub is_signer: bool,
    pub is_writable: bool,
}

/// The accounts bound to the roles of a CreateOrder invocation.
#[derive(Debug, Clone, Copy, PartialEq, Eq)]
pub struct CreateOrderAccounts {
    pub payer: [u8; 32],
    pub target: [u8; 32],
}

/// The identity of the ledger's system allocator: 32 zero bytes.
pub open spec fn system_program_id() -> Seq<u8> {
    Seq::new(32, |i: int| 0u8)
}

/// The role template of CreateOrder, by position: a payer that signs and is
/// writable, a writable target, and the system allocator. The result is the
/// payer's and the target's identities.
pub open spec fn create_order_roles(accounts: Seq<AccountEntry>) -> Result<(Seq<u8>, Seq<u8>), OrderError> {
    if accounts.len() < 3 {
        Err(OrderError::WrongAccountCount)
    } else if !accounts[0].is_signer {
        Err(OrderError::MissingRequiredSignature)
    } else if !accounts[0].is_writable || !accounts[1].is_writable {
        Err(OrderError::AccountNotWritable)
    } else if accounts[2].address@ != system_program_id() {
        Err(OrderError::WrongAllocator)
    } else {
        Ok((accounts[0].address@, accounts[1].address@))
    }
}

fn is_system_program(a: &[u8; 32]) -> (r: bool)
    ensures
        r == (a@ == system_program_id()),
{
    let mut i: usize = 0;
    while i < 32
        invariant
            i <= 32,
            a@.len() == 32,
            forall|j: int| 0 <= j < i ==> a@[j] == 0u8,
        decreases 32 - i,
    {
        if a[i] != 0 {
            return false;
        }
        i = i + 1;
    }
    assert(a@ =~= system_program_id());
    true
}

/// Binds the listed accounts to the CreateOrder roles, in order of position.
pub fn validate_create_order_accounts(accounts: &[AccountEntry]) -> (r: Result<CreateOrderAccounts, OrderError>)
    ensures
        match create_order_roles(accounts@) {
            Ok((p, t)) => r matches Ok(a) && a.payer@ == p && a.target@ == t,
            Err(e) => r == Err::<CreateOrderAccounts, OrderError>(e),
        },
{
    if accounts.len() < 3 {
        return Err(OrderError::WrongAccountCount);
    }
    let payer = &accounts[0];
    let target = &accounts[1];
    if !payer.is_signer {
        return Err(OrderError::MissingRequiredSignature);
    }
    if !payer.is_writable || !target.is_writable {
        return Err(OrderError::AccountNotWritable);
    }
    if !is_system_program(&accounts[2].address) {
        return Err(OrderError::WrongAllocator);
    }
    Ok(CreateOrderAccounts { payer: payer.address, target: target.address })
}

} // verus!
