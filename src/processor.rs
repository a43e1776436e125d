use vstd::prelude::*;
use crate::address::{derive_order_address, order_address_spec, same_address};
use crate::codec::{
    le_u64, lemma_record_round_trip, record_bytes, record_of_bytes, Instruction, OrderAccount,
    OrderAccountView, CREATE_ORDER_TAG, INSTRUCTION_LEN, ORDER_ACCOUNT_LEN,
};
use crate::error::OrderError;
use crate::ledger::{allocation_effect, is_allocated, with_data, Ledger, HostAccountView};
use crate::roles::{create_order_roles, validate_create_order_accounts, AccountEntry};

verus! {

/// What a valid CreateOrder invocation does: open the account at `target` and
/// store `record` in it. The payer is the record's passenger.
#[derive(Debug, Clone, Copy, PartialEq, Eq)]
pub struct CreateOrderPlan {
    pub target: [u8; 32],
    pub record: OrderAccount,
}

/// The decisions of a CreateOrder invocation, stage by stage: decode the
/// payload, bind the account roles, derive the order address from
/// `["order", payer, order_id]` and compare it with the target. On success,
/// the target and the record to store.
pub open spec fn create_order_plan(
    program_id: Seq<u8>,
    accounts: Seq<AccountEntry>,
    data: Seq<u8>,
) -> Result<(Seq<u8>, OrderAccountView), OrderError> {
    if !(data.len() == INSTRUCTION_LEN && data[0] == CREATE_ORDER_TAG) {
        Err(OrderError::MalformedPayload)
    } else {
        match create_order_roles(accounts) {
            Err(e) => Err(e),
            Ok((payer, target)) => match order_address_spec(program_id, payer, data[1]) {
                None => Err(OrderError::DerivationExhausted),
                Some((address, bump)) => if address != target {
                    Err(OrderError::InvalidSeeds)
                } else {
                    Ok(
                        (
                            target,
                            OrderAccountView {
                                status: 0,
                                passenger: payer,
                                order_id: data[1],
                                price: le_u64(data.subrange(2, 10)),
                                memo: data.subrange(10, 26),
                                bump,
                            },
                        ),
                    )
                },
            },
        }
    }
}

/// What a CreateOrder invocation does to the ledger `s`: on success the
/// ledger after the allocation and the write of the record; on failure the
/// reason, with `s` left as it was.
pub open spec fn create_order_effect(
    s: Seq<HostAccountView>,
    program_id: Seq<u8>,
    accounts: Seq<AccountEntry>,
    data: Seq<u8>,
    rent_exempt_lamports: u64,
) -> Result<Seq<HostAccountView>, OrderError> {
    match create_order_plan(program_id, accounts, data) {
        Err(e) => Err(e),
        Ok((target, record)) => match allocation_effect(
            s,
            record.passenger,
            target,
            rent_exempt_lamports,
            ORDER_ACCOUNT_LEN as nat,
            program_id,
        ) {
            Err(e) => Err(e),
            Ok(s1) => Ok(with_data(s1, s1.len() - 1, record_bytes(record))),
        },
    }
}

/// Makes the decisions of a CreateOrder invocation; it changes nothing.
pub fn plan_create_order(program_id: &[u8; 32], accounts: &[AccountEntry], instruction_data: &[u8]) -> (r: Result<CreateOrderPlan, OrderError>)
    ensures
        match create_order_plan(program_id@, accounts@, instruction_data@) {
            Ok((t, rec)) => r matches Ok(p) && p.target@ == t && p.record@ == rec,
            Err(e) => r == Err::<CreateOrderPlan, OrderError>(e),
        },
{
    let payload = match Instruction::decode(instruction_data) {
        Ok(Instruction::CreateOrder(d)) => d,
        Err(e) => {
            return Err(e);
        },
    };
    let roles = match validate_create_order_accounts(accounts) {
        Ok(a) => a,
        Err(e) => {
            return Err(e);
        },
    };
    let (address, bump) = match derive_order_address(program_id, &roles.payer, payload.order_id) {
        Ok(found) => found,
        Err(e) => {
            return Err(e);
        },
    };
    if !same_address(&address, &roles.target) {
        return Err(OrderError::InvalidSeeds);
    }
    Ok(
        CreateOrderPlan {
            target: roles.target,
            record: OrderAccount {
                status: 0,
                passenger: roles.payer,
                order_id: payload.order_id,
                price: payload.price,
                memo: payload.memo,
                bump,
            },
        },
    )
}

/// Runs a CreateOrder invocation against the ledger: plans it, asks the
/// system allocator for the account, funded with `rent_exempt_lamports`, and
/// stores the encoded record in it. Every failure leaves the ledger as it was.
pub fn process_create_order(
    ledger: &mut Ledger,
    program_id: &[u8; 32],
    accounts: &[AccountEntry],
    instruction_data: &[u8],
    rent_exempt_lamports: u64,
) -> (r: Result<(), OrderError>)
    requires
        old(ledger).wf(),
    ensures
        final(ledger).wf(),
        match create_order_effect(old(ledger)@, program_id@, accounts@, instruction_data@, rent_exempt_lamports) {
            Ok(s) => r is Ok && final(ledger)@ == s,
            Err(e) => r == Err::<(), OrderError>(e) && final(ledger)@ == old(ledger)@,
        },
{
    let plan = match plan_create_order(program_id, accounts, instruction_data) {
        Ok(p) => p,
        Err(e) => {
            return Err(e);
        },
    };
    let index = match ledger.create_account(
        &plan.record.passenger,
        &plan.target,
        rent_exempt_lamports,
        ORDER_ACCOUNT_LEN,
        program_id,
    ) {
        Ok(i) => i,
        Err(e) => {
            return Err(e);
        },
    };
    let ghost allocated = ledger@;
    assert(allocated.len() == old(ledger)@.len() + 1);
    let bytes = plan.record.encode();
    ledger.write_data(index, bytes);
    Ok(())
}

/// The program's entry: reads the leading tag and runs the instruction it
/// names. An unknown tag or a payload of the wrong width is refused.
pub fn process_instruction(
    ledger: &mut Ledger,
    program_id: &[u8; 32],
    accounts: &[AccountEntry],
    instruction_data: &[u8],
    rent_exempt_lamports: u64,
) -> (r: Result<(), OrderError>)
    requires
        old(ledger).wf(),
    ensures
        final(ledger).wf(),
        match create_order_effect(old(ledger)@, program_id@, accounts@, instruction_data@, rent_exempt_lamports) {
            Ok(s) => r is Ok && final(ledger)@ == s,
            Err(e) => r == Err::<(), OrderError>(e) && final(ledger)@ == old(ledger)@,
        },
{
    if instruction_data.len() == 0 || instruction_data[0] != CREATE_ORDER_TAG {
        return Err(OrderError::MalformedPayload);
    }
    process_create_order(ledger, program_id, accounts, instruction_data, rent_exempt_lamports)
}

/// A payload shorter or longer than `INSTRUCTION_LEN` bytes, or one led by
/// an unknown tag, is refused as malformed, whatever the accounts.
pub proof fn lemma_malformed_payload_rejected(
    s: Seq<HostAccountView>,
    program_id: Seq<u8>,
    accounts: Seq<AccountEntry>,
    data: Seq<u8>,
    rent_exempt_lamports: u64,
)
    requires
        data.len() != INSTRUCTION_LEN || data[0] != CREATE_ORDER_TAG,
    ensures
        create_order_effect(s, program_id, accounts, data, rent_exempt_lamports) == Err::<
            Seq<HostAccountView>,
            OrderError,
        >(OrderError::MalformedPayload),
{
}

/// A well-formed CreateOrder whose payer did not sign fails with
/// `MissingRequiredSignature`, and so allocates nothing.
pub proof fn lemma_unsigned_payer_rejected(
    s: Seq<HostAccountView>,
    program_id: Seq<u8>,
    accounts: Seq<AccountEntry>,
    data: Seq<u8>,
    rent_exempt_lamports: u64,
)
    requires
        data.len() == INSTRUCTION_LEN,
        data[0] == CREATE_ORDER_TAG,
        accounts.len() >= 3,
        !accounts[0].is_signer,
    ensures
        create_order_effect(s, program_id, accounts, data, rent_exempt_lamports) == Err::<
            Seq<HostAccountView>,
            OrderError,
        >(OrderError::MissingRequiredSignature),
{
}

/// A well-formed CreateOrder whose target is not the address derived from
/// `["order", payer, order_id]` fails with `InvalidSeeds`, and so allocates
/// nothing.
pub proof fn lemma_wrong_target_rejected(
    s: Seq<HostAccountView>,
    program_id: Seq<u8>,
    accounts: Seq<AccountEntry>,
    data: Seq<u8>,
    rent_exempt_lamports: u64,
)
    requires
        data.len() == INSTRUCTION_LEN,
        data[0] == CREATE_ORDER_TAG,
        create_order_roles(accounts) is Ok,
        order_address_spec(program_id, accounts[0].address@, data[1]) matches Some((a, _))
            && a != accounts[1].address@,
    ensures
        create_order_effect(s, program_id, accounts, data, rent_exempt_lamports) == Err::<
            Seq<HostAccountView>,
            OrderError,
        >(OrderError::InvalidSeeds),
{
}

/// After a CreateOrder succeeds, the same invocation again fails with
/// `AccountAlreadyInUse`, and so leaves the created account as it is.
pub proof fn lemma_repeat_creation_fails(
    s: Seq<HostAccountView>,
    after: Seq<HostAccountView>,
    program_id: Seq<u8>,
    accounts: Seq<AccountEntry>,
    data: Seq<u8>,
    rent_exempt_lamports: u64,
)
    requires
        create_order_effect(s, program_id, accounts, data, rent_exempt_lamports) == Ok::<
            Seq<HostAccountView>,
            OrderError,
        >(after),
    ensures
        create_order_effect(after, program_id, accounts, data, rent_exempt_lamports) == Err::<
            Seq<HostAccountView>,
            OrderError,
        >(OrderError::AccountAlreadyInUse),
{
    let (target, record) = create_order_plan(program_id, accounts, data).unwrap();
    let s1 = allocation_effect(
        s,
        record.passenger,
        target,
        rent_exempt_lamports,
        ORDER_ACCOUNT_LEN as nat,
        program_id,
    ).unwrap();
    let last = s1.len() - 1;
    assert(after[last].address == target);
    assert(is_allocated(after, target));
}

/// A successful CreateOrder stores at the target an account whose data
/// decodes to the planned record, owned by the program and funded with the
/// rent-exempt balance.
pub proof fn lemma_created_account_holds_record(
    s: Seq<HostAccountView>,
    after: Seq<HostAccountView>,
    program_id: Seq<u8>,
    accounts: Seq<AccountEntry>,
    data: Seq<u8>,
    rent_exempt_lamports: u64,
)
    requires
        create_order_effect(s, program_id, accounts, data, rent_exempt_lamports) == Ok::<
            Seq<HostAccountView>,
            OrderError,
        >(after),
    ensures
        create_order_plan(program_id, accounts, data) matches Ok((target, record)) && {
            let a = after[after.len() - 1];
            &&& after.len() == s.len() + 1
            &&& a.address == target
            &&& a.owner == program_id
            &&& a.lamports == rent_exempt_lamports
            &&& a.data.len() == ORDER_ACCOUNT_LEN
            &&& record_of_bytes(a.data) == record
        },
{
    let (target, record) = create_order_plan(program_id, accounts, data).unwrap();
    lemma_record_round_trip(record);
}

} // verus!
