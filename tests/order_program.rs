use order_program::address::{derive_order_address, order_seeds, signer_seeds, verify_address};
use order_program::codec::{
    Instruction, OrderAccount, OrderInstructionData, INSTRUCTION_LEN, ORDER_ACCOUNT_LEN,
};
use order_program::error::OrderError;
use order_program::ledger::{HostAccount, Ledger};
use order_program::processor::{plan_create_order, process_create_order, process_instruction};
use order_program::roles::{validate_create_order_accounts, AccountEntry};
use solana_program::pubkey::Pubkey;

const PROGRAM: [u8; 32] = [7u8; 32];
const PAYER: [u8; 32] = [9u8; 32];
const SYSTEM: [u8; 32] = [0u8; 32];
const RENT: u64 = 1_301_520;

fn create_order_bytes(order_id: u8, price: u64, memo: [u8; 16]) -> Vec<u8> {
    OrderInstructionData { order_id, price, memo }.encode()
}

fn entry(address: [u8; 32], is_signer: bool, is_writable: bool) -> AccountEntry {
    AccountEntry { address, is_signer, is_writable }
}

fn funded_ledger(lamports: u64) -> Ledger {
    let mut ledger = Ledger::new();
    ledger
        .insert(HostAccount { address: PAYER, owner: SYSTEM, lamports, data: Vec::new() })
        .unwrap();
    ledger
}

fn order_address(order_id: u8) -> ([u8; 32], u8) {
    derive_order_address(&PROGRAM, &PAYER, order_id).unwrap()
}

fn order_accounts(target: [u8; 32]) -> Vec<AccountEntry> {
    vec![entry(PAYER, true, true), entry(target, false, true), entry(SYSTEM, false, false)]
}

#[test]
fn price_is_little_endian_on_the_wire() {
    let bytes = create_order_bytes(7, 1_000_000, [0u8; 16]);
    assert_eq!(bytes.len(), INSTRUCTION_LEN);
    assert_eq!(&bytes[..10], &[1, 7, 0x40, 0x42, 0x0f, 0, 0, 0, 0, 0]);
    assert_eq!(&bytes[10..], &[0u8; 16]);
}

#[test]
fn instruction_layout_matches_borsh() {
    let memo = *b"sixteen byte memo"[..16].first_chunk::<16>().unwrap();
    let ours = create_order_bytes(42, 0x0102_0304_0506_0708, memo);
    let theirs = borsh::to_vec(&(1u8, 42u8, 0x0102_0304_0506_0708u64, memo)).unwrap();
    assert_eq!(ours, theirs);
}

#[test]
fn decode_reads_create_order() {
    let mut memo = [0u8; 16];
    memo[0] = 0xaa;
    memo[15] = 0x55;
    let bytes = create_order_bytes(200, u64::MAX - 1, memo);
    let decoded = Instruction::decode(&bytes).unwrap();
    assert_eq!(
        decoded,
        Instruction::CreateOrder(OrderInstructionData { order_id: 200, price: u64::MAX - 1, memo })
    );
}

#[test]
fn decode_rejects_short_payload() {
    let bytes = create_order_bytes(7, 1_000_000, [0u8; 16]);
    for len in 0..INSTRUCTION_LEN {
        assert_eq!(Instruction::decode(&bytes[..len]), Err(OrderError::MalformedPayload));
    }
}

#[test]
fn decode_rejects_unknown_tag() {
    let mut bytes = create_order_bytes(7, 1_000_000, [0u8; 16]);
    bytes[0] = 2;
    assert_eq!(Instruction::decode(&bytes), Err(OrderError::MalformedPayload));
}

#[test]
fn decode_rejects_trailing_bytes() {
    let mut bytes = create_order_bytes(7, 1_000_000, [0u8; 16]);
    bytes.push(0);
    assert_eq!(Instruction::decode(&bytes), Err(OrderError::MalformedPayload));
}

#[test]
fn record_round_trip() {
    let record = OrderAccount {
        status: 0,
        passenger: [3u8; 32],
        order_id: 7,
        price: 1_000_000,
        memo: [5u8; 16],
        bump: 254,
    };
    let bytes = record.encode();
    assert_eq!(bytes.len(), ORDER_ACCOUNT_LEN);
    assert_eq!(OrderAccount::decode(&bytes), Ok(record));
}

#[test]
fn record_layout_matches_borsh() {
    let record = OrderAccount {
        status: 1,
        passenger: [0xabu8; 32],
        order_id: 9,
        price: 123_456_789_012,
        memo: [0x11u8; 16],
        bump: 250,
    };
    let theirs = borsh::to_vec(&(
        record.status,
        record.passenger,
        record.order_id,
        record.price,
        record.memo,
        record.bump,
    ))
    .unwrap();
    assert_eq!(record.encode(), theirs);
}

#[test]
fn record_decode_rejects_wrong_width() {
    assert_eq!(OrderAccount::decode(&[0u8; 58]), Err(OrderError::MalformedPayload));
    assert_eq!(OrderAccount::decode(&[0u8; 60]), Err(OrderError::MalformedPayload));
    assert_eq!(OrderAccount::decode(&[]), Err(OrderError::MalformedPayload));
}

#[test]
fn derivation_is_deterministic() {
    let first = derive_order_address(&PROGRAM, &PAYER, 7);
    let second = derive_order_address(&PROGRAM, &PAYER, 7);
    assert_eq!(first, second);
    assert!(first.is_ok());
}

#[test]
fn derivation_matches_ledger_search() {
    let (address, bump) = order_address(7);
    let (expected, expected_bump) = Pubkey::find_program_address(
        &[b"order", &PAYER, &[7]],
        &Pubkey::new_from_array(PROGRAM),
    );
    assert_eq!(address, expected.to_bytes());
    assert_eq!(bump, expected_bump);
    assert_ne!(address, PAYER);
    assert_ne!(address, PROGRAM);
}

#[test]
fn derivation_depends_on_order_id() {
    assert_ne!(order_address(7).0, order_address(8).0);
}

#[test]
fn seeds_are_namespace_payer_and_order_id() {
    let seeds = order_seeds(&PAYER, 7);
    assert_eq!(seeds, vec![b"order".to_vec(), PAYER.to_vec(), vec![7u8]]);
    let with_bump = signer_seeds(&PAYER, 7, 253);
    assert_eq!(with_bump, vec![b"order".to_vec(), PAYER.to_vec(), vec![7u8], vec![253u8]]);
}

#[test]
fn verify_address_accepts_only_the_derived_address() {
    let (address, _) = order_address(7);
    let seeds = order_seeds(&PAYER, 7);
    assert!(verify_address(&address, &seeds, &PROGRAM));
    assert!(!verify_address(&PAYER, &seeds, &PROGRAM));
    let too_long = vec![vec![1u8; 33]];
    assert!(!verify_address(&address, &too_long, &PROGRAM));
}

#[test]
fn roles_need_three_accounts() {
    let accounts = vec![entry(PAYER, true, true), entry([1u8; 32], false, true)];
    assert_eq!(validate_create_order_accounts(&accounts), Err(OrderError::WrongAccountCount));
}

#[test]
fn roles_need_a_signing_payer() {
    let accounts = vec![entry(PAYER, false, true), entry([1u8; 32], false, true), entry(SYSTEM, false, false)];
    assert_eq!(
        validate_create_order_accounts(&accounts),
        Err(OrderError::MissingRequiredSignature)
    );
}

#[test]
fn roles_need_writable_accounts() {
    let accounts = vec![entry(PAYER, true, true), entry([1u8; 32], false, false), entry(SYSTEM, false, false)];
    assert_eq!(validate_create_order_accounts(&accounts), Err(OrderError::AccountNotWritable));
}

#[test]
fn roles_need_the_system_allocator() {
    let accounts = vec![entry(PAYER, true, true), entry([1u8; 32], false, true), entry([2u8; 32], false, false)];
    assert_eq!(validate_create_order_accounts(&accounts), Err(OrderError::WrongAllocator));
}

#[test]
fn roles_bind_by_position() {
    let accounts = order_accounts([1u8; 32]);
    let bound = validate_create_order_accounts(&accounts).unwrap();
    assert_eq!(bound.payer, PAYER);
    assert_eq!(bound.target, [1u8; 32]);
}

#[test]
fn create_order_scenario() {
    let (address, bump) = order_address(7);
    let mut ledger = funded_ledger(10_000_000);
    let data = create_order_bytes(7, 1_000_000, [0u8; 16]);
    assert_eq!(process_instruction(&mut ledger, &PROGRAM, &order_accounts(address), &data, RENT), Ok(()));
    let created = ledger.get(&address).unwrap();
    assert_eq!(created.owner, PROGRAM);
    assert_eq!(created.lamports, RENT);
    let record = OrderAccount::decode(&created.data).unwrap();
    assert_eq!(
        record,
        OrderAccount { status: 0, passenger: PAYER, order_id: 7, price: 1_000_000, memo: [0u8; 16], bump }
    );
    assert_eq!(ledger.get(&PAYER).unwrap().lamports, 10_000_000 - RENT);
    assert_eq!(ledger.len(), 2);
}

#[test]
fn repeated_create_order_fails_and_keeps_the_account() {
    let (address, _) = order_address(7);
    let mut ledger = funded_ledger(10_000_000);
    let data = create_order_bytes(7, 1_000_000, [0u8; 16]);
    process_instruction(&mut ledger, &PROGRAM, &order_accounts(address), &data, RENT).unwrap();
    let before = ledger.clone();
    assert_eq!(
        process_instruction(&mut ledger, &PROGRAM, &order_accounts(address), &data, RENT),
        Err(OrderError::AccountAlreadyInUse)
    );
    assert_eq!(ledger, before);
}

#[test]
fn unsigned_payer_allocates_nothing() {
    let (address, _) = order_address(7);
    let mut ledger = funded_ledger(10_000_000);
    let before = ledger.clone();
    let data = create_order_bytes(7, 1_000_000, [0u8; 16]);
    let mut accounts = order_accounts(address);
    accounts[0].is_signer = false;
    assert_eq!(
        process_instruction(&mut ledger, &PROGRAM, &accounts, &data, RENT),
        Err(OrderError::MissingRequiredSignature)
    );
    assert_eq!(ledger, before);
    assert!(ledger.get(&address).is_none());
}

#[test]
fn wrong_target_is_invalid_seeds() {
    let (other, _) = order_address(8);
    let mut ledger = funded_ledger(10_000_000);
    let before = ledger.clone();
    let data = create_order_bytes(7, 1_000_000, [0u8; 16]);
    assert_eq!(
        process_instruction(&mut ledger, &PROGRAM, &order_accounts(other), &data, RENT),
        Err(OrderError::InvalidSeeds)
    );
    assert_eq!(ledger, before);
}

#[test]
fn unknown_tag_is_malformed() {
    let (address, _) = order_address(7);
    let mut ledger = funded_ledger(10_000_000);
    let mut data = create_order_bytes(7, 1_000_000, [0u8; 16]);
    data[0] = 2;
    assert_eq!(
        process_instruction(&mut ledger, &PROGRAM, &order_accounts(address), &data, RENT),
        Err(OrderError::MalformedPayload)
    );
    assert_eq!(process_instruction(&mut ledger, &PROGRAM, &order_accounts(address), &[], RENT), Err(OrderError::MalformedPayload));
}

#[test]
fn poor_payer_is_insufficient_funds() {
    let (address, _) = order_address(7);
    let mut ledger = funded_ledger(RENT - 1);
    let before = ledger.clone();
    let data = create_order_bytes(7, 1_000_000, [0u8; 16]);
    assert_eq!(
        process_create_order(&mut ledger, &PROGRAM, &order_accounts(address), &data, RENT),
        Err(OrderError::InsufficientFunds)
    );
    assert_eq!(ledger, before);
    let mut empty = Ledger::new();
    assert_eq!(
        process_create_order(&mut empty, &PROGRAM, &order_accounts(address), &data, RENT),
        Err(OrderError::InsufficientFunds)
    );
}

#[test]
fn exact_balance_is_enough() {
    let (address, _) = order_address(7);
    let mut ledger = funded_ledger(RENT);
    let data = create_order_bytes(7, 1_000_000, [0u8; 16]);
    assert_eq!(process_create_order(&mut ledger, &PROGRAM, &order_accounts(address), &data, RENT), Ok(()));
    assert_eq!(ledger.get(&PAYER).unwrap().lamports, 0);
}

#[test]
fn plan_changes_nothing_and_names_the_record() {
    let (address, bump) = order_address(3);
    let data = create_order_bytes(3, 55, [1u8; 16]);
    let plan = plan_create_order(&PROGRAM, &order_accounts(address), &data).unwrap();
    assert_eq!(plan.target, address);
    assert_eq!(plan.record.passenger, PAYER);
    assert_eq!(plan.record.bump, bump);
    assert_eq!(plan.record.price, 55);
    assert_eq!(plan.record.memo, [1u8; 16]);
}

#[test]
fn ledger_refuses_a_second_account_at_one_address() {
    let mut ledger = funded_ledger(1);
    let again = HostAccount { address: PAYER, owner: SYSTEM, lamports: 5, data: vec![1] };
    assert_eq!(ledger.insert(again), Err(OrderError::AccountAlreadyInUse));
    assert_eq!(ledger.get(&PAYER).unwrap().lamports, 1);
}

#[test]
fn allocator_zero_fills_the_new_account() {
    let mut ledger = funded_ledger(100);
    let target = [4u8; 32];
    assert_eq!(ledger.create_account(&PAYER, &target, 40, 12, &PROGRAM), Ok(1));
    let created = ledger.get(&target).unwrap();
    assert_eq!(created.data, vec![0u8; 12]);
    assert_eq!(created.lamports, 40);
    assert_eq!(ledger.get(&PAYER).unwrap().lamports, 60);
}
