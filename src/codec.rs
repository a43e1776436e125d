use vstd::prelude::*;
use crate::error::OrderError;

verus! {

/// Leading byte of a CreateOrder instruction.
pub const CREATE_ORDER_TAG: u8 = 1;

/// Width of a whole CreateOrder instruction: tag, order id, price, memo.
pub const INSTRUCTION_LEN: usize = 26;

/// Width of a persisted order record.
pub const ORDER_ACCOUNT_LEN: usize = 59;

/// The payload of a CreateOrder instruction.
#[derive(Debug, Clone, Copy, PartialEq, Eq)]
pub struct OrderInstructionData {
    pub order_id: u8,
    pub price: u64,
    pub memo: [u8; 16],
}

/// Instructions the program understands, selected by the leading byte.
#[derive(Debug, Clone, Copy, PartialEq, Eq)]
pub enum Instruction {
    CreateOrder(OrderInstructionData),
}

/// The record stored in an order account.
#[derive(Debug, Clone, Copy, PartialEq, Eq)]
pub struct OrderAccount {
    /// 0 once created.
    pub status: u8,
    /// The identity of the paying signer.
    pub passenger: [u8; 32],
    pub order_id: u8,
    pub price: u64,
    pub memo: [u8; 16],
    /// The disambiguation byte of the account's derived address.
    pub bump: u8,
}

/// A message sent to the greeting program.
#[derive(Debug, Clone, PartialEq, Eq)]
pub struct HelloInstruction {
    pub message: String,
}

/// The record as mathematical values.
pub struct OrderAccountView {
    pub status: u8,
    pub passenger: Seq<u8>,
    pub order_id: u8,
    pub price: u64,
    pub memo: Seq<u8>,
    pub bump: u8,
}

impl View for OrderAccount {
    type V = OrderAccountView;

    open spec fn view(&self) -> OrderAccountView {
        OrderAccountView {
            status: self.status,
            passenger: self.passenger@,
            order_id: self.order_id,
            price: self.price,
            memo: self.memo@,
            bump: self.bump,
        }
    }
}

impl OrderAccountView {
    /// The widths that the record's byte arrays have.
    pub open spec fn wf(self) -> bool {
        self.passenger.len() == 32 && self.memo.len() == 16
    }
}

/// The eight little-endian bytes of `v`.
pub open spec fn u64_le(v: u64) -> Seq<u8> {
    seq![
        v as u8,
        (v >> 8u64) as u8,
        (v >> 16u64) as u8,
        (v >> 24u64) as u8,
        (v >> 32u64) as u8,
        (v >> 40u64) as u8,
        (v >> 48u64) as u8,
        (v >> 56u64) as u8,
    ]
}

/// The number whose little-endian bytes are `b[0..8]`.
pub open spec fn le_u64(b: Seq<u8>) -> u64 {
    (b[0] as u64) | ((b[1] as u64) << 8u64) | ((b[2] as u64) << 16u64) | ((b[3] as u64)
        << 24u64) | ((b[4] as u64) << 32u64) | ((b[5] as u64) << 40u64) | ((b[6] as u64)
        << 48u64) | ((b[7] as u64) << 56u64)
}

/// Reading back the eight bytes of a number gives the number.
pub proof fn lemma_le_u64_round_trip(v: u64)
    ensures
        le_u64(u64_le(v)) == v,
        u64_le(v).len() == 8,
{
    let b = u64_le(v);
    let (b0, b1, b2, b3, b4, b5, b6, b7) = (b[0], b[1], b[2], b[3], b[4], b[5], b[6], b[7]);
    assert(b0 == v as u8 && b1 == (v >> 8u64) as u8 && b2 == (v >> 16u64) as u8 && b3 == (v
        >> 24u64) as u8 && b4 == (v >> 32u64) as u8 && b5 == (v >> 40u64) as u8 && b6 == (v
        >> 48u64) as u8 && b7 == (v >> 56u64) as u8);
    assert((v as u8 as u64) | (((v >> 8u64) as u8 as u64) << 8u64) | (((v >> 16u64) as u8
        as u64) << 16u64) | (((v >> 24u64) as u8 as u64) << 24u64) | (((v >> 32u64) as u8
        as u64) << 32u64) | (((v >> 40u64) as u8 as u64) << 40u64) | (((v >> 48u64) as u8
        as u64) << 48u64) | (((v >> 56u64) as u8 as u64) << 56u64) == v) by (bit_vector);
}

/// Writing out the number read from eight bytes gives those bytes.
pub proof fn lemma_u64_le_of_bytes(s: Seq<u8>)
    requires
        s.len() == 8,
    ensures
        u64_le(le_u64(s)) == s,
{
    let (b0, b1, b2, b3, b4, b5, b6, b7) = (s[0], s[1], s[2], s[3], s[4], s[5], s[6], s[7]);
    let v = le_u64(s);
    assert(v == (b0 as u64) | ((b1 as u64) << 8u64) | ((b2 as u64) << 16u64) | ((b3 as u64)
        << 24u64) | ((b4 as u64) << 32u64) | ((b5 as u64) << 40u64) | ((b6 as u64) << 48u64)
        | ((b7 as u64) << 56u64));
    assert(v == (b0 as u64) | ((b1 as u64) << 8u64) | ((b2 as u64) << 16u64) | ((b3 as u64)
        << 24u64) | ((b4 as u64) << 32u64) | ((b5 as u64) << 40u64) | ((b6 as u64) << 48u64)
        | ((b7 as u64) << 56u64) ==> v as u8 == b0 && (v >> 8u64) as u8 == b1 && (v >> 16u64)
        as u8 == b2 && (v >> 24u64) as u8 == b3 && (v >> 32u64) as u8 == b4 && (v >> 40u64)
        as u8 == b5 && (v >> 48u64) as u8 == b6 && (v >> 56u64) as u8 == b7) by (bit_vector);
    assert(u64_le(v) =~= s);
}

/// The wire form of a CreateOrder instruction.
pub open spec fn instruction_bytes(d: OrderInstructionData) -> Seq<u8> {
    seq![CREATE_ORDER_TAG, d.order_id] + u64_le(d.price) + d.memo@
}

/// The persisted form of an order record.
pub open spec fn record_bytes(r: OrderAccountView) -> Seq<u8> {
    seq![r.status] + r.passenger + seq![r.order_id] + u64_le(r.price) + r.memo + seq![r.bump]
}

/// The record read from fixed offsets of `b`.
pub open spec fn record_of_bytes(b: Seq<u8>) -> OrderAccountView {
    OrderAccountView {
        status: b[0],
        passenger: b.subrange(1, 33),
        order_id: b[33],
        price: le_u64(b.subrange(34, 42)),
        memo: b.subrange(42, 58),
        bump: b[58],
    }
}

/// Decoding an encoded record gives the record back.
pub proof fn lemma_record_round_trip(r: OrderAccountView)
    requires
        r.wf(),
    ensures
        record_bytes(r).len() == ORDER_ACCOUNT_LEN,
        record_of_bytes(record_bytes(r)) == r,
{
    lemma_le_u64_round_trip(r.price);
    let b = record_bytes(r);
    assert(b.subrange(1, 33) =~= r.passenger);
    assert(b.subrange(34, 42) =~= u64_le(r.price));
    assert(b.subrange(42, 58) =~= r.memo);
}

fn read_u64_le(b: &[u8], start: usize) -> (r: u64)
    requires
        start + 8 <= b@.len(),
    ensures
        r == le_u64(b@.subrange(start as int, start + 8)),
{
    let ghost s = b@.subrange(start as int, start + 8);
    assert(s[0] == b[start as int] && s[1] == b[start + 1] && s[2] == b[start + 2] && s[3]
        == b[start + 3] && s[4] == b[start + 4] && s[5] == b[start + 5] && s[6] == b[start
        + 6] && s[7] == b[start + 7]);
    (b[start] as u64) | ((b[start + 1] as u64) << 8u64) | ((b[start + 2] as u64) << 16u64)
        | ((b[start + 3] as u64) << 24u64) | ((b[start + 4] as u64) << 32u64) | ((b[start
        + 5] as u64) << 40u64) | ((b[start + 6] as u64) << 48u64) | ((b[start + 7] as u64)
        << 56u64)
}

fn push_u64_le(out: &mut Vec<u8>, v: u64)
    ensures
        final(out)@ == old(out)@ + u64_le(v),
{
    out.push(v as u8);
    out.push((v >> 8u64) as u8);
    out.push((v >> 16u64) as u8);
    out.push((v >> 24u64) as u8);
    out.push((v >> 32u64) as u8);
    out.push((v >> 40u64) as u8);
    out.push((v >> 48u64) as u8);
    out.push((v >> 56u64) as u8);
    assert(final(out)@ =~= old(out)@ + u64_le(v));
}

pub(crate) fn push_bytes(out: &mut Vec<u8>, src: &[u8])
    ensures
        final(out)@ == old(out)@ + src@,
{
    let mut i: usize = 0;
    while i < src.len()
        invariant
            i <= src@.len(),
            out@ == old(out)@ + src@.subrange(0, i as int),
        decreases src@.len() - i,
    {
        out.push(src[i]);
        i = i + 1;
        assert(out@ =~= old(out)@ + src@.subrange(0, i as int));
    }
    assert(src@.subrange(0, i as int) =~= src@);
}

fn copy_16(b: &[u8], start: usize) -> (r: [u8; 16])
    requires
        start + 16 <= b@.len(),
    ensures
        r@ == b@.subrange(start as int, start + 16),
{
    let mut r: [u8; 16] = [0u8; 16];
    let n: usize = b.len();
    let mut i: usize = 0;
    while i < 16
        invariant
            i <= 16,
            n == b@.len(),
            start + 16 <= b@.len(),
            r@.len() == 16,
            forall|j: int| 0 <= j < i ==> r@[j] == b@[start + j],
        decreases 16 - i,
    {
        r[i] = b[start + i];
        i = i + 1;
    }
    assert(r@ =~= b@.subrange(start as int, start + 16));
    r
}

fn copy_32(b: &[u8], start: usize) -> (r: [u8; 32])
    requires
        start + 32 <= b@.len(),
    ensures
        r@ == b@.subrange(start as int, start + 32),
{
    let mut r: [u8; 32] = [0u8; 32];
    let n: usize = b.len();
    let mut i: usize = 0;
    while i < 32
        invariant
            i <= 32,
            n == b@.len(),
            start + 32 <= b@.len(),
            r@.len() == 32,
            forall|j: int| 0 <= j < i ==> r@[j] == b@[start + j],
        decreases 32 - i,
    {
        r[i] = b[start + i];
        i = i + 1;
    }
    assert(r@ =~= b@.subrange(start as int, start + 32));
    r
}

impl Instruction {
    /// Reads an instruction: exactly `INSTRUCTION_LEN` bytes, led by a known tag.
    pub fn decode(data: &[u8]) -> (r: Result<Instruction, OrderError>)
        ensures
            r is Ok <==> (data@.len() == INSTRUCTION_LEN && data@[0] == CREATE_ORDER_TAG),
            r is Err ==> r == Err::<Instruction, OrderError>(OrderError::MalformedPayload),
            r matches Ok(Instruction::CreateOrder(d)) ==> {
                &&& d.order_id == data@[1]
                &&& d.price == le_u64(data@.subrange(2, 10))
                &&& d.memo@ == data@.subrange(10, 26)
                &&& instruction_bytes(d) == data@
            },
    {
        if data.len() != INSTRUCTION_LEN || data[0] != CREATE_ORDER_TAG {
            return Err(OrderError::MalformedPayload);
        }
        let d = OrderInstructionData {
            order_id: data[1],
            price: read_u64_le(data, 2),
            memo: copy_16(data, 10),
        };
        proof {
            lemma_le_u64_round_trip(d.price);
            let s = data@.subrange(2, 10);
            lemma_u64_le_of_bytes(s);
            assert(instruction_bytes(d) =~= data@);
        }
        Ok(Instruction::CreateOrder(d))
    }
}

impl OrderInstructionData {
    /// The wire form of this payload as a CreateOrder instruction.
    pub fn encode(&self) -> (r: Vec<u8>)
        ensures
            r@ == instruction_bytes(*self),
    {
        let mut out: Vec<u8> = Vec::new();
        out.push(CREATE_ORDER_TAG);
        out.push(self.order_id);
        push_u64_le(&mut out, self.price);
        push_bytes(&mut out, &self.memo);
        assert(out@ =~= instruction_bytes(*self));
        out
    }
}

impl OrderAccount {
    /// The persisted form: status, passenger, order id, price, memo, bump.
    pub fn encode(&self) -> (r: Vec<u8>)
        ensures
            r@ == record_bytes(self@),
            r@.len() == ORDER_ACCOUNT_LEN,
    {
        let mut out: Vec<u8> = Vec::new();
        out.push(self.status);
        push_bytes(&mut out, &self.passenger);
        out.push(self.order_id);
        push_u64_le(&mut out, self.price);
        push_bytes(&mut out, &self.memo);
        out.push(self.bump);
        assert(out@ =~= record_bytes(self@));
        out
    }

    /// Reads a record: exactly `ORDER_ACCOUNT_LEN` bytes.
    pub fn decode(b: &[u8]) -> (r: Result<OrderAccount, OrderError>)
        ensures
            r is Ok <==> b@.len() == ORDER_ACCOUNT_LEN,
            r is Err ==> r == Err::<OrderAccount, OrderError>(OrderError::MalformedPayload),
            r matches Ok(rec) ==> rec@ == record_of_bytes(b@),
    {
        if b.len() != ORDER_ACCOUNT_LEN {
            return Err(OrderError::MalformedPayload);
        }
        Ok(
            OrderAccount {
                status: b[0],
                passenger: copy_32(b, 1),
                order_id: b[33],
                price: read_u64_le(b, 34),
                memo: copy_16(b, 42),
                bump: b[58],
            },
        )
    }
}

} // verus!
