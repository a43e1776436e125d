use vstd::prelude::*;
use crate::codec::push_bytes;
use crate::error::OrderError;

verus! {

/// The program-derived address and disambiguation byte that the ledger's
/// search finds for `seeds` under `program_id`, if any byte gives one.
pub uninterp spec fn program_address_of(seeds: Seq<Seq<u8>>, program_id: Seq<u8>) -> Option<(Seq<u8>, u8)>;

/// Relies on solana_program's `Pubkey::try_find_program_address`: it searches
/// the disambiguation byte and returns the first address off the curve, or
/// `None`. The outcome depends on the seeds and the program identity alone.
#[verifier::external_body]
fn try_find_program_address(seeds: &Vec<Vec<u8>>, program_id: &[u8; 32]) -> (r: Option<([u8; 32], u8)>)
    ensures
        match r {
            Some((a, b)) => program_address_of(seeds.deep_view(), program_id@) == Some((a@, b)),
            None => program_address_of(seeds.deep_view(), program_id@) is None,
        },
{
    let refs: Vec<&[u8]> = seeds.iter().map(|s| s.as_slice()).collect();
    let program = solana_program::pubkey::Pubkey::new_from_array(*program_id);
    solana_program::pubkey::Pubkey::try_find_program_address(&refs, &program).map(
        |(k, b)| (k.to_bytes(), b),
    )
}

/// The ASCII bytes of the word "order", the namespace seed of order accounts.
pub open spec fn order_namespace() -> Seq<u8> {
    seq![111u8, 114u8, 100u8, 101u8, 114u8]
}

/// The seeds of the order account of `payer` for `order_id`.
pub open spec fn order_seeds_spec(payer: Seq<u8>, order_id: u8) -> Seq<Seq<u8>> {
    seq![order_namespace(), payer, seq![order_id]]
}

/// The derived address and byte of the order account of `payer` for `order_id`.
pub open spec fn order_address_spec(program_id: Seq<u8>, payer: Seq<u8>, order_id: u8) -> Option<(Seq<u8>, u8)> {
    program_address_of(order_seeds_spec(payer, order_id), program_id)
}

/// Whether two identities hold the same bytes.
pub fn same_address(a: &[u8; 32], b: &[u8; 32]) -> (r: bool)
    ensures
        r == (a@ == b@),
{
    let mut i: usize = 0;
    while i < 32
        invariant
            i <= 32,
            a@.len() == 32,
            b@.len() == 32,
            forall|j: int| 0 <= j < i ==> a@[j] == b@[j],
        decreases 32 - i,
    {
        if a[i] != b[i] {
            return false;
        }
        i = i + 1;
    }
    assert(a@ =~= b@);
    true
}

/// The seeds of the order account of `payer` for `order_id`.
pub fn order_seeds(payer: &[u8; 32], order_id: u8) -> (r: Vec<Vec<u8>>)
    ensures
        r.deep_view() == order_seeds_spec(payer@, order_id),
{
    let mut out: Vec<Vec<u8>> = Vec::new();
    let namespace: Vec<u8> = vec![111u8, 114u8, 100u8, 101u8, 114u8];
    let mut payer_bytes: Vec<u8> = Vec::new();
    push_bytes(&mut payer_bytes, payer);
    let id: Vec<u8> = vec![order_id];
    assert(namespace.deep_view() =~= order_namespace());
    assert(payer_bytes.deep_view() =~= payer@);
    assert(id.deep_view() =~= seq![order_id]);
    out.push(namespace);
    out.push(payer_bytes);
    out.push(id);
    assert(out.deep_view() =~= order_seeds_spec(payer@, order_id));
    out
}

/// The seeds that authorise the order account: its derivation seeds followed
/// by the found disambiguation byte.
pub fn signer_seeds(payer: &[u8; 32], order_id: u8, bump: u8) -> (r: Vec<Vec<u8>>)
    ensures
        r.deep_view() == order_seeds_spec(payer@, order_id).push(seq![bump]),
{
    let mut out = order_seeds(payer, order_id);
    let b: Vec<u8> = vec![bump];
    assert(b.deep_view() =~= seq![bump]);
    out.push(b);
    assert(out.deep_view() =~= order_seeds_spec(payer@, order_id).push(seq![bump]));
    out
}

/// Derives the address of the order account of `payer` for `order_id`.
pub fn derive_order_address(program_id: &[u8; 32], payer: &[u8; 32], order_id: u8) -> (r: Result<([u8; 32], u8), OrderError>)
    ensures
        derivation_outcome(order_address_spec(program_id@, payer@, order_id), r),
{
    let seeds = order_seeds(payer, order_id);
    match try_find_program_address(&seeds, program_id) {
        Some(found) => Ok(found),
        None => Err(OrderError::DerivationExhausted),
    }
}

/// Whether `candidate` is the address derived from `seeds` under `program_id`.
pub fn verify_address(candidate: &[u8; 32], seeds: &Vec<Vec<u8>>, program_id: &[u8; 32]) -> (r: bool)
    ensures
        r == (program_address_of(seeds.deep_view(), program_id@) matches Some((a, _))
            && a == candidate@),
{
    match try_find_program_address(seeds, program_id) {
        Some((a, _)) => same_address(&a, candidate),
        None => false,
    }
}

/// How the result of a derivation stands to the searched value.
pub open spec fn derivation_outcome(found: Option<(Seq<u8>, u8)>, r: Result<([u8; 32], u8), OrderError>) -> bool {
    match found {
        Some((a, b)) => r matches Ok((ra, rb)) && ra@ == a && rb == b,
        None => r == Err::<([u8; 32], u8), OrderError>(OrderError::DerivationExhausted),
    }
}

/// Deriving the order address twice from the same program identity, payer
/// and order id gives the same address and the same disambiguation byte.
pub proof fn lemma_derivation_deterministic(
    program_id: Seq<u8>,
    payer: Seq<u8>,
    order_id: u8,
    first: Result<([u8; 32], u8), OrderError>,
    second: Result<([u8; 32], u8), OrderError>,
)
    requires
        derivation_outcome(order_address_spec(program_id, payer, order_id), first),
        derivation_outcome(order_address_spec(program_id, payer, order_id), second),
    ensures
        first == second,
{
    if let Ok((a1, b1)) = first {
        let (a2, b2) = second.unwrap();
        assert(a1@ =~= a2@);
        assert(a1 == a2);
    }
}

} // verus!
