use vstd::prelude::*;

verus! {

/// The identity of an observed block (its hash), or `None` when no block
/// was available.
pub open spec fn block_id_view(b: &Option<Vec<u8>>) -> Option<Seq<u8>> {
    match b {
        Some(h) => Some(h@),
        None => None,
    }
}

fn same_bytes(a: &Vec<u8>, b: &Vec<u8>) -> (r: bool)
    ensures
        r == (a@ == b@),
{
    if a.len() != b.len() {
        return false;
    }
    let mut i: usize = 0;
    while i < a.len()
        invariant
            0 <= i <= a@.len(),
            a@.len() == b@.len(),
            forall|j: int| 0 <= j < i ==> a@[j] == b@[j],
        decreases a@.len() - i,
    {
        if a[i] != b[i] {
            return false;
        }
        i = i + 1;
    }
    assert(a@ =~= b@);
    true
}

/// Whether the latest observation starts a new block to process: it does
/// exactly when its identity differs from the one observed before.
pub fn is_new_block(last: &Option<Vec<u8>>, current: &Option<Vec<u8>>) -> (r: bool)
    ensures
        r == (block_id_view(last) != block_id_view(current)),
{
    match (last, current) {
        (Some(a), Some(b)) => !same_bytes(a, b),
        (None, None) => false,
        _ => true,
    }
}

} // verus!
