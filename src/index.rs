//! Translation between positions in a batch of peer messages and the
//! participants' global indices, which are also their FROST identifiers.
use vstd::prelude::*;

verus! {

/// Global index of the sender at `position` of a batch that omits the
/// participant whose global index is `local`: the batch skips that slot.
pub open spec fn peer_identifier(position: int, local: int) -> int {
    if position + 1 >= local {
        position + 2
    } else {
        position + 1
    }
}

/// Index into a signing subset of the sender at `position` of a batch that
/// omits the participant standing at `local_index` of that subset.
pub open spec fn subset_slot(position: int, local_index: int) -> int {
    if position >= local_index {
        position + 1
    } else {
        position
    }
}

/// The identifiers that the skip-self rule gives are distinct, increase with
/// the position, are at least 1, and are never the receiver's own.
pub proof fn lemma_peer_identifiers_distinct(local: int, i: int, j: int)
    requires
        local >= 1,
        0 <= i < j,
    ensures
        peer_identifier(i, local) < peer_identifier(j, local),
        peer_identifier(i, local) != local,
        peer_identifier(i, local) >= 1,
{
}

/// A subset slot reached from a batch position is never the receiver's own.
pub proof fn lemma_subset_slot_skips_self(position: int, local_index: int, len: int)
    requires
        0 <= position,
        position + 1 < len,
        0 <= local_index < len,
    ensures
        subset_slot(position, local_index) != local_index,
        0 <= subset_slot(position, local_index) < len,
{
}

/// Position of `own` within `indices`, the first one if it occurs twice.
pub fn position_of(indices: &Vec<u16>, own: u16) -> (r: Option<usize>)
    ensures
        match r {
            Some(i) => i < indices@.len() && indices@[i as int] == own && forall|j: int|
                0 <= j < i ==> indices@[j] != own,
            None => !indices@.contains(own),
        },
{
    let mut i: usize = 0;
    while i < indices.len()
        invariant
            i <= indices@.len(),
            forall|j: int| 0 <= j < i ==> indices@[j] != own,
        decreases indices@.len() - i,
    {
        if indices[i] == own {
            return Some(i);
        }
        i = i + 1;
    }
    None
}

/// Reads a FROST identifier, a big-endian scalar of 32 bytes, as a
/// participant number; `None` where it does not fit in 16 bits.
pub fn identifier_number(bytes: &Vec<u8>) -> (r: Option<u16>)
    ensures
        r == (if bytes@.len() == 32 && forall|k: int| 0 <= k < 30 ==> bytes@[k] == 0 {
            Some((bytes@[30] as int * 256 + bytes@[31] as int) as u16)
        } else {
            None::<u16>
        }),
{
    if bytes.len() != 32 {
        return None;
    }
    let mut k: usize = 0;
    while k < 30
        invariant
            bytes@.len() == 32,
            k <= 30,
            forall|j: int| 0 <= j < k ==> bytes@[j] == 0,
        decreases 30 - k,
    {
        if bytes[k] != 0 {
            return None;
        }
        k = k + 1;
    }
    Some((bytes[30] as u16) * 256 + bytes[31] as u16)
}

} // verus!
