//! Replacing a range of a buffer by bytes of another length.

use vstd::prelude::*;

verus! {

/// `buffer` with the `old_size` bytes from `offset` on taken out and `payload`
/// put in their place: what lay before `offset`, then `payload`, then what lay
/// behind the range.
pub open spec fn spliced(buffer: Seq<u8>, offset: int, old_size: int, payload: Seq<u8>) -> Seq<u8> {
    buffer.subrange(0, offset) + payload + buffer.subrange(
        offset + old_size,
        buffer.len() as int,
    )
}

/// Replaces the `old_size` bytes of `buffer` that start at `offset` by
/// `payload`. The buffer grows or shrinks by the difference of the two lengths,
/// and the bytes behind the range move accordingly.
pub fn splice(buffer: &mut Vec<u8>, offset: usize, old_size: usize, payload: &[u8])
    requires
        offset + old_size <= old(buffer)@.len(),
    ensures
        final(buffer)@ == spliced(old(buffer)@, offset as int, old_size as int, payload@),
{
    let total: usize = buffer.len();
    assert(offset + old_size <= total);
    let mut tail = buffer.split_off(offset + old_size);
    buffer.truncate(offset);
    buffer.extend_from_slice(payload);
    buffer.append(&mut tail);
    assert(buffer@ =~= spliced(old(buffer)@, offset as int, old_size as int, payload@));
}

} // verus!
