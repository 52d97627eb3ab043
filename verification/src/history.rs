//! Seeding of the seen-hash stack from game history. A zeroing move (a pawn
//! move or a capture) resets the repetition history, so positions before it
//! can never repeat; every position reached is then recorded by its Zobrist
//! hash. The search treats any hash on the stack as a draw when met again.

use vstd::prelude::*;

verus! {

/// Record the position reached after one move: clear the stack first when
/// the move was zeroing, then push the new position's hash.
pub fn record_position(previously_seen_hashes: &mut Vec<u64>, is_zeroing: bool, hash: u64)
    ensures
        final(previously_seen_hashes)@ == (if is_zeroing {
            seq![hash]
        } else {
            old(previously_seen_hashes)@.push(hash)
        }),
{
    if is_zeroing {
        previously_seen_hashes.clear();
    }
    previously_seen_hashes.push(hash);
    proof {
        if is_zeroing {
            assert(previously_seen_hashes@ =~= seq![hash]);
        }
    }
}

} // verus!
