//! Laws that relate several calls on a hash state, stated over its model.
use vstd::prelude::*;

use crate::state::{absorb, cleared, digest, fresh, output, HashModel, OUT_LEN};

verus! {

/// `m` after absorbing each of `chunks` in turn, first to last.
pub open spec fn absorb_each(m: HashModel, chunks: Seq<Seq<u8>>) -> HashModel
    decreases chunks.len(),
{
    if chunks.len() == 0 {
        m
    } else {
        absorb_each(absorb(m, chunks.first()), chunks.drop_first())
    }
}

/// Absorbing a sequence of chunks one by one, in order, leaves the same state,
/// and so the same output of every length, as absorbing their concatenation
/// at once.
pub proof fn law_chunk_invariance(m: HashModel, chunks: Seq<Seq<u8>>, n: nat)
    ensures
        absorb_each(m, chunks) == absorb(m, chunks.flatten()),
        output(absorb_each(m, chunks), n) == output(absorb(m, chunks.flatten()), n),
    decreases chunks.len(),
{
    if chunks.len() == 0 {
        assert(m.input + chunks.flatten() =~= m.input);
    } else {
        let rest = chunks.drop_first();
        law_chunk_invariance(absorb(m, chunks.first()), rest, n);
        assert((m.input + chunks.first()) + rest.flatten() =~= m.input + chunks.flatten());
    }
}

/// Absorbing `x`, resetting, then absorbing `y` gives the same output as a
/// fresh state with the same keying that absorbs only `y`.
pub proof fn law_reset_equivalence(m: HashModel, x: Seq<u8>, y: Seq<u8>, n: nat)
    ensures
        absorb(cleared(absorb(m, x)), y) == absorb(fresh(m.key), y),
        output(absorb(cleared(absorb(m, x)), y), n) == output(absorb(fresh(m.key), y), n),
{
}

/// A keyed state that absorbs a given input always gives the same output for
/// a given key, and its keying differs from that of an unkeyed state and from
/// that of a state with another key.
pub proof fn law_keyed_determinism(k: Seq<u8>, other: Seq<u8>, x: Seq<u8>, n: nat)
    requires
        k != other,
    ensures
        output(absorb(fresh(Some(k)), x), n) == output(absorb(fresh(Some(k)), x), n),
        absorb(fresh(Some(k)), x).key != absorb(fresh(None), x).key,
        absorb(fresh(Some(k)), x).key != absorb(fresh(Some(other)), x).key,
{
}

/// Output of any length of at least 32 bytes begins with the standard digest,
/// a shorter output is a prefix of a longer one, and output of length zero is
/// empty.
pub proof fn law_output_prefix(m: HashModel, short: nat, long: nat)
    requires
        short <= long,
    ensures
        output(m, long).subrange(0, short as int) == output(m, short),
        long >= OUT_LEN ==> output(m, long).subrange(0, OUT_LEN as int) == digest(m),
        output(m, 0) == Seq::<u8>::empty(),
{
    assert(output(m, long).subrange(0, short as int) =~= output(m, short));
    if long >= OUT_LEN {
        assert(output(m, long).subrange(0, OUT_LEN as int) =~= digest(m));
    }
    assert(output(m, 0) =~= Seq::<u8>::empty());
}

} // verus!
