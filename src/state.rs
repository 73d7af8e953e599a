//! The hash state and its lifecycle: create, update, reset, finalize, destroy.
use vstd::prelude::*;

use crate::primitive::{
    absorbed, hasher_fill_output, hasher_finalize, hasher_new, hasher_new_keyed, hasher_reset,
    hasher_update, key_of, output_prefix, starts_at_root,
};

verus! {

/// Size in bytes of the standard digest.
pub const OUT_LEN: usize = 32;

/// Size in bytes of the key of the keyed hash function.
pub const KEY_LEN: usize = 32;

/// What a hash state stands for: its keying mode, fixed when it was made, and
/// the bytes absorbed since it was made or last reset, in order.
pub struct HashModel {
    pub key: Option<Seq<u8>>,
    pub input: Seq<u8>,
}

/// A state made with `key` (`None` for the plain hash function) that has
/// absorbed nothing.
pub open spec fn fresh(key: Option<Seq<u8>>) -> HashModel {
    HashModel { key, input: Seq::empty() }
}

/// `m` after absorbing `bytes`.
pub open spec fn absorb(m: HashModel, bytes: Seq<u8>) -> HashModel {
    HashModel { key: m.key, input: m.input + bytes }
}

/// `m` after a reset: the input is gone, the key stays.
pub open spec fn cleared(m: HashModel) -> HashModel {
    fresh(m.key)
}

/// The `n` output bytes of `m`: the first `n` bytes of its output stream.
pub open spec fn output(m: HashModel, n: nat) -> Seq<u8> {
    output_prefix(m.key, m.input, n)
}

/// The standard 32-byte digest of `m`.
pub open spec fn digest(m: HashModel) -> Seq<u8> {
    output(m, OUT_LEN as nat)
}

/// A streaming hash state, owned by whoever holds it.
pub struct HashState {
    hasher: blake3::Hasher,
}

impl View for HashState {
    type V = HashModel;

    closed spec fn view(&self) -> HashModel {
        HashModel { key: key_of(self.hasher), input: absorbed(self.hasher) }
    }
}

impl HashState {
    /// The state hashes from the start of its input, so that finalizing it
    /// cannot fail.
    pub closed spec fn wf(&self) -> bool {
        starts_at_root(self.hasher)
    }
}

/// Makes a state for the plain (unkeyed) hash function.
pub fn blake3_new() -> (r: HashState)
    ensures
        r.wf(),
        r@ == fresh(None),
{
    HashState { hasher: hasher_new() }
}

/// Makes a state for the keyed hash function, with a copy of the first 32
/// bytes of `key` as its key.
pub fn blake3_new_keyed(key: &[u8]) -> (r: HashState)
    requires
        key@.len() >= KEY_LEN,
    ensures
        r.wf(),
        r@ == fresh(Some(key@.subrange(0, KEY_LEN as int))),
{
    let mut k: [u8; 32] = [0u8; 32];
    let mut i: usize = 0;
    while i < KEY_LEN
        invariant
            i <= KEY_LEN,
            key@.len() >= KEY_LEN,
            k@.len() == KEY_LEN,
            forall|j: int| 0 <= j < i ==> k@[j] == key@[j],
        decreases KEY_LEN - i,
    {
        k[i] = key[i];
        i = i + 1;
    }
    assert(k@ =~= key@.subrange(0, KEY_LEN as int));
    HashState { hasher: hasher_new_keyed(&k) }
}

/// Destroys a state and releases what it owns; nothing happens for `None`.
pub fn blake3_free(state: Option<Box<HashState>>) {
    match state {
        Some(_owned) => {},
        None => {},
    }
}

/// Clears the absorbed input and keeps the keying mode and key.
pub fn blake3_reset(state: &mut HashState)
    requires
        old(state).wf(),
    ensures
        final(state).wf(),
        final(state)@ == cleared(old(state)@),
{
    hasher_reset(&mut state.hasher);
}

/// Appends `input` to the absorbed input.
pub fn blake3_update(state: &mut HashState, input: &[u8])
    requires
        old(state).wf(),
    ensures
        final(state).wf(),
        final(state)@ == absorb(old(state)@, input@),
{
    hasher_update(&mut state.hasher, input);
}

/// Writes `output.len()` bytes of output for everything absorbed so far: the
/// standard digest where that length is 32, else that many bytes of the
/// extendable output. The state is only read.
pub fn blake3_finalize(state: &HashState, output: &mut [u8])
    requires
        state.wf(),
    ensures
        final(output)@ == crate::state::output(state@, old(output)@.len()),
        old(output)@.len() == OUT_LEN ==> final(output)@ == digest(state@),
{
    if output.len() == OUT_LEN {
        let d = hasher_finalize(&state.hasher);
        let mut i: usize = 0;
        while i < OUT_LEN
            invariant
                i <= OUT_LEN,
                output@.len() == OUT_LEN,
                d@ == digest(state@),
                forall|j: int| 0 <= j < i ==> output@[j] == d@[j],
            decreases OUT_LEN - i,
        {
            output[i] = d[i];
            i = i + 1;
        }
        assert(output@ =~= digest(state@));
    } else {
        hasher_fill_output(&state.hasher, output);
        assert(output@ =~= crate::state::output(state@, output@.len() as nat));
    }
}

} // verus!
