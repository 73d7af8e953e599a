//! The calls into the `blake3` crate, each behind one trusted item.
use vstd::prelude::*;

verus! {

#[verifier::external_type_specification]
#[verifier::external_body]
pub struct ExHasher(blake3::Hasher);

/// The bytes that a `blake3::Hasher` has taken in through `update` since it
/// was made or last reset.
pub uninterp spec fn absorbed(h: blake3::Hasher) -> Seq<u8>;

/// The 32-byte key a `blake3::Hasher` was made with, or `None` for the plain
/// hash function. (A hasher for key derivation, which this library never
/// makes, has some value that is neither.)
pub uninterp spec fn key_of(h: blake3::Hasher) -> Option<Seq<u8>>;

/// Whether the hasher hashes from input offset zero, as every hasher made by
/// `new` or `new_keyed` does; `finalize` and `finalize_xof` panic otherwise.
pub uninterp spec fn starts_at_root(h: blake3::Hasher) -> bool;

/// Byte `pos` of the BLAKE3 output stream for the given key (or none) and input.
pub uninterp spec fn output_byte(key: Option<Seq<u8>>, input: Seq<u8>, pos: nat) -> u8;

/// The first `n` bytes of the BLAKE3 output stream for the given key and input.
pub open spec fn output_prefix(key: Option<Seq<u8>>, input: Seq<u8>, n: nat) -> Seq<u8> {
    Seq::new(n, |i: int| output_byte(key, input, i as nat))
}

/// Relies on `blake3::Hasher::new`: a hasher for the plain hash function that
/// has absorbed nothing.
#[verifier::external_body]
pub(crate) fn hasher_new() -> (r: blake3::Hasher)
    ensures
        absorbed(r) == Seq::<u8>::empty(),
        key_of(r) == None::<Seq<u8>>,
        starts_at_root(r),
{
    blake3::Hasher::new()
}

/// Relies on `blake3::Hasher::new_keyed`: a hasher for the keyed hash function
/// with a copy of `key`, that has absorbed nothing.
#[verifier::external_body]
pub(crate) fn hasher_new_keyed(key: &[u8; 32]) -> (r: blake3::Hasher)
    ensures
        absorbed(r) == Seq::<u8>::empty(),
        key_of(r) == Some(key@),
        starts_at_root(r),
{
    blake3::Hasher::new_keyed(key)
}

/// Relies on `blake3::Hasher::reset`: the same as a new hasher with the same key.
#[verifier::external_body]
pub(crate) fn hasher_reset(h: &mut blake3::Hasher)
    ensures
        absorbed(*final(h)) == Seq::<u8>::empty(),
        key_of(*final(h)) == key_of(*old(h)),
        starts_at_root(*final(h)) == starts_at_root(*old(h)),
{
    h.reset();
}

/// Relies on `blake3::Hasher::update`: appends `input` to what was absorbed.
/// It can only panic on a hasher that does not start at the root.
#[verifier::external_body]
pub(crate) fn hasher_update(h: &mut blake3::Hasher, input: &[u8])
    requires
        starts_at_root(*old(h)),
    ensures
        absorbed(*final(h)) == absorbed(*old(h)) + input@,
        key_of(*final(h)) == key_of(*old(h)),
        starts_at_root(*final(h)),
{
    h.update(input);
}

/// Relies on `blake3::Hasher::finalize` and `blake3::Hash::as_bytes`: the
/// 32-byte hash, which the crate documents as the first 32 bytes of the output
/// stream of `finalize_xof`. It leaves the hasher as it was.
#[verifier::external_body]
pub(crate) fn hasher_finalize(h: &blake3::Hasher) -> (r: [u8; 32])
    requires
        starts_at_root(*h),
    ensures
        r@ == Seq::new(32, |i: int| output_byte(key_of(*h), absorbed(*h), i as nat)),
{
    *h.finalize().as_bytes()
}

/// Relies on `blake3::Hasher::finalize_xof` and `blake3::OutputReader::fill`:
/// a fresh reader starts at position zero of the output stream, and `fill`
/// always fills the whole buffer.
#[verifier::external_body]
pub(crate) fn hasher_fill_output(h: &blake3::Hasher, out: &mut [u8])
    requires
        starts_at_root(*h),
    ensures
        final(out)@ == Seq::new(
            old(out)@.len(),
            |i: int| output_byte(key_of(*h), absorbed(*h), i as nat),
        ),
{
    h.finalize_xof().fill(out);
}

} // verus!
