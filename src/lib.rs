//! A streaming BLAKE3 hash state with a verified lifecycle: create, update,
//! reset and finalize, each stated over a model of the bytes absorbed so far.
mod laws;
mod primitive;
mod state;

pub use primitive::{absorbed, key_of, output_byte, output_prefix, starts_at_root};
pub use state::{
    absorb, blake3_finalize, blake3_free, blake3_new, blake3_new_keyed, blake3_reset,
    blake3_update, cleared, digest, fresh, output, HashModel, HashState, KEY_LEN, OUT_LEN,
};
pub use laws::{
    absorb_each, law_chunk_invariance, law_keyed_determinism, law_output_prefix,
    law_reset_equivalence,
};
