use blake3_ffi::{
    blake3_finalize, blake3_free, blake3_new, blake3_new_keyed, blake3_reset, blake3_update,
    HashState, KEY_LEN, OUT_LEN,
};

fn hex(bytes: &[u8]) -> String {
    let digits = b"0123456789abcdef";
    let mut s = String::new();
    for b in bytes {
        s.push(digits[(b >> 4) as usize] as char);
        s.push(digits[(b & 15) as usize] as char);
    }
    s
}

fn finalize_len(state: &HashState, n: usize) -> Vec<u8> {
    let mut out = vec![0u8; n];
    blake3_finalize(state, &mut out);
    out
}

fn test_key(seed: u8) -> Vec<u8> {
    (0..KEY_LEN as u8).map(|i| i.wrapping_mul(7).wrapping_add(seed)).collect()
}

#[test]
fn empty_input_gives_known_digest() {
    let mut s = blake3_new();
    blake3_update(&mut s, &[]);
    assert_eq!(
        hex(&finalize_len(&s, OUT_LEN)),
        "af1349b9f5f9a1a6a0404dea36dcc9499bcb25c9adc112b7cc9a93cae41f3262"
    );
}

#[test]
fn abc_gives_known_digest() {
    let mut s = blake3_new();
    blake3_update(&mut s, b"abc");
    assert_eq!(
        hex(&finalize_len(&s, OUT_LEN)),
        "6437b3ac38465133ffb63b75273a8db548c558465d79db03fd359c6cd5bd9d85"
    );
}

#[test]
fn digest_matches_one_shot_hash() {
    let input: Vec<u8> = (0..5000u32).map(|i| (i % 251) as u8).collect();
    let mut s = blake3_new();
    blake3_update(&mut s, &input);
    assert_eq!(finalize_len(&s, 32), blake3::hash(&input).as_bytes().to_vec());
}

#[test]
fn chunked_updates_match_single_update() {
    let input: Vec<u8> = (0..3000u32).map(|i| (i * 13 % 256) as u8).collect();
    let mut whole = blake3_new();
    blake3_update(&mut whole, &input);
    for cuts in [vec![0usize, 1, 1024, 1025, 3000], vec![0, 64, 2048, 3000], vec![0, 0, 3000]] {
        let mut parts = blake3_new();
        for w in cuts.windows(2) {
            blake3_update(&mut parts, &input[w[0]..w[1]]);
        }
        assert_eq!(finalize_len(&parts, 32), finalize_len(&whole, 32));
        assert_eq!(finalize_len(&parts, 100), finalize_len(&whole, 100));
    }
}

#[test]
fn reset_matches_fresh_state_unkeyed() {
    let mut s = blake3_new();
    blake3_update(&mut s, b"something to forget");
    blake3_reset(&mut s);
    blake3_update(&mut s, b"kept");
    let mut fresh = blake3_new();
    blake3_update(&mut fresh, b"kept");
    assert_eq!(finalize_len(&s, 32), finalize_len(&fresh, 32));
}

#[test]
fn reset_keeps_the_key() {
    let key = test_key(3);
    let mut s = blake3_new_keyed(&key);
    blake3_update(&mut s, b"something to forget");
    blake3_reset(&mut s);
    blake3_update(&mut s, b"kept");
    let mut fresh = blake3_new_keyed(&key);
    blake3_update(&mut fresh, b"kept");
    assert_eq!(finalize_len(&s, 32), finalize_len(&fresh, 32));
    let mut unkeyed = blake3_new();
    blake3_update(&mut unkeyed, b"kept");
    assert_ne!(finalize_len(&s, 32), finalize_len(&unkeyed, 32));
}

#[test]
fn keyed_digest_is_deterministic_and_depends_on_key() {
    let key = test_key(1);
    let other = test_key(2);
    let run = |k: &[u8]| {
        let mut s = blake3_new_keyed(k);
        blake3_update(&mut s, b"message");
        finalize_len(&s, 32)
    };
    assert_eq!(run(&key), run(&key));
    let mut arr = [0u8; 32];
    arr.copy_from_slice(&key);
    assert_eq!(run(&key), blake3::keyed_hash(&arr, b"message").as_bytes().to_vec());
    assert_ne!(run(&key), run(&other));
    let mut unkeyed = blake3_new();
    blake3_update(&mut unkeyed, b"message");
    assert_ne!(run(&key), finalize_len(&unkeyed, 32));
}

#[test]
fn keyed_uses_only_first_key_len_bytes() {
    let mut long_key = test_key(5);
    long_key.extend_from_slice(b"ignored tail");
    let mut a = blake3_new_keyed(&long_key);
    let mut b = blake3_new_keyed(&long_key[..KEY_LEN]);
    blake3_update(&mut a, b"x");
    blake3_update(&mut b, b"x");
    assert_eq!(finalize_len(&a, 32), finalize_len(&b, 32));
}

#[test]
fn finalize_twice_gives_same_output() {
    let mut s = blake3_new();
    blake3_update(&mut s, b"repeat me");
    let first = finalize_len(&s, 32);
    let second = finalize_len(&s, 32);
    assert_eq!(first, second);
    assert_eq!(finalize_len(&s, 77), finalize_len(&s, 77));
    blake3_update(&mut s, b"!");
    assert_ne!(finalize_len(&s, 32), first);
}

#[test]
fn long_output_begins_with_digest() {
    let mut s = blake3_new();
    blake3_update(&mut s, b"abc");
    let digest = finalize_len(&s, 32);
    for n in [33usize, 64, 65, 200, 1000] {
        let long = finalize_len(&s, n);
        assert_eq!(long.len(), n);
        assert_eq!(&long[..32], &digest[..]);
    }
    let short = finalize_len(&s, 31);
    assert_eq!(&short[..], &digest[..31]);
    let mut reader = blake3::Hasher::new().update(b"abc").finalize_xof();
    let mut expected = [0u8; 200];
    reader.fill(&mut expected);
    assert_eq!(finalize_len(&s, 200), expected.to_vec());
}

#[test]
fn zero_length_output_writes_nothing() {
    let mut s = blake3_new();
    blake3_update(&mut s, b"abc");
    let mut out: Vec<u8> = Vec::new();
    blake3_finalize(&s, &mut out);
    assert!(out.is_empty());
}

#[test]
fn free_accepts_state_and_none() {
    blake3_free(None);
    blake3_free(Some(Box::new(blake3_new())));
}
