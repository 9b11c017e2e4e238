use hash_chain_transcript::{HashChainTranscript, HashChainTranscriptRng};

fn random_block() -> [u8; 32] {
    let mut r = [0u8; 32];
    for (i, b) in r.iter_mut().enumerate() {
        *b = i as u8;
    }
    r
}

fn generator(random: &[u8; 32], witness: &[u8]) -> HashChainTranscriptRng {
    let mut t = HashChainTranscript::new(b"proof");
    t.append_u64(b"round", 1);
    t.build_rng()
        .rekey_with_witness_bytes(b"witness", witness)
        .finalize(random)
}

#[test]
fn draws_match_fixed_values() {
    let mut g = generator(&random_block(), &[1, 2, 3]);
    assert_eq!(g.next_u32(), 2936640816);
    assert_eq!(g.next_u64(), 13022084121112664351);
}

#[test]
fn successive_draws_differ() {
    let mut g = generator(&random_block(), &[1, 2, 3]);
    let a = g.next_u64();
    let b = g.next_u64();
    assert_ne!(a, b);
}

#[test]
fn same_inputs_reproduce_the_draws() {
    let mut g1 = generator(&random_block(), &[1, 2, 3]);
    let mut g2 = generator(&random_block(), &[1, 2, 3]);
    for _ in 0..4 {
        assert_eq!(g1.next_u32(), g2.next_u32());
        assert_eq!(g1.next_u64(), g2.next_u64());
    }
}

#[test]
fn different_randomness_changes_the_draws() {
    let mut other = random_block();
    other[31] ^= 1;
    let mut g1 = generator(&random_block(), &[1, 2, 3]);
    let mut g2 = generator(&other, &[1, 2, 3]);
    assert_ne!(g1.next_u64(), g2.next_u64());
}

#[test]
fn different_witness_changes_the_draws() {
    let mut g1 = generator(&random_block(), &[1, 2, 3]);
    let mut g2 = generator(&random_block(), &[1, 2, 4]);
    assert_ne!(g1.next_u64(), g2.next_u64());
}

#[test]
fn fork_is_isolated_from_its_parent() {
    let mut parent = HashChainTranscript::new(b"proof");
    let mut g1 = parent.build_rng().finalize(&random_block());
    parent.append_message(b"later", b"more data");
    let mut after = [0u8; 32];
    parent.challenge_bytes(b"c", &mut after);

    let untouched = HashChainTranscript::new(b"proof");
    let mut g2 = untouched.build_rng().finalize(&random_block());
    assert_eq!(g1.next_u64(), g2.next_u64());

    let mut expected = HashChainTranscript::new(b"proof");
    expected.append_message(b"later", b"more data");
    let mut c = [0u8; 32];
    expected.challenge_bytes(b"c", &mut c);
    assert_eq!(after, c);
}
