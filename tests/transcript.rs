use hash_chain_transcript::{keccak256, pad_label, HashChainTranscript};

fn challenge(t: &mut HashChainTranscript, label: &'static [u8]) -> [u8; 32] {
    let mut buf = [0u8; 32];
    t.challenge_bytes(label, &mut buf);
    buf
}

#[test]
fn keccak256_of_empty_input() {
    let mut out = [0u8; 32];
    keccak256(&[], &mut out);
    let expected: [u8; 32] = [
        0xc5, 0xd2, 0x46, 0x01, 0x86, 0xf7, 0x23, 0x3c, 0x92, 0x7e, 0x7d, 0xb2, 0xdc, 0xc7, 0x03,
        0xc0, 0xe5, 0x00, 0xb6, 0x53, 0xca, 0x82, 0x27, 0x3b, 0x7b, 0xfa, 0xd8, 0x04, 0x5d, 0x85,
        0xa4, 0x70,
    ];
    assert_eq!(out, expected);
}

#[test]
fn keccak256_of_abc() {
    let mut out = [0u8; 32];
    keccak256(b"abc", &mut out);
    let expected: [u8; 32] = [
        78, 3, 101, 122, 234, 69, 169, 79, 199, 212, 123, 168, 38, 200, 214, 103, 192, 209, 230,
        227, 58, 100, 160, 54, 236, 68, 245, 143, 161, 45, 108, 69,
    ];
    assert_eq!(out, expected);
}

#[test]
fn pad_label_single_byte_leads() {
    let mut expected = [0u8; 32];
    expected[0] = 0xAB;
    assert_eq!(pad_label(&[0xAB]), expected);
}

#[test]
fn pad_label_reverses_longer_labels() {
    let mut expected = [0u8; 32];
    expected[0] = b'c';
    expected[1] = b'b';
    expected[2] = b'a';
    assert_eq!(pad_label(b"abc"), expected);
}

#[test]
fn pad_label_empty_is_all_zero() {
    assert_eq!(pad_label(&[]), [0u8; 32]);
}

#[test]
fn pad_label_of_full_length() {
    let label: Vec<u8> = (1..=32).collect();
    let padded = pad_label(&label);
    for i in 0..32 {
        assert_eq!(padded[i], label[31 - i]);
    }
}

#[test]
fn labels_of_thirty_two_bytes_are_accepted() {
    let mut t = HashChainTranscript::new(&[7u8; 32]);
    let expected: [u8; 32] = [
        225, 249, 155, 232, 167, 202, 249, 162, 111, 91, 116, 60, 230, 100, 109, 179, 107, 70,
        116, 162, 9, 122, 72, 86, 57, 155, 131, 146, 50, 87, 180, 219,
    ];
    assert_eq!(challenge(&mut t, &[9u8; 32]), expected);
}

#[test]
fn end_to_end_challenge_vector() {
    let mut t = HashChainTranscript::new(b"proof");
    t.append_u64(b"round", 1);
    let mut buf = [0u8; 32];
    t.challenge_bytes(b"alpha", &mut buf[0..32]);
    let expected: [u8; 32] = [
        116, 227, 192, 207, 247, 168, 253, 173, 244, 32, 182, 132, 27, 111, 130, 38, 188, 28, 238,
        239, 211, 229, 202, 142, 164, 12, 67, 46, 221, 99, 235, 124,
    ];
    assert_eq!(buf, expected);
}

#[test]
fn challenge_on_fresh_transcript() {
    let mut t = HashChainTranscript::new(b"T");
    let expected: [u8; 32] = [
        235, 68, 173, 29, 186, 154, 151, 243, 118, 151, 163, 28, 195, 194, 43, 42, 145, 138, 34,
        60, 97, 206, 207, 124, 119, 93, 164, 36, 153, 199, 9, 101,
    ];
    assert_eq!(challenge(&mut t, b"c"), expected);
}

#[test]
fn identical_call_sequences_give_identical_challenges() {
    let mut a = HashChainTranscript::new(b"proto");
    let mut b = HashChainTranscript::new(b"proto");
    a.append_message(b"commit", b"some commitment");
    b.append_message(b"commit", b"some commitment");
    assert_eq!(challenge(&mut a, b"x"), challenge(&mut b, b"x"));
    a.append_u64(b"n", 42);
    b.append_u64(b"n", 42);
    assert_eq!(challenge(&mut a, b"y"), challenge(&mut b, b"y"));
}

#[test]
fn changing_one_label_changes_later_challenges() {
    let mut a = HashChainTranscript::new(b"proto");
    let mut b = HashChainTranscript::new(b"proto");
    a.append_message(b"commit", b"data");
    b.append_message(b"commix", b"data");
    assert_ne!(challenge(&mut a, b"x"), challenge(&mut b, b"x"));
    assert_ne!(challenge(&mut a, b"y"), challenge(&mut b, b"y"));
}

#[test]
fn changing_the_seed_label_changes_challenges() {
    let mut a = HashChainTranscript::new(b"one");
    let mut b = HashChainTranscript::new(b"two");
    assert_ne!(challenge(&mut a, b"x"), challenge(&mut b, b"x"));
}

#[test]
fn reordering_calls_changes_the_challenge() {
    let mut a = HashChainTranscript::new(b"proto");
    let mut b = HashChainTranscript::new(b"proto");
    a.append_message(b"first", b"1");
    a.append_message(b"second", b"2");
    b.append_message(b"second", b"2");
    b.append_message(b"first", b"1");
    assert_ne!(challenge(&mut a, b"x"), challenge(&mut b, b"x"));
}

#[test]
fn successive_challenges_differ() {
    let mut t = HashChainTranscript::new(b"proto");
    let c1 = challenge(&mut t, b"x");
    let c2 = challenge(&mut t, b"x");
    assert_ne!(c1, c2);
}

#[test]
fn append_u64_absorbs_a_little_endian_block() {
    let mut a = HashChainTranscript::new(b"proto");
    let mut b = HashChainTranscript::new(b"proto");
    a.append_u64(b"n", 0x0102_0304_0506_0708);
    let mut block = [0u8; 32];
    block[..8].copy_from_slice(&[8, 7, 6, 5, 4, 3, 2, 1]);
    b.append_message(b"n", &block);
    assert_eq!(challenge(&mut a, b"x"), challenge(&mut b, b"x"));
}

#[test]
fn build_rng_leaves_the_transcript_unchanged() {
    let mut a = HashChainTranscript::new(b"proto");
    let mut b = HashChainTranscript::new(b"proto");
    let _builder = a.build_rng();
    assert_eq!(challenge(&mut a, b"x"), challenge(&mut b, b"x"));
}
