use byteorder::{ByteOrder, LittleEndian};
use crate::keccak::{digest, hash};
use crate::label::{pad_label, padded_label, MAX_LABEL_LEN};
use crate::rng::HashChainTranscriptRngBuilder;
use vstd::prelude::*;

verus! {

/// The state after absorbing `message` under `label`:
/// `Hash(message ‖ PaddedLabel(label) ‖ state)`.
pub open spec fn absorb(state: Seq<u8>, label: Seq<u8>, message: Seq<u8>) -> Seq<u8> {
    hash(message + padded_label(label) + state)
}

/// The state reached by binding `label` to the current state, before the
/// challenge is derived: `Hash(PaddedLabel(label) ‖ state)`.
pub open spec fn bind_label(state: Seq<u8>, label: Seq<u8>) -> Seq<u8> {
    hash(padded_label(label) + state)
}

/// The challenge squeezed under `label`, which is also the next state:
/// `Hash(Hash(PaddedLabel(label) ‖ state))`.
pub open spec fn squeeze(state: Seq<u8>, label: Seq<u8>) -> Seq<u8> {
    hash(bind_label(state, label))
}

/// The eight little-endian bytes of `x`.
pub open spec fn le_bytes_u64(x: u64) -> Seq<u8> {
    Seq::new(8, |i: int| ((x as int / pow256(i)) % 256) as u8)
}

/// `256` raised to `i`, for `0 <= i`.
pub open spec fn pow256(i: int) -> int
    decreases i,
{
    if i <= 0 {
        1
    } else {
        256 * pow256(i - 1)
    }
}

/// A `u64` as a little-endian 256-bit integer: its eight little-endian
/// bytes followed by 24 zero bytes.
pub open spec fn u64_block(x: u64) -> Seq<u8> {
    le_bytes_u64(x) + crate::label::zeros(24)
}

/// Writes the eight little-endian bytes of `n` into `buf[0..8]`.
///
/// Relies on `byteorder::LittleEndian::write_u64`, which copies
/// `n.to_le_bytes()` into the first eight bytes and panics only when
/// `buf.len() < 8`.
#[verifier::external_body]
fn write_u64_le(buf: &mut [u8], n: u64)
    requires
        old(buf)@.len() >= 8,
    ensures
        final(buf)@ == le_bytes_u64(n) + old(buf)@.subrange(8, old(buf)@.len() as int),
{
    LittleEndian::write_u64(buf, n);
}

/// Encode a `u64` as a little-endian 256-bit integer, a 32-byte array.
fn encode_u64_as_u256_le(x: u64) -> (r: [u8; 32])
    ensures
        r@ == u64_block(x),
{
    let mut buf = [0u8; 32];
    write_u64_le(&mut buf, x);
    assert(buf@ =~= u64_block(x));
    buf
}

/// A Fiat-Shamir transcript: a running 32-byte Keccak-256 state that every
/// absorption and every challenge advances.
#[derive(Clone)]
pub struct HashChainTranscript {
    state: [u8; 32],
}

impl View for HashChainTranscript {
    type V = Seq<u8>;

    closed spec fn view(&self) -> Seq<u8> {
        self.state@
    }
}

impl HashChainTranscript {
    /// Create a new transcript, seeded with the given `label`.
    pub fn new(label: &'static [u8]) -> (r: Self)
        requires
            label@.len() <= MAX_LABEL_LEN,
        ensures
            r@ == hash(padded_label(label@)),
    {
        let padded = pad_label(label);
        let state = digest(&padded);
        HashChainTranscript { state }
    }

    /// Absorb a message into the transcript state.
    pub fn append_message(&mut self, label: &'static [u8], message: &[u8])
        requires
            label@.len() <= MAX_LABEL_LEN,
        ensures
            final(self)@ == absorb(old(self)@, label@, message@),
    {
        let padded = pad_label(label);
        let mut data: Vec<u8> = Vec::new();
        push_all(&mut data, message);
        push_all(&mut data, &padded);
        push_all(&mut data, &self.state);
        self.state = digest(data.as_slice());
    }

    /// Absorb a `u64` into the transcript state, as a little-endian 256-bit
    /// integer.
    pub fn append_u64(&mut self, label: &'static [u8], x: u64)
        requires
            label@.len() <= MAX_LABEL_LEN,
        ensures
            final(self)@ == absorb(old(self)@, label@, u64_block(x)),
    {
        let block = encode_u64_as_u256_le(x);
        self.append_message(label, &block);
    }

    /// Squeeze 32 challenge bytes out of the transcript into `dest`; the
    /// challenge becomes the new state.
    pub fn challenge_bytes(&mut self, label: &'static [u8], dest: &mut [u8])
        requires
            label@.len() <= MAX_LABEL_LEN,
            old(dest)@.len() == 32,
        ensures
            final(self)@ == squeeze(old(self)@, label@),
            final(dest)@ == squeeze(old(self)@, label@),
    {
        let padded = pad_label(label);
        let mut data: Vec<u8> = Vec::new();
        push_all(&mut data, &padded);
        push_all(&mut data, &self.state);
        let bound = digest(data.as_slice());
        let output = digest(&bound);
        self.state = output;
        copy_into(dest, &output);
    }

    /// Fork the current transcript into a builder for a generator whose
    /// output is bound to the current state and to the prover's secrets.
    /// The transcript itself is left as it is.
    pub fn build_rng(&self) -> (r: HashChainTranscriptRngBuilder)
        ensures
            r@ == self@,
    {
        HashChainTranscriptRngBuilder::from_transcript(HashChainTranscript { state: self.state })
    }
}

/// Append every byte of `s` to `data`.
fn push_all(data: &mut Vec<u8>, s: &[u8])
    ensures
        final(data)@ == old(data)@ + s@,
{
    let mut i: usize = 0;
    while i < s.len()
        invariant
            i <= s@.len(),
            data@ == old(data)@ + s@.subrange(0, i as int),
        decreases s@.len() - i,
    {
        data.push(s[i]);
        i = i + 1;
        assert(s@.subrange(0, i as int) =~= s@.subrange(0, i - 1 as int).push(s@[i - 1]));
    }
    assert(s@.subrange(0, s@.len() as int) =~= s@);
}

/// Overwrite `dest` with the 32 bytes of `src`.
fn copy_into(dest: &mut [u8], src: &[u8; 32])
    requires
        old(dest)@.len() == 32,
    ensures
        final(dest)@ == src@,
{
    let mut i: usize = 0;
    while i < 32
        invariant
            i <= 32,
            dest@.len() == 32,
            forall|j: int| 0 <= j < i ==> dest@[j] == src@[j],
        decreases 32 - i,
    {
        dest[i] = src[i];
        i = i + 1;
    }
    assert(dest@ =~= src@);
}

} // verus!
