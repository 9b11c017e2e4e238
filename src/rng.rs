use crate::label::MAX_LABEL_LEN;
use crate::transcript::{absorb, squeeze, HashChainTranscript};
use vstd::prelude::*;

verus! {

/// The label under which the external random bytes are absorbed: `"rng"`.
pub open spec fn rng_label() -> Seq<u8> {
    seq![0x72u8, 0x6eu8, 0x67u8]
}

/// The label of a 32-bit draw: `"next_u32"`.
pub open spec fn next_u32_label() -> Seq<u8> {
    seq![0x6eu8, 0x65u8, 0x78u8, 0x74u8, 0x5fu8, 0x75u8, 0x33u8, 0x32u8]
}

/// The label of a 64-bit draw: `"next_u64"`.
pub open spec fn next_u64_label() -> Seq<u8> {
    seq![0x6eu8, 0x65u8, 0x78u8, 0x74u8, 0x5fu8, 0x75u8, 0x36u8, 0x34u8]
}

/// The first four bytes of `b` read as a little-endian integer.
pub open spec fn le_u32(b: Seq<u8>) -> int {
    b[0] + 0x100 * b[1] + 0x1_0000 * b[2] + 0x100_0000 * b[3]
}

/// The first eight bytes of `b` read as a little-endian integer.
pub open spec fn le_u64(b: Seq<u8>) -> int {
    le_u32(b) + 0x1_0000_0000 * (b[4] + 0x100 * b[5] + 0x1_0000 * b[6] + 0x100_0000 * b[7])
}

/// A transcript forked off for randomness, which witness data may rekey
/// before external randomness finalizes it.
pub struct HashChainTranscriptRngBuilder {
    transcript: HashChainTranscript,
}

impl View for HashChainTranscriptRngBuilder {
    type V = Seq<u8>;

    closed spec fn view(&self) -> Seq<u8> {
        self.transcript@
    }
}

impl HashChainTranscriptRngBuilder {
    pub(crate) fn from_transcript(transcript: HashChainTranscript) -> (r: Self)
        ensures
            r@ == transcript@,
    {
        HashChainTranscriptRngBuilder { transcript }
    }

    /// Rekey the forked transcript with the witness data `witness`; `label`
    /// says what the witness is.
    pub fn rekey_with_witness_bytes(self, label: &'static [u8], witness: &[u8]) -> (r: Self)
        requires
            label@.len() <= MAX_LABEL_LEN,
        ensures
            r@ == absorb(self@, label@, witness@),
    {
        let mut transcript = self.transcript;
        transcript.append_message(label, witness);
        HashChainTranscriptRngBuilder { transcript }
    }

    /// Absorb 32 bytes drawn from an external cryptographic source under
    /// the label `"rng"`, and turn the builder into a generator.
    pub fn finalize(self, random_bytes: &[u8; 32]) -> (r: HashChainTranscriptRng)
        ensures
            r@ == absorb(self@, rng_label(), random_bytes@),
    {
        let label: &'static [u8] = &[0x72u8, 0x6eu8, 0x67u8];
        assert(label@ == rng_label());
        let mut transcript = self.transcript;
        transcript.append_message(label, random_bytes);
        HashChainTranscriptRng { transcript }
    }
}

/// A pseudo-random generator that draws its output as challenges from a
/// forked transcript.
pub struct HashChainTranscriptRng {
    transcript: HashChainTranscript,
}

impl View for HashChainTranscriptRng {
    type V = Seq<u8>;

    closed spec fn view(&self) -> Seq<u8> {
        self.transcript@
    }
}

impl HashChainTranscriptRng {
    /// Draw a `u32`: the first four bytes, little-endian, of a challenge
    /// squeezed under `"next_u32"`, which also advances the state.
    pub fn next_u32(&mut self) -> (r: u32)
        ensures
            final(self)@ == squeeze(old(self)@, next_u32_label()),
            r as int == le_u32(squeeze(old(self)@, next_u32_label())),
    {
        let label: &'static [u8] = &[0x6eu8, 0x65u8, 0x78u8, 0x74u8, 0x5fu8, 0x75u8, 0x33u8, 0x32u8];
        assert(label@ == next_u32_label());
        let mut bytes = [0u8; 32];
        self.transcript.challenge_bytes(label, &mut bytes);
        (bytes[0] as u32) + (bytes[1] as u32) * 0x100 + (bytes[2] as u32) * 0x1_0000
            + (bytes[3] as u32) * 0x100_0000
    }

    /// Draw a `u64`: the first eight bytes, little-endian, of a challenge
    /// squeezed under `"next_u64"`, which also advances the state.
    pub fn next_u64(&mut self) -> (r: u64)
        ensures
            final(self)@ == squeeze(old(self)@, next_u64_label()),
            r as int == le_u64(squeeze(old(self)@, next_u64_label())),
    {
        let label: &'static [u8] = &[0x6eu8, 0x65u8, 0x78u8, 0x74u8, 0x5fu8, 0x75u8, 0x36u8, 0x34u8];
        assert(label@ == next_u64_label());
        let mut bytes = [0u8; 32];
        self.transcript.challenge_bytes(label, &mut bytes);
        let low: u64 = (bytes[0] as u64) + (bytes[1] as u64) * 0x100 + (bytes[2] as u64) * 0x1_0000
            + (bytes[3] as u64) * 0x100_0000;
        let high: u64 = (bytes[4] as u64) + (bytes[5] as u64) * 0x100 + (bytes[6] as u64) * 0x1_0000
            + (bytes[7] as u64) * 0x100_0000;
        low + high * 0x1_0000_0000
    }
}

} // verus!
