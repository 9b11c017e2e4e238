use crate::keccak::hash;
use crate::label::{lemma_padded_label_index, padded_label};
use crate::rng::{le_u32, le_u64, next_u32_label, next_u64_label, rng_label};
use crate::transcript::{absorb, squeeze, u64_block};
use vstd::prelude::*;

verus! {

/// One call on a transcript: an absorption of bytes, an absorption of a
/// `u64`, or a challenge, each with its label.
pub enum Call {
    Message(Seq<u8>, Seq<u8>),
    Word(Seq<u8>, u64),
    Challenge(Seq<u8>),
}

/// The state after `call` on a transcript in state `state`, as the
/// contracts of `append_message`, `append_u64` and `challenge_bytes` give it.
pub open spec fn step(state: Seq<u8>, call: Call) -> Seq<u8> {
    match call {
        Call::Message(label, message) => absorb(state, label, message),
        Call::Word(label, x) => absorb(state, label, u64_block(x)),
        Call::Challenge(label) => squeeze(state, label),
    }
}

/// The state of a transcript created under `seed` after `calls`, in order.
pub open spec fn run(seed: Seq<u8>, calls: Seq<Call>) -> Seq<u8>
    decreases calls.len(),
{
    if calls.len() == 0 {
        hash(padded_label(seed))
    } else {
        step(run(seed, calls.drop_last()), calls.last())
    }
}

/// The challenges emitted along `calls`, one per challenge call; each is
/// the state that its call leaves.
pub open spec fn challenges(seed: Seq<u8>, calls: Seq<Call>) -> Seq<Seq<u8>>
    decreases calls.len(),
{
    if calls.len() == 0 {
        Seq::empty()
    } else {
        let earlier = challenges(seed, calls.drop_last());
        match calls.last() {
            Call::Challenge(_) => earlier.push(run(seed, calls)),
            _ => earlier,
        }
    }
}

/// Two transcripts created under the same label and given the same calls
/// with the same arguments reach the same state and emit the same
/// challenges at every step: nothing but the inputs decides them.
pub proof fn law_determinism(seed1: Seq<u8>, seed2: Seq<u8>, calls1: Seq<Call>, calls2: Seq<Call>)
    requires
        seed1 == seed2,
        calls1 == calls2,
    ensures
        forall|k: int|
            0 <= k <= calls1.len() ==> #[trigger] run(seed1, calls1.take(k)) == run(
                seed2,
                calls2.take(k),
            ) && challenges(seed1, calls1.take(k)) == challenges(seed2, calls2.take(k)),
{
}

/// Changing only the label of an absorption, between labels of equal
/// length, changes the bytes handed to the hash.
pub proof fn law_label_changes_absorbed_bytes(
    state: Seq<u8>,
    label1: Seq<u8>,
    label2: Seq<u8>,
    message: Seq<u8>,
)
    requires
        label1.len() == label2.len(),
        label1.len() <= 32,
        label1 != label2,
    ensures
        message + padded_label(label1) + state != message + padded_label(label2) + state,
{
    let i = padded_index_of_difference(label1, label2);
    assert((message + padded_label(label1) + state)[message.len() + i] == padded_label(label1)[i]);
    assert((message + padded_label(label2) + state)[message.len() + i] == padded_label(label2)[i]);
}

/// Changing only the label of a challenge, between labels of equal length,
/// changes the bytes handed to the hash.
pub proof fn law_label_changes_challenge_bytes(state: Seq<u8>, label1: Seq<u8>, label2: Seq<u8>)
    requires
        label1.len() == label2.len(),
        label1.len() <= 32,
        label1 != label2,
    ensures
        padded_label(label1) + state != padded_label(label2) + state,
{
    let i = padded_index_of_difference(label1, label2);
    assert((padded_label(label1) + state)[i] == padded_label(label1)[i]);
    assert((padded_label(label2) + state)[i] == padded_label(label2)[i]);
}

/// A position at which the padded forms of two distinct labels of equal
/// length differ.
proof fn padded_index_of_difference(label1: Seq<u8>, label2: Seq<u8>) -> (i: int)
    requires
        label1.len() == label2.len(),
        label1.len() <= 32,
        label1 != label2,
    ensures
        0 <= i < 32,
        padded_label(label1)[i] != padded_label(label2)[i],
{
    let n = label1.len() as int;
    let j = choose|j: int| 0 <= j < n && label1[j] != label2[j];
    assert(exists|j: int| 0 <= j < n && label1[j] != label2[j]) by {
        if forall|j: int| 0 <= j < n ==> label1[j] == label2[j] {
            assert(label1 =~= label2);
        }
    }
    let i = n - 1 - j;
    lemma_padded_label_index(label1, i);
    lemma_padded_label_index(label2, i);
    i
}

/// A label that reads the same in both directions lands, padded, in the
/// first bytes of the 32-byte buffer in its own order, followed by zeros.
pub proof fn law_padding_places_label(label: Seq<u8>)
    requires
        label.len() <= 32,
        label.reverse() == label,
    ensures
        padded_label(label).len() == 32,
        padded_label(label).take(label.len() as int) == label,
        forall|i: int| label.len() <= i < 32 ==> #[trigger] padded_label(label)[i] == 0u8,
{
    lemma_padded_label_index(label, 0);
    let n = label.len() as int;
    assert forall|i: int| 0 <= i < n implies #[trigger] padded_label(label)[i] == label[i] by {
        lemma_padded_label_index(label, i);
        assert(label.reverse()[i] == label[n - 1 - i]);
    }
    assert forall|i: int| n <= i < 32 implies #[trigger] padded_label(label)[i] == 0u8 by {
        lemma_padded_label_index(label, i);
    }
    assert(padded_label(label).take(n) =~= label);
}

/// The state of a generator forked from `snapshot`, rekeyed with the
/// labelled witnesses in order and finalized with `random`.
pub open spec fn generator_state(
    snapshot: Seq<u8>,
    witnesses: Seq<(Seq<u8>, Seq<u8>)>,
    random: Seq<u8>,
) -> Seq<u8>
    decreases witnesses.len(),
{
    if witnesses.len() == 0 {
        absorb(snapshot, rng_label(), random)
    } else {
        let (label, witness) = witnesses[0];
        generator_state(absorb(snapshot, label, witness), witnesses.skip(1), random)
    }
}

/// Same snapshot, same witnesses and same external randomness give the
/// same generator state, hence the same sequence of draws: the same first
/// 32-bit draw, the same first 64-bit draw, and the same state after either.
pub proof fn law_randomness_reproducible(
    snapshot1: Seq<u8>,
    snapshot2: Seq<u8>,
    witnesses1: Seq<(Seq<u8>, Seq<u8>)>,
    witnesses2: Seq<(Seq<u8>, Seq<u8>)>,
    random1: Seq<u8>,
    random2: Seq<u8>,
)
    requires
        snapshot1 == snapshot2,
        witnesses1 == witnesses2,
        random1 == random2,
    ensures
        ({
            let g1 = generator_state(snapshot1, witnesses1, random1);
            let g2 = generator_state(snapshot2, witnesses2, random2);
            &&& g1 == g2
            &&& squeeze(g1, next_u32_label()) == squeeze(g2, next_u32_label())
            &&& le_u32(squeeze(g1, next_u32_label())) == le_u32(squeeze(g2, next_u32_label()))
            &&& squeeze(g1, next_u64_label()) == squeeze(g2, next_u64_label())
            &&& le_u64(squeeze(g1, next_u64_label())) == le_u64(squeeze(g2, next_u64_label()))
        }),
{
}

/// Distinct 32-byte blocks of external randomness, absorbed into the same
/// state, hand distinct bytes to the hash.
pub proof fn law_randomness_changes_absorbed_bytes(
    state: Seq<u8>,
    random1: Seq<u8>,
    random2: Seq<u8>,
)
    requires
        random1.len() == 32,
        random2.len() == 32,
        random1 != random2,
    ensures
        random1 + padded_label(rng_label()) + state != random2 + padded_label(rng_label())
            + state,
{
    let j = choose|j: int| 0 <= j < 32 && random1[j] != random2[j];
    assert(exists|j: int| 0 <= j < 32 && random1[j] != random2[j]) by {
        if forall|j: int| 0 <= j < 32 ==> random1[j] == random2[j] {
            assert(random1 =~= random2);
        }
    }
    assert((random1 + padded_label(rng_label()) + state)[j] == random1[j]);
    assert((random2 + padded_label(rng_label()) + state)[j] == random2[j]);
}

} // verus!
