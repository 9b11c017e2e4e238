use vstd::prelude::*;

verus! {

/// The longest label that fits the 32-byte padded form.
pub const MAX_LABEL_LEN: usize = 32;

/// `n` zero bytes.
pub open spec fn zeros(n: nat) -> Seq<u8> {
    Seq::new(n, |_i: int| 0u8)
}

/// A label read as a big-endian integer, zero-extended on the left to
/// 32 bytes, and the whole buffer then reversed into little-endian order.
pub open spec fn padded_label(label: Seq<u8>) -> Seq<u8>
    recommends
        label.len() <= 32,
{
    (zeros((32 - label.len()) as nat) + label).reverse()
}

/// Byte `i` of the padded form: the label's bytes last-first, then zeros.
pub proof fn lemma_padded_label_index(label: Seq<u8>, i: int)
    requires
        label.len() <= 32,
        0 <= i < 32,
    ensures
        padded_label(label).len() == 32,
        padded_label(label)[i] == if i < label.len() {
            label[label.len() - 1 - i]
        } else {
            0u8
        },
{
    let left = zeros((32 - label.len()) as nat) + label;
    assert(left.len() == 32);
    assert(padded_label(label)[i] == left[31 - i]);
}

/// Pad a label to 32 bytes: left-pad it with zeros as a big-endian 256-bit
/// integer, then reverse the bytes.
pub fn pad_label(label: &[u8]) -> (r: [u8; 32])
    requires
        label@.len() <= MAX_LABEL_LEN,
    ensures
        r@ == padded_label(label@),
{
    let len = label.len();
    let mut out = [0u8; 32];
    let mut i: usize = 0;
    while i < len
        invariant
            len == label@.len(),
            len <= 32,
            i <= len,
            out@.len() == 32,
            forall|j: int| 0 <= j < i ==> out@[j] == label@[len - 1 - j],
            forall|j: int| i <= j < 32 ==> out@[j] == 0u8,
        decreases len - i,
    {
        out[i] = label[len - 1 - i];
        i = i + 1;
    }
    proof {
        assert forall|j: int| 0 <= j < 32 implies out@[j] == padded_label(label@)[j] by {
            lemma_padded_label_index(label@, j);
        }
        lemma_padded_label_index(label@, 0);
        assert(out@ =~= padded_label(label@));
    }
    out
}

} // verus!
