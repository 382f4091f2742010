//! How numbers lie in the memory of the machine.

use vstd::prelude::*;
use zerocopy::AsBytes;

verus! {

/// The number that `bytes` spells when the first byte weighs least.
pub open spec fn little_endian_value(bytes: Seq<u8>) -> nat
    decreases bytes.len(),
{
    if bytes.len() == 0 {
        0
    } else {
        bytes[0] as nat + 256 * little_endian_value(bytes.drop_first())
    }
}

/// The number that the machine reads from `bytes`, in its own byte order.
pub open spec fn memory_value(bytes: Seq<u8>) -> nat {
    match vstd::endian::endianness() {
        vstd::endian::Endian::Little => little_endian_value(bytes),
        vstd::endian::Endian::Big => little_endian_value(bytes.reverse()),
    }
}

/// The eight bytes of the word at index `i`.
pub open spec fn word_bytes(bytes: Seq<u8>, i: int) -> Seq<u8> {
    bytes.subrange(8 * i, 8 * i + 8)
}

/// `bytes` is what the machine's memory holds where `words` stand one after
/// another.
pub open spec fn is_memory_image(words: Seq<u64>, bytes: Seq<u8>) -> bool {
    &&& bytes.len() == 8 * words.len()
    &&& forall|i: int|
        0 <= i < words.len() ==> memory_value(#[trigger] word_bytes(bytes, i)) == words[i]
}

/// `u32::from_ne_bytes` of the standard library: the number whose memory
/// representation, in the byte order of the machine, is `bytes`.
#[verifier::external_body]
pub(crate) fn u32_from_memory(bytes: [u8; 4]) -> (value: u32)
    ensures
        value == memory_value(bytes@),
{
    u32::from_ne_bytes(bytes)
}

/// `AsBytes::as_bytes` of the crate zerocopy on a slice of words: the memory of
/// the slice seen as bytes, eight to a word, none added and none left out.
#[verifier::external_body]
pub(crate) fn words_as_bytes(words: &[u64]) -> (bytes: &[u8])
    ensures
        is_memory_image(words@, bytes@),
{
    words.as_bytes()
}

/// The number whose four bytes are these, the one of least weight first.
pub open spec fn spell(b0: u8, b1: u8, b2: u8, b3: u8) -> int {
    b0 + 0x100 * b1 + 0x1_0000 * b2 + 0x100_0000 * b3
}

proof fn lemma_little_endian_value_of_four(bytes: Seq<u8>)
    requires
        bytes.len() == 4,
    ensures
        little_endian_value(bytes) == spell(bytes[0], bytes[1], bytes[2], bytes[3]),
{
    reveal_with_fuel(little_endian_value, 5);
}

proof fn lemma_little_endian_value_of_eight(bytes: Seq<u8>)
    requires
        bytes.len() == 8,
    ensures
        little_endian_value(bytes) == spell(bytes[0], bytes[1], bytes[2], bytes[3]) + 0x1_0000_0000
            * spell(bytes[4], bytes[5], bytes[6], bytes[7]),
{
    reveal_with_fuel(little_endian_value, 9);
}

/// What the machine reads from four bytes: the first weighs least where the machine
/// is little-endian, and most where it is big-endian.
pub proof fn law_memory_value_of_four(bytes: Seq<u8>)
    requires
        bytes.len() == 4,
    ensures
        vstd::endian::endianness() is Little ==> memory_value(bytes) == spell(
            bytes[0],
            bytes[1],
            bytes[2],
            bytes[3],
        ),
        vstd::endian::endianness() is Big ==> memory_value(bytes) == spell(
            bytes[3],
            bytes[2],
            bytes[1],
            bytes[0],
        ),
{
    lemma_little_endian_value_of_four(bytes);
    lemma_little_endian_value_of_four(bytes.reverse());
}

/// The memory image of words has eight bytes for each word, which spell the word
/// in the byte order of the machine.
pub proof fn law_image_spells_words(words: Seq<u64>, bytes: Seq<u8>, i: int)
    requires
        is_memory_image(words, bytes),
        0 <= i < words.len(),
    ensures
        bytes.len() == 8 * words.len(),
        vstd::endian::endianness() is Little ==> words[i] == spell(
            bytes[8 * i],
            bytes[8 * i + 1],
            bytes[8 * i + 2],
            bytes[8 * i + 3],
        ) + 0x1_0000_0000 * spell(
            bytes[8 * i + 4],
            bytes[8 * i + 5],
            bytes[8 * i + 6],
            bytes[8 * i + 7],
        ),
        vstd::endian::endianness() is Big ==> words[i] == spell(
            bytes[8 * i + 7],
            bytes[8 * i + 6],
            bytes[8 * i + 5],
            bytes[8 * i + 4],
        ) + 0x1_0000_0000 * spell(
            bytes[8 * i + 3],
            bytes[8 * i + 2],
            bytes[8 * i + 1],
            bytes[8 * i],
        ),
{
    let word = word_bytes(bytes, i);
    assert(memory_value(word) == words[i]);
    lemma_little_endian_value_of_eight(word);
    lemma_little_endian_value_of_eight(word.reverse());
}

/// Two byte strings of one length that spell one number are the same.
proof fn lemma_little_endian_value_injective(a: Seq<u8>, b: Seq<u8>)
    requires
        a.len() == b.len(),
        little_endian_value(a) == little_endian_value(b),
    ensures
        a == b,
    decreases a.len(),
{
    if a.len() > 0 {
        lemma_little_endian_value_injective(a.drop_first(), b.drop_first());
        assert(a =~= seq![a[0]] + a.drop_first());
        assert(b =~= seq![b[0]] + b.drop_first());
    } else {
        assert(a =~= b);
    }
}

/// Two byte strings of one length from which the machine reads one number are
/// the same.
proof fn lemma_memory_value_injective(a: Seq<u8>, b: Seq<u8>)
    requires
        a.len() == b.len(),
        memory_value(a) == memory_value(b),
    ensures
        a == b,
{
    match vstd::endian::endianness() {
        vstd::endian::Endian::Little => {
            lemma_little_endian_value_injective(a, b);
        },
        vstd::endian::Endian::Big => {
            lemma_little_endian_value_injective(a.reverse(), b.reverse());
            assert(a =~= a.reverse().reverse());
            assert(b =~= b.reverse().reverse());
        },
    }
}

/// The words determine their memory image, byte for byte.
pub proof fn law_words_determine_image(words: Seq<u64>, a: Seq<u8>, b: Seq<u8>)
    requires
        is_memory_image(words, a),
        is_memory_image(words, b),
    ensures
        a == b,
{
    assert forall|k: int| 0 <= k < a.len() implies a[k] == b[k] by {
        let i = k / 8;
        lemma_memory_value_injective(word_bytes(a, i), word_bytes(b, i));
        assert(a[k] == word_bytes(a, i)[k - 8 * i]);
        assert(b[k] == word_bytes(b, i)[k - 8 * i]);
    }
    assert(a =~= b);
}

/// The memory image determines the words that it was taken of.
pub proof fn law_image_determines_words(v: Seq<u64>, w: Seq<u64>, bytes: Seq<u8>)
    requires
        is_memory_image(v, bytes),
        is_memory_image(w, bytes),
    ensures
        v == w,
{
    assert forall|i: int| 0 <= i < v.len() implies v[i] == w[i] by {
        assert(memory_value(word_bytes(bytes, i)) == v[i]);
    }
    assert(v =~= w);
}

} // verus!
