//! Human-readable wallet labels.
//!
//! A label is made of three words of the mnemonic word list, chosen by three
//! groups of eleven bits of the fingerprint of the master public key. The
//! fingerprint is public, and so is the label: it is a convenience for
//! telling wallets apart and protects nothing.

use vstd::prelude::*;
use vstd::string::*;

verus! {

/// The word at an index of the English word list, as
/// `bip39::Language::word_list` holds it.
pub uninterp spec fn wordlist_word(index: int) -> Seq<char>;

/// The number of words in the word list.
pub const WORDLIST_LEN: usize = 2048;

/// The index into the word list of the label word at `position`: the group of
/// eleven bits that starts at bit `11 * (2 - position)` of the fingerprint, so
/// that the highest group comes first and the lowest last.
pub open spec fn label_index(fingerprint: u32, position: int) -> u32 {
    if position == 0 {
        (fingerprint >> 22u32) & 0x7ffu32
    } else if position == 1 {
        (fingerprint >> 11u32) & 0x7ffu32
    } else {
        fingerprint & 0x7ffu32
    }
}

/// Three words joined by hyphens.
pub open spec fn hyphenated(first: Seq<char>, second: Seq<char>, third: Seq<char>) -> Seq<char> {
    first + seq!['-'] + second + seq!['-'] + third
}

/// The label of a fingerprint.
pub open spec fn label_text(fingerprint: u32) -> Seq<char> {
    hyphenated(
        wordlist_word(label_index(fingerprint, 0) as int),
        wordlist_word(label_index(fingerprint, 1) as int),
        wordlist_word(label_index(fingerprint, 2) as int),
    )
}

/// Reads one word of `bip39::Language::word_list` for the default language,
/// English. The list has 2048 entries.
#[verifier::external_body]
fn wordlist_entry(index: usize) -> (word: &'static str)
    requires
        index < WORDLIST_LEN,
    ensures
        word@ == wordlist_word(index as int),
{
    bip39::Language::default().word_list()[index]
}

/// The indices into the word list of the three words of a label, first word
/// first.
pub fn label_indices(fingerprint: u32) -> (indices: [usize; 3])
    ensures
        forall|position: int|
            0 <= position < 3 ==> #[trigger] indices@[position] == label_index(
                fingerprint,
                position,
            ),
        forall|position: int| 0 <= position < 3 ==> #[trigger] indices@[position] < WORDLIST_LEN,
{
    let high: u32 = (fingerprint >> 22u32) & 0x7ffu32;
    let middle: u32 = (fingerprint >> 11u32) & 0x7ffu32;
    let low: u32 = fingerprint & 0x7ffu32;
    assert((fingerprint >> 22u32) & 0x7ffu32 < 2048) by (bit_vector);
    assert((fingerprint >> 11u32) & 0x7ffu32 < 2048) by (bit_vector);
    assert(fingerprint & 0x7ffu32 < 2048) by (bit_vector);
    [high as usize, middle as usize, low as usize]
}

/// Joins three words by hyphens.
pub fn join_label(first: &str, second: &str, third: &str) -> (label: String)
    ensures
        label@ == hyphenated(first@, second@, third@),
{
    proof {
        reveal_strlit("-");
        assert("-"@ =~= seq!['-']);
    }
    let mut label = String::from_str(first);
    label.append("-");
    label.append(second);
    label.append("-");
    label.append(third);
    label
}

/// The label of the wallet with the given fingerprint: three words of the
/// word list, joined by hyphens.
pub fn derive_label(fingerprint: u32) -> (label: String)
    ensures
        label@ == label_text(fingerprint),
{
    let indices = label_indices(fingerprint);
    let first = wordlist_entry(indices[0]);
    let second = wordlist_entry(indices[1]);
    let third = wordlist_entry(indices[2]);
    join_label(first, second, third)
}

/// The label to use: the derived one where naming is enabled, else none, which
/// is the empty text.
pub fn wallet_label(fingerprint: u32, naming: bool) -> (label: String)
    ensures
        label@ == if naming {
            label_text(fingerprint)
        } else {
            Seq::<char>::empty()
        },
{
    if naming {
        derive_label(fingerprint)
    } else {
        String::new()
    }
}

/// Two fingerprints that differ in their lowest eleven bits only give labels
/// that agree in the first and the second word: such a change reaches the
/// last word alone.
pub proof fn lemma_low_bits_reach_last_word_only(a: u32, b: u32)
    requires
        a >> 11u32 == b >> 11u32,
    ensures
        label_index(a, 0) == label_index(b, 0),
        label_index(a, 1) == label_index(b, 1),
{
    assert((a >> 22u32) & 0x7ffu32 == (b >> 22u32) & 0x7ffu32) by (bit_vector)
        requires
            a >> 11u32 == b >> 11u32,
    ;
    assert((a >> 11u32) & 0x7ffu32 == (b >> 11u32) & 0x7ffu32) by (bit_vector)
        requires
            a >> 11u32 == b >> 11u32,
    ;
}

} // verus!
