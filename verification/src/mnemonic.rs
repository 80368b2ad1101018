//! The mnemonic source: a seed phrase, generated from randomness or parsed
//! from text that was supplied from outside.
//!
//! A mnemonic is held as the entropy that its words encode, which is what the
//! `bip39` crate builds a phrase from and reads back from one. The word list,
//! the checksum and the seed expansion are the work of that crate; their
//! results are named here by uninterpreted functions of the entropy.

use crate::random::fill_entropy;
use rand_chacha::ChaCha20Rng;
use vstd::prelude::*;
use vstd::string::*;

verus! {

/// The text that `bip39::Mnemonic::from_entropy` and its `Display` make of
/// entropy of a supported length: the English words, separated by one space.
pub uninterp spec fn entropy_phrase(entropy: Seq<u8>) -> Seq<char>;

/// The entropy of the mnemonic that `bip39::Mnemonic::parse` reads from a
/// text; `None` where it refuses the text.
pub uninterp spec fn phrase_entropy(text: Seq<char>) -> Option<Seq<u8>>;

/// The 64 bytes that `bip39::Mnemonic::to_seed` expands the mnemonic with the
/// given entropy and a passphrase to.
pub uninterp spec fn mnemonic_seed(entropy: Seq<u8>, passphrase: Seq<char>) -> Seq<u8>;

/// The entropy lengths, in bytes, that a mnemonic can encode: a multiple of
/// 32 bits between 128 and 256 bits.
pub open spec fn entropy_len_supported(len: nat) -> bool {
    len % 4 == 0 && 16 <= len <= 32
}

/// The number of words that encode entropy of `len` bytes: three words for
/// every 32 bits.
pub open spec fn words_for(len: nat) -> nat {
    len / 4 * 3
}

/// The number of entropy bytes behind a generated phrase: 16 for twelve
/// words, 32 for anything else, which gives twenty-four words.
pub open spec fn generated_len(words: u8) -> nat {
    if words == 12 {
        16
    } else {
        32
    }
}

/// Why a mnemonic could not be made.
#[derive(Debug, Clone, Copy, PartialEq, Eq)]
pub enum MnemonicError {
    /// The entropy is not a multiple of 32 bits between 128 and 256 bits.
    BadEntropyLength,
    /// The text is not a phrase of known words with a valid checksum.
    InvalidPhrase,
}

/// Calls `bip39::Mnemonic::from_entropy` and formats the mnemonic.
#[verifier::external_body]
fn bip39_phrase(entropy: &Vec<u8>) -> (phrase: String)
    requires
        entropy_len_supported(entropy@.len()),
    ensures
        phrase@ == entropy_phrase(entropy@),
{
    bip39::Mnemonic::from_entropy(entropy).unwrap().to_string()
}

/// Calls `bip39::Mnemonic::from_entropy` and `bip39::Mnemonic::to_seed`.
#[verifier::external_body]
fn bip39_seed(entropy: &Vec<u8>, passphrase: &str) -> (seed: [u8; 64])
    requires
        entropy_len_supported(entropy@.len()),
    ensures
        seed@ == mnemonic_seed(entropy@, passphrase@),
{
    bip39::Mnemonic::from_entropy(entropy).unwrap().to_seed(passphrase)
}

/// Calls `bip39::Mnemonic::parse` and `bip39::Mnemonic::to_entropy`.
///
/// The parser accepts 12, 15, 18, 21 or 24 words, so the entropy that it
/// reads is of a supported length.
#[verifier::external_body]
fn bip39_parse(text: &str) -> (entropy: Option<Vec<u8>>)
    ensures
        entropy matches Some(e) ==> phrase_entropy(text@) == Some(e@),
        entropy matches Some(e) ==> entropy_len_supported(e@.len()),
        entropy is None ==> phrase_entropy(text@) is None,
{
    match bip39::Mnemonic::parse(text) {
        Ok(mnemonic) => Some(mnemonic.to_entropy()),
        Err(_) => None,
    }
}

/// A mnemonic seed phrase, held as the entropy that its words encode.
#[derive(Debug, PartialEq, Eq)]
pub struct Mnemonic {
    entropy: Vec<u8>,
}

impl View for Mnemonic {
    type V = Seq<u8>;

    closed spec fn view(&self) -> Seq<u8> {
        self.entropy@
    }
}

impl Clone for Mnemonic {
    fn clone(&self) -> (copy: Mnemonic)
        ensures
            copy@ == self@,
    {
        proof {
            use_type_invariant(self);
        }
        Mnemonic { entropy: self.entropy.clone() }
    }
}

impl Mnemonic {
    #[verifier::type_invariant]
    spec fn well_formed(self) -> bool {
        entropy_len_supported(self.entropy@.len())
    }

    /// The mnemonic that encodes the given entropy.
    pub fn from_entropy(entropy: &[u8]) -> (r: Result<Mnemonic, MnemonicError>)
        ensures
            r is Ok <==> entropy_len_supported(entropy@.len()),
            r matches Ok(m) ==> m@ == entropy@,
            r matches Err(e) ==> e == MnemonicError::BadEntropyLength,
    {
        let len = entropy.len();
        if len % 4 != 0 || len < 16 || len > 32 {
            return Err(MnemonicError::BadEntropyLength);
        }
        let mut bytes: Vec<u8> = Vec::new();
        let mut i: usize = 0;
        while i < len
            invariant
                0 <= i <= len,
                len == entropy@.len(),
                bytes@ == entropy@.take(i as int),
            decreases len - i,
        {
            bytes.push(entropy[i]);
            assert(entropy@.take(i as int).push(entropy@[i as int]) =~= entropy@.take(i + 1));
            i = i + 1;
        }
        assert(entropy@.take(len as int) =~= entropy@);
        Ok(Mnemonic { entropy: bytes })
    }

    /// Reads a mnemonic from its phrase.
    pub fn parse(text: &str) -> (r: Result<Mnemonic, MnemonicError>)
        ensures
            r is Ok <==> phrase_entropy(text@) is Some,
            r matches Ok(m) ==> Some(m@) == phrase_entropy(text@),
            r matches Err(e) ==> e == MnemonicError::InvalidPhrase,
    {
        match bip39_parse(text) {
            Some(entropy) => Ok(Mnemonic { entropy }),
            None => Err(MnemonicError::InvalidPhrase),
        }
    }

    /// The entropy that the words encode. Its length is always a supported
    /// one.
    pub fn to_entropy(&self) -> (entropy: Vec<u8>)
        ensures
            entropy@ == self@,
            entropy_len_supported(entropy@.len()),
    {
        proof {
            use_type_invariant(self);
        }
        self.entropy.clone()
    }

    /// The number of words of the phrase.
    pub fn word_count(&self) -> (n: usize)
        ensures
            n == words_for(self@.len()),
            n == 12 || n == 15 || n == 18 || n == 21 || n == 24,
    {
        proof {
            use_type_invariant(self);
        }
        self.entropy.len() / 4 * 3
    }

    /// The phrase: the words, separated by one space.
    pub fn phrase(&self) -> (text: String)
        ensures
            text@ == entropy_phrase(self@),
    {
        proof {
            use_type_invariant(self);
        }
        bip39_phrase(&self.entropy)
    }

    /// The 64-byte seed that the mnemonic and a passphrase expand to.
    pub fn to_seed(&self, passphrase: &str) -> (seed: [u8; 64])
        ensures
            seed@ == mnemonic_seed(self@, passphrase@),
    {
        proof {
            use_type_invariant(self);
        }
        bip39_seed(&self.entropy, passphrase)
    }
}

/// The mnemonic of `words` words that 32 random bytes give: for twelve words
/// the first 16 bytes are its entropy, for any other number all 32.
pub fn mnemonic_from_random(words: u8, random: &[u8; 32]) -> (m: Mnemonic)
    ensures
        m@ == random@.take(generated_len(words) as int),
{
    let len: usize = if words == 12 {
        16
    } else {
        32
    };
    let mut bytes: Vec<u8> = Vec::new();
    let mut i: usize = 0;
    while i < len
        invariant
            0 <= i <= len <= 32,
            len == generated_len(words),
            bytes@ == random@.take(i as int),
        decreases len - i,
    {
        bytes.push(random[i]);
        assert(random@.take(i as int).push(random@[i as int]) =~= random@.take(i + 1));
        i = i + 1;
    }
    Mnemonic { entropy: bytes }
}

/// Generates a mnemonic from fresh entropy: twelve words if `words` is 12,
/// twenty-four otherwise.
///
/// Which mnemonic comes out depends on the generator; its size does not.
pub fn generate_mnemonic(words: u8, rng: &mut ChaCha20Rng) -> (m: Mnemonic)
    ensures
        m@.len() == generated_len(words),
        words_for(m@.len()) == if words == 12 {
            12nat
        } else {
            24nat
        },
{
    let random = fill_entropy(rng);
    mnemonic_from_random(words, &random)
}

/// Whether `char::is_whitespace` holds of a character: whether it has the
/// Unicode property `White_Space`.
pub uninterp spec fn is_whitespace(c: char) -> bool;

/// The text in lower case, as `str::to_lowercase` gives it.
pub uninterp spec fn lowercase(text: Seq<char>) -> Seq<char>;

/// The standard library's `char::is_whitespace`: its answer is a function of
/// the character alone, and is given the name above.
pub assume_specification[ char::is_whitespace ](c: char) -> (b: bool)
    ensures
        b == is_whitespace(c),
;

/// The standard library's `str::to_lowercase`: the text that it returns is a
/// function of the given text alone, and is given the name above.
pub assume_specification[ str::to_lowercase ](text: &str) -> (lower: String)
    ensures
        lower@ == lowercase(text@),
;

/// A word starts at position `i`: a character that is no whitespace, at the
/// start of the text or after whitespace.
pub open spec fn starts_word(text: Seq<char>, i: int) -> bool {
    !is_whitespace(text[i]) && (i == 0 || is_whitespace(text[i - 1]))
}

/// The number of words in a text: of maximal runs of characters that are no
/// whitespace.
pub open spec fn word_count(text: Seq<char>) -> nat
    decreases text.len(),
{
    if text.len() == 0 {
        0
    } else {
        word_count(text.drop_last()) + if starts_word(text, text.len() - 1) {
            1nat
        } else {
            0nat
        }
    }
}

/// Counts the words of a text.
pub fn count_words(text: &str) -> (n: usize)
    ensures
        n == word_count(text@),
{
    // The number of characters bounds the number of words, which therefore
    // fits the counter.
    let len = text.unicode_len();
    let mut n: usize = 0;
    let mut in_word = false;
    for c in it: text.chars()
        invariant
            it.seq() == text@,
            text@.len() == len,
            n == word_count(text@.take(it.index() as int)),
            n <= it.index(),
            in_word == (it.index() > 0 && !is_whitespace(text@[it.index() - 1])),
    {
        proof {
            let i = it.index() as int;
            let head = text@.take(i + 1);
            assert(c == text@[i]);
            assert(head.drop_last() =~= text@.take(i));
            assert(head[i] == text@[i]);
            if i > 0 {
                assert(head[i - 1] == text@[i - 1]);
            }
        }
        if c.is_whitespace() {
            in_word = false;
        } else {
            if !in_word {
                n = n + 1;
            }
            in_word = true;
        }
    }
    proof {
        assert(text@.take(text@.len() as int) =~= text@);
    }
    n
}

/// The word counts of a supplied phrase that are taken up: twelve and
/// twenty-four.
pub open spec fn takes_up(words: nat) -> bool {
    words == 12 || words == 24
}

/// The entropy of the mnemonic that a run works with, given the text that was
/// supplied and the entropy of a freshly generated mnemonic.
///
/// Without text, or with text of another word count than twelve or
/// twenty-four, it is the generated one. Text of such a word count is read
/// in lower case, and has to be a valid phrase.
pub open spec fn selected_entropy(input: Seq<char>, generated: Seq<u8>) -> Result<
    Seq<u8>,
    MnemonicError,
> {
    if input.len() == 0 || !takes_up(word_count(lowercase(input))) {
        Ok(generated)
    } else {
        match phrase_entropy(lowercase(input)) {
            Some(entropy) => Ok(entropy),
            None => Err(MnemonicError::InvalidPhrase),
        }
    }
}

/// Chooses the mnemonic of a run: the supplied phrase where there is one of
/// twelve or twenty-four words, else the generated mnemonic. A supplied phrase
/// of such a length that cannot be read is an error, not a reason to fall back.
pub fn select_mnemonic(input: &str, generated: Mnemonic) -> (r: Result<Mnemonic, MnemonicError>)
    ensures
        r matches Ok(m) ==> selected_entropy(input@, generated@) == Ok::<Seq<u8>, MnemonicError>(
            m@,
        ),
        r matches Err(e) ==> selected_entropy(input@, generated@) == Err::<Seq<u8>, MnemonicError>(
            e,
        ),
{
    if input.is_empty() {
        return Ok(generated);
    }
    let lower = input.to_lowercase();
    let words = count_words(lower.as_str());
    if words == 12 || words == 24 {
        Mnemonic::parse(lower.as_str())
    } else {
        Ok(generated)
    }
}

} // verus!
