//! Binary form of a compiled module: 32-bit words stored as little-endian
//! bytes, four per word, with no header and no length prefix.

use vstd::prelude::*;

verus! {

/// Number of bytes that one word occupies.
pub const WORD_SIZE: usize = 4;

/// The four bytes of `word`, least significant first.
pub open spec fn word_bytes(word: u32) -> Seq<u8> {
    seq![
        (word % 256) as u8,
        (word / 256 % 256) as u8,
        (word / 65536 % 256) as u8,
        (word / 16777216) as u8,
    ]
}

/// The word whose bytes, least significant first, are `b0` to `b3`.
pub open spec fn word_from(b0: u8, b1: u8, b2: u8, b3: u8) -> u32 {
    (b0 + 256 * b1 + 65536 * b2 + 16777216 * b3) as u32
}

/// The byte image of a word sequence: the bytes of each word, in order.
pub open spec fn encoded(words: Seq<u32>) -> Seq<u8> {
    Seq::new(4 * words.len(), |i: int| word_bytes(words[i / 4])[i % 4])
}

/// The word sequence that a byte image of whole words stands for.
pub open spec fn decoded(bytes: Seq<u8>) -> Seq<u32> {
    Seq::new(
        bytes.len() / 4,
        |i: int| word_from(bytes[4 * i], bytes[4 * i + 1], bytes[4 * i + 2], bytes[4 * i + 3]),
    )
}

/// Whether `bytes` consists of whole words.
pub open spec fn whole_words(bytes: Seq<u8>) -> bool {
    bytes.len() % 4 == 0
}

/// Splitting a word into bytes and joining them again gives the word back.
pub proof fn lemma_word_round_trip(word: u32)
    ensures
        word_bytes(word).len() == 4,
        word_from(
            word_bytes(word)[0],
            word_bytes(word)[1],
            word_bytes(word)[2],
            word_bytes(word)[3],
        ) == word,
{
}

/// Joining four bytes into a word and splitting it again gives the bytes back.
pub proof fn lemma_bytes_round_trip(b0: u8, b1: u8, b2: u8, b3: u8)
    ensures
        word_bytes(word_from(b0, b1, b2, b3)) == seq![b0, b1, b2, b3],
{
    assert(word_bytes(word_from(b0, b1, b2, b3)) =~= seq![b0, b1, b2, b3]);
}

/// Decoding an encoded word sequence gives the sequence back.
pub proof fn lemma_decode_encode(words: Seq<u32>)
    ensures
        whole_words(encoded(words)),
        encoded(words).len() == 4 * words.len(),
        decoded(encoded(words)) == words,
{
    let bytes = encoded(words);
    assert forall|i: int| 0 <= i < words.len() implies decoded(bytes)[i] == words[i] by {
        lemma_word_round_trip(words[i]);
        assert(bytes[4 * i] == word_bytes(words[i])[0]);
        assert(bytes[4 * i + 1] == word_bytes(words[i])[1]);
        assert(bytes[4 * i + 2] == word_bytes(words[i])[2]);
        assert(bytes[4 * i + 3] == word_bytes(words[i])[3]);
    }
    assert(decoded(bytes) =~= words);
}

/// Encoding the words decoded from a byte image of whole words gives the
/// image back.
pub proof fn lemma_encode_decode(bytes: Seq<u8>)
    requires
        whole_words(bytes),
    ensures
        decoded(bytes).len() * 4 == bytes.len(),
        encoded(decoded(bytes)) == bytes,
{
    let words = decoded(bytes);
    assert forall|k: int| 0 <= k < bytes.len() implies encoded(words)[k] == bytes[k] by {
        let i = k / 4;
        lemma_bytes_round_trip(bytes[4 * i], bytes[4 * i + 1], bytes[4 * i + 2], bytes[4 * i + 3]);
    }
    assert(encoded(words) =~= bytes);
}

/// Writes `words` out as bytes, four per word, least significant byte first.
pub fn encode_words(words: &Vec<u32>) -> (bytes: Vec<u8>)
    ensures
        bytes@ == encoded(words@),
        bytes@.len() == 4 * words@.len(),
{
    let mut bytes: Vec<u8> = Vec::new();
    let mut i: usize = 0;
    while i < words.len()
        invariant
            i <= words.len(),
            bytes@ == encoded(words@.take(i as int)),
        decreases words.len() - i,
    {
        let word: u32 = words[i];
        let ghost before = bytes@;
        bytes.push((word % 256) as u8);
        bytes.push((word / 256 % 256) as u8);
        bytes.push((word / 65536 % 256) as u8);
        bytes.push((word / 16777216) as u8);
        proof {
            let prefix = words@.take(i as int);
            let longer = words@.take(i + 1);
            assert(longer == prefix.push(word));
            assert(bytes@ =~= before + word_bytes(word));
            assert(encoded(longer) =~= encoded(prefix) + word_bytes(word));
        }
        i = i + 1;
    }
    proof {
        assert(words@.take(i as int) =~= words@);
    }
    bytes
}

/// Reads `bytes` back as words. A buffer that does not consist of whole
/// words is rejected.
pub fn decode_words(bytes: &Vec<u8>) -> (words: Option<Vec<u32>>)
    ensures
        words is Some <==> whole_words(bytes@),
        words matches Some(w) ==> w@ == decoded(bytes@),
{
    if bytes.len() % WORD_SIZE != 0 {
        return None;
    }
    let count: usize = bytes.len() / WORD_SIZE;
    let mut words: Vec<u32> = Vec::new();
    let mut i: usize = 0;
    while i < count
        invariant
            i <= count,
            4 * count == bytes.len(),
            words@.len() == i,
            forall|k: int| 0 <= k < i ==> words@[k] == decoded(bytes@)[k],
        decreases count - i,
    {
        let b0: u32 = bytes[4 * i] as u32;
        let b1: u32 = bytes[4 * i + 1] as u32;
        let b2: u32 = bytes[4 * i + 2] as u32;
        let b3: u32 = bytes[4 * i + 3] as u32;
        words.push(b0 + 256 * b1 + 65536 * b2 + 16777216 * b3);
        i = i + 1;
    }
    proof {
        assert(words@ =~= decoded(bytes@));
    }
    Some(words)
}

} // verus!
