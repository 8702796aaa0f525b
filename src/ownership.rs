//! Values handed into and out of functions, borrowed strings, and the first
//! word of a string found by its bytes.
use vstd::prelude::*;
use vstd::utf8::{
    encode_utf8,
    encode_utf8_valid_utf8,
    is_char_boundary_iff_is_leading_byte,
};

verus! {

/// The byte of an ASCII space.
pub const SPACE: u8 = 32;

/// The number of bytes that encode a sequence of characters.
pub open spec fn byte_len(s: Seq<char>) -> nat {
    encode_utf8(s).len()
}

/// `k` ends the first word of `b`: no space before it, and it is a space
/// or the end of the bytes.
pub open spec fn is_word_end(b: Seq<u8>, k: int) -> bool {
    &&& 0 <= k <= b.len()
    &&& forall|j: int| 0 <= j < k ==> b[j] != SPACE
    &&& k < b.len() ==> b[k] == SPACE
}

/// Where the first word of `b` ends: the index of its first space, or its
/// length where it holds none.
pub open spec fn word_end(b: Seq<u8>) -> int {
    choose|k: int| is_word_end(b, k)
}

/// A sequence of bytes has one end of its first word.
pub proof fn lemma_word_end_unique(b: Seq<u8>, k: int)
    requires
        is_word_end(b, k),
    ensures
        word_end(b) == k,
{
    let w = word_end(b);
    assert(is_word_end(b, w));
    if w < k {
        assert(b[w] == SPACE);
    } else if k < w {
        assert(b[k] == SPACE);
    }
}

/// Hands a newly made string to the caller.
pub fn gives_ownership() -> (r: String)
    ensures
        r@ == "yours"@,
{
    let some_string = String::from_str("yours");
    some_string
}

/// Takes a string and hands the same string back.
pub fn takes_and_gives_back(a_string: String) -> (r: String)
    ensures
        r == a_string,
{
    a_string
}

/// The length of a borrowed string in bytes.
pub fn calculate_length(s: &String) -> (r: usize)
    ensures
        r == byte_len(s@),
{
    s.as_str().as_bytes().len()
}

/// Appends a fixed suffix to a borrowed string.
pub fn change(str: &mut String)
    ensures
        final(str)@ == old(str)@ + ", world from mut ref"@,
{
    str.append(", world from mut ref");
}

/// Makes a string and returns it by value, so that it outlives the call.
pub fn dangle() -> (r: String)
    ensures
        r@ == "hello"@,
{
    let s = String::from_str("hello");
    s
}

/// Takes a string from `dangle` and drops it.
pub fn dangling_refs() {
    let _reference_to_nothing = dangle();
}

/// The byte index where the first word of `s` ends.
pub fn first_word_non_slice(s: &String) -> (r: usize)
    ensures
        r == word_end(encode_utf8(s@)),
{
    let bytes = s.as_str().as_bytes();
    let mut i: usize = 0;
    while i < bytes.len()
        invariant
            bytes@ == encode_utf8(s@),
            0 <= i <= bytes@.len(),
            forall|j: int| 0 <= j < i ==> bytes@[j] != SPACE,
        decreases bytes@.len() - i,
    {
        if bytes[i] == SPACE {
            proof {
                lemma_word_end_unique(bytes@, i as int);
            }
            return i;
        }
        i = i + 1;
    }
    proof {
        lemma_word_end_unique(bytes@, i as int);
    }
    bytes.len()
}

/// The first word of `s`: the text before its first space, or all of it.
pub fn first_word_slice(s: &str) -> (r: &str)
    ensures
        encode_utf8(r@) == encode_utf8(s@).subrange(0, word_end(encode_utf8(s@))),
{
    let bytes = s.as_bytes();
    let mut i: usize = 0;
    while i < bytes.len()
        invariant
            bytes@ == encode_utf8(s@),
            0 <= i <= bytes@.len(),
            forall|j: int| 0 <= j < i ==> bytes@[j] != SPACE,
        decreases bytes@.len() - i,
    {
        if bytes[i] == SPACE {
            proof {
                lemma_word_end_unique(bytes@, i as int);
                encode_utf8_valid_utf8(s@);
                is_char_boundary_iff_is_leading_byte(bytes@, i as int);
            }
            let (word, _) = s.split_at(i);
            return word;
        }
        i = i + 1;
    }
    proof {
        lemma_word_end_unique(bytes@, i as int);
        assert(bytes@.subrange(0, i as int) =~= bytes@);
    }
    s
}

} // verus!
