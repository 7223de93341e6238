//! Positions in a text, by character and by byte of its UTF-8 encoding.

use vstd::prelude::*;
use vstd::utf8::{encode_scalar, encode_utf8};

verus! {

/// The number of bytes that encode the characters.
pub open spec fn byte_len(chars: Seq<char>) -> nat {
    encode_utf8(chars).len()
}

/// The byte at which the character with index `k` begins, or at which the text ends.
pub open spec fn char_start(chars: Seq<char>, k: int) -> nat {
    byte_len(chars.take(k))
}

/// The byte at which the character with index `char_index` begins; the end of the text where it
/// has no such character.
pub open spec fn byte_index(chars: Seq<char>, char_index: int) -> nat {
    if char_index < chars.len() {
        char_start(chars, char_index)
    } else {
        byte_len(chars)
    }
}

/// The number of characters that end at the byte `byte` or before it.
pub open spec fn chars_before(chars: Seq<char>, byte: int) -> nat
    decreases chars.len(),
{
    if chars.len() == 0 || byte_len(chars) <= byte {
        chars.len()
    } else {
        chars_before(chars.drop_last(), byte)
    }
}

/// Encoding is done character by character.
pub proof fn lemma_encode_concat(a: Seq<char>, b: Seq<char>)
    ensures
        encode_utf8(a + b) == encode_utf8(a) + encode_utf8(b),
    decreases a.len(),
{
    if a.len() == 0 {
        assert(a + b =~= b);
        assert(encode_utf8(a) + encode_utf8(b) =~= encode_utf8(b));
    } else {
        lemma_encode_concat(a.drop_first(), b);
        assert((a + b).drop_first() =~= a.drop_first() + b);
        assert(encode_utf8(a + b) =~= encode_utf8(a) + encode_utf8(b));
    }
}

/// A text that goes on by one character is longer by the bytes of that character.
pub proof fn lemma_byte_len_push(chars: Seq<char>, c: char)
    ensures
        byte_len(chars.push(c)) == byte_len(chars) + encode_scalar(c as u32).len(),
        1 <= encode_scalar(c as u32).len() <= 4,
{
    lemma_encode_concat(chars, seq![c]);
    assert(chars.push(c) =~= chars + seq![c]);
    assert(seq![c].drop_first() =~= seq![]);
    reveal_with_fuel(encode_utf8, 2);
}

/// Later characters begin at later bytes.
pub proof fn lemma_char_start_monotone(chars: Seq<char>, j: int, k: int)
    requires
        0 <= j <= k <= chars.len(),
    ensures
        char_start(chars, j) <= char_start(chars, k) <= byte_len(chars),
        j < k ==> char_start(chars, j) < char_start(chars, k),
    decreases chars.len() - j,
{
    assert(chars.take(chars.len() as int) =~= chars);
    if j < chars.len() {
        lemma_char_start_step(chars, j);
        if j < k {
            lemma_char_start_monotone(chars, j + 1, k);
        } else {
            lemma_char_start_monotone(chars, j + 1, j + 1);
        }
    }
}

/// Where the next character begins.
pub proof fn lemma_char_start_step(chars: Seq<char>, k: int)
    requires
        0 <= k < chars.len(),
    ensures
        char_start(chars, k + 1) == char_start(chars, k) + encode_scalar(chars[k] as u32).len(),
        1 <= encode_scalar(chars[k] as u32).len() <= 4,
{
    lemma_byte_len_push(chars.take(k), chars[k]);
    assert(chars.take(k + 1) =~= chars.take(k).push(chars[k]));
}

/// `chars_before` is the last character position that does not lie beyond the byte.
pub proof fn lemma_chars_before(chars: Seq<char>, byte: int)
    requires
        byte >= 0,
    ensures
        chars_before(chars, byte) <= chars.len(),
        char_start(chars, chars_before(chars, byte) as int) <= byte,
        chars_before(chars, byte) < chars.len() ==> byte < char_start(
            chars,
            (chars_before(chars, byte) + 1) as int,
        ),
    decreases chars.len(),
{
    assert(chars.take(chars.len() as int) =~= chars);
    if chars.len() == 0 {
        assert(encode_utf8(chars).len() == 0);
    } else if byte_len(chars) > byte {
        let shorter = chars.drop_last();
        lemma_chars_before(shorter, byte);
        let k = chars_before(shorter, byte) as int;
        assert(shorter.take(k) =~= chars.take(k));
        if k < shorter.len() {
            assert(shorter.take(k + 1) =~= chars.take(k + 1));
        }
    }
}

/// A position that begins at or before the byte, while the next one begins after it, is the
/// number of characters before the byte.
pub proof fn lemma_chars_before_unique(chars: Seq<char>, byte: int, k: int)
    requires
        0 <= k <= chars.len(),
        char_start(chars, k) <= byte,
        k < chars.len() ==> byte < char_start(chars, k + 1),
    ensures
        chars_before(chars, byte) == k,
{
    lemma_chars_before(chars, byte);
    let r = chars_before(chars, byte) as int;
    if r < k {
        lemma_char_start_monotone(chars, r + 1, k);
    } else if k < r {
        lemma_char_start_monotone(chars, k + 1, r);
    }
}

/// Counting characters up to where a character begins gives its index back: positions by byte
/// and by character name the same places.
pub proof fn law_positions_by_byte_and_character(chars: Seq<char>, char_index: int)
    requires
        char_index >= 0,
    ensures
        chars_before(chars, byte_index(chars, char_index) as int) == (if char_index < chars.len() {
            char_index
        } else {
            chars.len() as int
        }),
{
    assert(chars.take(chars.len() as int) =~= chars);
    let k = if char_index < chars.len() {
        char_index
    } else {
        chars.len() as int
    };
    if k < chars.len() {
        lemma_char_start_step(chars, k);
    }
    lemma_chars_before_unique(chars, byte_index(chars, char_index) as int, k);
}

/// The number of bytes that encode a character.
fn utf8_width(c: char) -> (r: usize)
    ensures
        r == encode_scalar(c as u32).len(),
{
    let v = c as u32;
    if v <= 0x7f {
        1
    } else if v <= 0x7ff {
        2
    } else if v <= 0xffff {
        3
    } else {
        4
    }
}

/// The characters of a text.
pub fn chars_of(text: &str) -> (r: Vec<char>)
    ensures
        r@ == text@,
{
    let mut r: Vec<char> = Vec::new();
    for c in it: text.chars()
        invariant
            r@ == text@.take(it.index()),
            it.seq() == text@,
    {
        r.push(c);
        assert(text@.take(it.index() + 1) =~= text@.take(it.index()).push(c));
    }
    assert(text@.take(text@.len() as int) =~= text@);
    r
}

/// The byte at which the character with index `char_index` begins, or the end of the text.
pub fn byte_index_from_char_index(text: &str, char_index: usize) -> (r: usize)
    ensures
        r == byte_index(text@, char_index as int),
        r <= byte_len(text@),
{
    let bytes: usize = text.as_bytes().len();
    let chars = chars_of(text);
    if char_index >= chars.len() {
        return bytes;
    }
    let mut i: usize = 0;
    let mut at: usize = 0;
    assert(text@.take(0) =~= seq![]);
    while i < char_index
        invariant
            i <= char_index < chars.len(),
            chars@ == text@,
            at == char_start(text@, i as int),
            bytes == byte_len(text@),
        decreases char_index - i,
    {
        proof {
            lemma_char_start_step(text@, i as int);
            lemma_char_start_monotone(text@, i + 1, i + 1);
        }
        at += utf8_width(chars[i]);
        i += 1;
    }
    proof {
        lemma_char_start_monotone(text@, i as int, i as int);
    }
    at
}

/// The number of characters that end at the byte `byte_index` or before it: a byte in the middle
/// of a character counts as the byte at which it begins.
pub fn char_index_from_byte_index(text: &str, byte_index: usize) -> (r: usize)
    ensures
        r == chars_before(text@, byte_index as int),
        r <= text@.len(),
{
    let bytes: usize = text.as_bytes().len();
    let chars = chars_of(text);
    let mut i: usize = 0;
    let mut at: usize = 0;
    assert(text@.take(0) =~= seq![]);
    while i < chars.len()
        invariant
            i <= chars.len(),
            chars@ == text@,
            at == char_start(text@, i as int),
            at <= byte_index,
            bytes == byte_len(text@),
        decreases chars.len() - i,
    {
        proof {
            lemma_char_start_step(text@, i as int);
            lemma_char_start_monotone(text@, i + 1, i + 1);
        }
        let next: usize = at + utf8_width(chars[i]);
        if next > byte_index {
            proof {
                lemma_chars_before_unique(text@, byte_index as int, i as int);
            }
            return i;
        }
        at = next;
        i += 1;
    }
    proof {
        lemma_chars_before_unique(text@, byte_index as int, i as int);
    }
    i
}

} // verus!
