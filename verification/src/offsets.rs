//! From a position counted in characters to an offset counted in bytes.
//!
//! A `String` stores UTF-8, in which a character takes one to four bytes.
//! The byte offset of a character position is the encoded length of the
//! characters before it, and such an offset always falls on a character
//! boundary.

use vstd::prelude::*;
use vstd::utf8::*;

verus! {

/// The number of bytes that `c` takes in UTF-8.
pub open spec fn utf8_len(c: char) -> nat {
    encode_scalar(c as u32).len()
}

/// Every character takes between one and four bytes, by the range that its
/// scalar value falls in.
pub proof fn lemma_utf8_len_by_range(c: char)
    ensures
        utf8_len(c) == if (c as u32) < 0x80 {
            1nat
        } else if (c as u32) < 0x800 {
            2nat
        } else if (c as u32) < 0x10000 {
            3nat
        } else {
            4nat
        },
{
    let u = c as u32;
    assert(has_width_1_encoding(u) <==> u < 0x80);
    assert(has_width_2_encoding(u) <==> 0x80 <= u < 0x800);
    assert(has_width_3_encoding(u) <==> 0x800 <= u < 0x10000);
}

/// The number of bytes that `c` takes in UTF-8, computed from its scalar
/// value.
pub fn len_utf8(c: char) -> (n: usize)
    ensures
        n == utf8_len(c),
        1 <= n <= 4,
{
    proof {
        lemma_utf8_len_by_range(c);
    }
    let u: u32 = c as u32;
    if u < 0x80 {
        1
    } else if u < 0x800 {
        2
    } else if u < 0x10000 {
        3
    } else {
        4
    }
}

/// The byte offset, in the UTF-8 encoding of `text`, of the character
/// position `position`: the encoded length of the characters before it. A
/// position beyond the end of the text has the offset of the end.
pub open spec fn byte_offset(text: Seq<char>, position: nat) -> nat {
    if position <= text.len() {
        encode_utf8(text.take(position as int)).len()
    } else {
        encode_utf8(text).len()
    }
}

/// Encoding two texts one after the other gives the encoding of the joined
/// text.
pub proof fn lemma_encode_concat(a: Seq<char>, b: Seq<char>)
    ensures
        encode_utf8(a + b) == encode_utf8(a) + encode_utf8(b),
    decreases a.len(),
{
    if a.len() == 0 {
        assert(a + b =~= b);
        assert(encode_utf8(a) + encode_utf8(b) =~= encode_utf8(b));
    } else {
        assert((a + b).drop_first() =~= a.drop_first() + b);
        lemma_encode_concat(a.drop_first(), b);
        assert(encode_utf8(a + b) =~= encode_utf8(a) + encode_utf8(b));
    }
}

/// The encoding of a single character is that of its scalar value.
pub proof fn lemma_encode_single(c: char)
    ensures
        encode_utf8(seq![c]) == encode_scalar(c as u32),
{
    let s = seq![c];
    assert(s.drop_first() =~= Seq::<char>::empty());
    assert(encode_utf8(s.drop_first()) =~= Seq::<u8>::empty());
    assert(encode_utf8(s) =~= encode_scalar(c as u32));
}

/// A text splits at any character position into the part before and the
/// part after, and so does its encoding.
pub proof fn lemma_encode_split(s: Seq<char>, k: int)
    requires
        0 <= k <= s.len(),
    ensures
        encode_utf8(s) == encode_utf8(s.take(k)) + encode_utf8(s.skip(k)),
        encode_utf8(s.take(k)).len() <= encode_utf8(s).len(),
{
    assert(s =~= s.take(k) + s.skip(k));
    lemma_encode_concat(s.take(k), s.skip(k));
}

/// One more character in the prefix adds that character's bytes to the
/// byte offset.
pub proof fn lemma_encode_prefix_step(s: Seq<char>, k: int)
    requires
        0 <= k < s.len(),
    ensures
        encode_utf8(s.take(k + 1)).len() == encode_utf8(s.take(k)).len() + utf8_len(s[k]),
{
    assert(s.take(k + 1) =~= s.take(k) + seq![s[k]]);
    lemma_encode_concat(s.take(k), seq![s[k]]);
    lemma_encode_single(s[k]);
}

/// The encoded length of a prefix is a character boundary of the encoded
/// text.
pub proof fn lemma_prefix_is_char_boundary(a: Seq<char>, b: Seq<char>)
    ensures
        is_char_boundary(encode_utf8(a + b), encode_utf8(a).len() as int),
    decreases a.len(),
{
    let bytes = encode_utf8(a + b);
    encode_utf8_valid_utf8(a + b);
    if a.len() == 0 {
    } else {
        let rest = a.drop_first();
        lemma_encode_concat(a, b);
        encode_utf8_first_scalar(a + b);
        assert((a + b).drop_first() =~= rest + b);
        assert((a + b)[0] == a[0]);
        assert(pop_first_scalar(bytes) =~= encode_utf8(rest + b));
        lemma_prefix_is_char_boundary(rest, b);
        lemma_utf8_len_by_range(a[0]);
        assert(encode_utf8(a).len() == encode_scalar(a[0] as u32).len() + encode_utf8(rest).len());
    }
}

} // verus!
