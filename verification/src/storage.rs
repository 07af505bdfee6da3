//! What the input box asks of `String` beyond what `vstd` specifies.

use vstd::prelude::*;
use vstd::utf8::*;

verus! {

/// Calls `String::insert`, which puts a character in at a byte offset.
///
/// Trusted: the bytes before the offset stay, the UTF-8 encoding of `c`
/// follows them, and the bytes from the offset on come after it. The offset
/// has to lie on a character boundary of the text, at most at its end:
/// elsewhere `String::insert` panics.
#[verifier::external_body]
pub(crate) fn string_insert(text: &mut String, index: usize, c: char)
    requires
        index <= encode_utf8(old(text)@).len(),
        is_char_boundary(encode_utf8(old(text)@), index as int),
    ensures
        encode_utf8(final(text)@) == encode_utf8(old(text)@).subrange(0, index as int)
            + encode_scalar(c as u32) + encode_utf8(old(text)@).subrange(
            index as int,
            encode_utf8(old(text)@).len() as int,
        ),
{
    text.insert(index, c);
}

} // verus!
