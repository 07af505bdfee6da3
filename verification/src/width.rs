//! Terminal display width of characters and of text.
//!
//! A cursor that stands after `n` characters does not stand in column `n`:
//! combining marks take no column and wide scripts take two. The width of a
//! single character comes from the `unicode-width` crate; everything built on
//! it is defined and proved here.

use unicode_width::UnicodeWidthChar;
use vstd::prelude::*;

verus! {

/// What `unicode_width::UnicodeWidthChar::width` returns for `c`: the number
/// of columns that `c` takes, or `None` for a control character. The value is
/// looked up in tables that the crate carries, so it depends on `c` alone.
pub uninterp spec fn unicode_width(c: char) -> Option<usize>;

/// Calls `unicode_width::UnicodeWidthChar::width` on `c`.
///
/// Trusted: the result is the value that the crate's tables give for `c`.
/// Nothing is claimed about which value that is.
#[verifier::external_body]
pub(crate) fn char_width(c: char) -> (w: Option<usize>)
    ensures
        w == unicode_width(c),
{
    UnicodeWidthChar::width(c)
}

/// The number of terminal columns that `c` takes. A character without a
/// width of its own (a control character) takes none.
pub open spec fn char_columns(c: char) -> nat {
    match unicode_width(c) {
        Some(w) => w as nat,
        None => 0,
    }
}

/// The number of terminal columns that the characters of `s` take together.
pub open spec fn display_width(s: Seq<char>) -> nat
    decreases s.len(),
{
    if s.len() == 0 {
        0
    } else {
        display_width(s.drop_last()) + char_columns(s.last())
    }
}

/// The number of columns that one character takes, as an executable value.
pub fn columns_of(c: char) -> (n: usize)
    ensures
        n == char_columns(c),
{
    match char_width(c) {
        Some(w) => w,
        None => 0,
    }
}

/// A longer prefix of a text is never narrower than a shorter one.
pub proof fn lemma_display_width_prefix_monotonic(s: Seq<char>, i: int, j: int)
    requires
        0 <= i <= j <= s.len(),
    ensures
        display_width(s.take(i)) <= display_width(s.take(j)),
    decreases j - i,
{
    if i < j {
        lemma_display_width_prefix_monotonic(s, i, j - 1);
        assert(s.take(j).drop_last() =~= s.take(j - 1));
    }
}

/// Taking one more character into the prefix adds exactly that character's
/// columns.
pub proof fn lemma_display_width_prefix_step(s: Seq<char>, i: int)
    requires
        0 <= i < s.len(),
    ensures
        display_width(s.take(i + 1)) == display_width(s.take(i)) + char_columns(s[i]),
{
    assert(s.take(i + 1).drop_last() =~= s.take(i));
}

} // verus!
