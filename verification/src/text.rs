//! Small operations on text that the other modules share.

use vstd::prelude::*;
use vstd::string::StrSliceExecFns;
use vstd::string::StringExecFns;

verus! {

/// The contents of a list of strings.
pub open spec fn texts(list: Seq<String>) -> Seq<Seq<char>> {
    list.map_values(|s: String| s@)
}

/// The text `head` followed by the text `tail`.
pub fn joined(head: &str, tail: &str) -> (r: String)
    ensures
        r@ == head@ + tail@,
{
    String::from_str(head).concat(tail)
}

/// Whether `text` begins with `prefix`.
pub fn starts_with(text: &str, prefix: &str) -> (r: bool)
    ensures
        r == prefix@.is_prefix_of(text@),
{
    let n: usize = text.unicode_len();
    let m: usize = prefix.unicode_len();
    if m > n {
        return false;
    }
    let mut i: usize = 0;
    while i < m
        invariant
            m == prefix@.len(),
            n == text@.len(),
            m <= n,
            i <= m,
            forall|k: int| 0 <= k < i ==> prefix@[k] == text@[k],
        decreases m - i,
    {
        if prefix.get_char(i) != text.get_char(i) {
            assert(text@.subrange(0, m as int)[i as int] == text@[i as int]);
            return false;
        }
        i += 1;
    }
    assert(prefix@ =~= text@.subrange(0, m as int));
    true
}

/// Whether two texts are the same, character for character.
pub fn same_text(left: &str, right: &str) -> (r: bool)
    ensures
        r == (left@ == right@),
{
    let r: bool = starts_with(left, right) && starts_with(right, left);
    proof {
        if r {
            assert(left@ =~= right@);
        }
    }
    r
}

/// Whether `c` may stand in the name of a C declaration: a letter or a
/// digit of ASCII, or the underscore.
pub open spec fn name_char(c: char) -> bool {
    ||| 'a' as u32 <= c as u32 <= 'z' as u32
    ||| 'A' as u32 <= c as u32 <= 'Z' as u32
    ||| '0' as u32 <= c as u32 <= '9' as u32
    ||| c == '_'
}

/// Whether a text holds nothing but characters of C names.
pub open spec fn name_text(text: Seq<char>) -> bool {
    forall|i: int| 0 <= i < text.len() ==> name_char(#[trigger] text[i])
}

/// Decides whether `c` may stand in the name of a C declaration.
pub fn is_name_char(c: char) -> (r: bool)
    ensures
        r == name_char(c),
{
    let code: u32 = c as u32;
    (code >= 'a' as u32 && code <= 'z' as u32) || (code >= 'A' as u32 && code <= 'Z' as u32) || (
    code >= '0' as u32 && code <= '9' as u32) || c == '_'
}

/// Decides whether a text holds nothing but characters of C names.
pub fn is_name_text(text: &str) -> (r: bool)
    ensures
        r == name_text(text@),
{
    let n: usize = text.unicode_len();
    let mut i: usize = 0;
    while i < n
        invariant
            n == text@.len(),
            i <= n,
            forall|k: int| 0 <= k < i ==> name_char(#[trigger] text@[k]),
        decreases n - i,
    {
        if !is_name_char(text.get_char(i)) {
            return false;
        }
        i += 1;
    }
    true
}

} // verus!
