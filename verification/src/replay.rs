//! Reading recorded samples.
//!
//! A recording is a text of lines, each holding the `x` and the `z` rate of
//! one sample with a colon between them, as in `0.25:-1.5`. This module
//! splits a line; the host reads the file and the two numbers.

use vstd::prelude::*;
use vstd::string::*;

verus! {

/// What `str::trim` leaves of a text.
pub uninterp spec fn trimmed(text: Seq<char>) -> Seq<char>;

/// Calls `str::trim`, which returns the slice without its leading and
/// trailing white space. The contract ties the outcome to [`trimmed`].
#[verifier::external_body]
pub(crate) fn trim(text: &str) -> (r: &str)
    ensures
        r@ == trimmed(text@),
{
    text.trim()
}

/// Whether `text` is `left`, a colon and `right`, and the colon is its only
/// one.
pub open spec fn is_split(text: Seq<char>, left: Seq<char>, right: Seq<char>) -> bool {
    &&& text == left + seq![':'] + right
    &&& !left.contains(':')
    &&& !right.contains(':')
}

/// Whether a text holds exactly one colon.
pub open spec fn has_one_colon(text: Seq<char>) -> bool {
    exists|left: Seq<char>, right: Seq<char>| is_split(text, left, right)
}

/// In a split, the colon of the text stands right after the left part, and
/// no other character of the text is a colon.
pub proof fn lemma_split_places_colon(text: Seq<char>, left: Seq<char>, right: Seq<char>)
    requires
        is_split(text, left, right),
    ensures
        text.len() == left.len() + 1 + right.len(),
        forall|i: int| 0 <= i < text.len() ==> (text[i] == ':' <==> i == left.len()),
        left == text.subrange(0, left.len() as int),
        right == text.subrange(left.len() as int + 1, text.len() as int),
{
    assert forall|i: int| 0 <= i < text.len() implies (text[i] == ':' <==> i == left.len()) by {
        if i < left.len() {
            assert(text[i] == left[i]);
            assert(text[i] == ':' ==> left.contains(':'));
        } else if i > left.len() {
            assert(text[i] == right[i - left.len() - 1]);
            assert(text[i] == ':' ==> right.contains(':'));
        }
    }
    assert(left =~= text.subrange(0, left.len() as int));
    assert(right =~= text.subrange(left.len() as int + 1, text.len() as int));
}

/// A text has at most one split.
pub proof fn lemma_split_is_unique(
    text: Seq<char>,
    left: Seq<char>,
    right: Seq<char>,
    other_left: Seq<char>,
    other_right: Seq<char>,
)
    requires
        is_split(text, left, right),
        is_split(text, other_left, other_right),
    ensures
        left == other_left,
        right == other_right,
{
    lemma_split_places_colon(text, left, right);
    lemma_split_places_colon(text, other_left, other_right);
    assert(text[left.len() as int] == ':');
}

/// The position of the first colon from `from` on, or the length of the text
/// where none follows.
fn next_colon(text: &str, from: usize) -> (r: usize)
    requires
        from <= text@.len(),
    ensures
        from <= r <= text@.len(),
        r < text@.len() ==> text@[r as int] == ':',
        forall|i: int| from <= i < r ==> text@[i] != ':',
{
    let length = text.unicode_len();
    let mut at: usize = from;
    while at < length
        invariant
            length == text@.len(),
            from <= at <= length,
            forall|i: int| from <= i < at ==> text@[i] != ':',
        decreases length - at,
    {
        if text.get_char(at) == ':' {
            return at;
        }
        at += 1;
    }
    at
}

/// Splits a line of a recording at its colon.
///
/// White space around the line is dropped first. The result is the text
/// before and the text after the colon where the line holds exactly one, and
/// `None` where it holds none or several.
pub fn split_pair(line: &str) -> (r: Option<(&str, &str)>)
    ensures
        match r {
            Some((left, right)) => is_split(trimmed(line@), left@, right@),
            None => !has_one_colon(trimmed(line@)),
        },
{
    let text = trim(line);
    let length = text.unicode_len();
    let first = next_colon(text, 0);
    if first == length {
        proof {
            assert forall|left: Seq<char>, right: Seq<char>| !is_split(text@, left, right) by {
                if is_split(text@, left, right) {
                    lemma_split_places_colon(text@, left, right);
                    assert(text@[left.len() as int] == ':');
                }
            }
        }
        return None;
    }
    let second = next_colon(text, first + 1);
    if second != length {
        proof {
            assert forall|left: Seq<char>, right: Seq<char>| !is_split(text@, left, right) by {
                if is_split(text@, left, right) {
                    lemma_split_places_colon(text@, left, right);
                    assert(text@[first as int] == ':');
                    assert(text@[second as int] == ':');
                }
            }
        }
        return None;
    }
    let left = text.substring_char(0, first);
    let right = text.substring_char(first + 1, length);
    proof {
        assert(text@ =~= left@ + seq![':'] + right@);
        assert(!left@.contains(':'));
        assert(!right@.contains(':'));
    }
    Some((left, right))
}

/// Pairs the two rates of a line. A line counts only where both were read.
pub fn pair_rates(x: Option<u64>, z: Option<u64>) -> (r: Option<(u64, u64)>)
    ensures
        r == match (x, z) {
            (Some(x_bits), Some(z_bits)) => Some((x_bits, z_bits)),
            _ => None,
        },
{
    match (x, z) {
        (Some(x_bits), Some(z_bits)) => Some((x_bits, z_bits)),
        _ => None,
    }
}

} // verus!
