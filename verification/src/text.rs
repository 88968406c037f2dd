//! Text as sequences of characters, and its size once encoded as UTF-8.

use vstd::prelude::*;
use vstd::utf8::encode_utf8;

verus! {

/// The texts of a list of strings.
pub open spec fn views(items: Seq<&str>) -> Seq<Seq<char>> {
    items.map_values(|s: &str| s@)
}

/// Number of bytes that `text` occupies once written out as UTF-8.
pub open spec fn byte_len(text: Seq<char>) -> nat {
    encode_utf8(text).len()
}

/// Encoding a concatenation gives the concatenation of the encodings.
pub proof fn lemma_encode_concat(a: Seq<char>, b: Seq<char>)
    ensures
        encode_utf8(a + b) == encode_utf8(a) + encode_utf8(b),
    decreases a.len(),
{
    if a.len() > 0 {
        lemma_encode_concat(a.drop_first(), b);
        assert((a + b).drop_first() =~= a.drop_first() + b);
    }
}

/// Every character takes at least one byte.
pub proof fn lemma_byte_len_at_least_len(text: Seq<char>)
    ensures
        byte_len(text) >= text.len(),
    decreases text.len(),
{
    if text.len() > 0 {
        lemma_byte_len_at_least_len(text.drop_first());
    }
}

/// The size of a concatenation is the sum of the sizes of its parts.
pub proof fn lemma_byte_len_concat(a: Seq<char>, b: Seq<char>)
    ensures
        byte_len(a + b) == byte_len(a) + byte_len(b),
{
    lemma_encode_concat(a, b);
}

/// The text that a list of lines makes up when written one after another.
pub open spec fn joined(lines: Seq<Seq<char>>) -> Seq<char> {
    lines.flatten()
}

/// Joining two lists of lines one after the other joins their texts.
pub proof fn lemma_joined_concat(a: Seq<Seq<char>>, b: Seq<Seq<char>>)
    ensures
        joined(a + b) == joined(a) + joined(b),
        byte_len(joined(a + b)) == byte_len(joined(a)) + byte_len(joined(b)),
{
    vstd::seq_lib::lemma_flatten_concat(a, b);
    lemma_byte_len_concat(joined(a), joined(b));
}

/// Adding a line at the end adds its text at the end.
pub proof fn lemma_joined_push(lines: Seq<Seq<char>>, line: Seq<char>)
    ensures
        joined(lines.push(line)) == joined(lines) + line,
        byte_len(joined(lines.push(line))) == byte_len(joined(lines)) + byte_len(line),
{
    lines.lemma_flatten_push(line);
    lemma_byte_len_concat(joined(lines), line);
}

/// A list of lines is at least as large as its last line.
pub proof fn lemma_joined_at_least_last(lines: Seq<Seq<char>>)
    requires
        lines.len() > 0,
    ensures
        byte_len(joined(lines)) >= byte_len(lines.last()),
{
    assert(lines =~= lines.drop_last().push(lines.last()));
    lemma_joined_push(lines.drop_last(), lines.last());
}

/// The first lines of a list are no larger than the whole list.
pub proof fn lemma_joined_prefix(lines: Seq<Seq<char>>, n: int)
    requires
        0 <= n <= lines.len(),
    ensures
        byte_len(joined(lines.take(n))) <= byte_len(joined(lines)),
{
    assert(lines =~= lines.take(n) + lines.skip(n));
    lemma_joined_concat(lines.take(n), lines.skip(n));
}

} // verus!
