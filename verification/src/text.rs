//! Comparison and composition of text.

use vstd::prelude::*;
use vstd::string::*;
use vstd::utf8::*;

verus! {

/// Whether two string slices hold the same characters.
pub fn str_eq(a: &str, b: &str) -> (same: bool)
    ensures
        same == (a@ == b@),
{
    let x = a.as_bytes();
    let y = b.as_bytes();
    proof {
        // A character sequence is recovered from its encoding, so equal
        // encodings come from equal sequences.
        encode_utf8_decode_utf8(a@);
        encode_utf8_decode_utf8(b@);
    }
    if x.len() != y.len() {
        return false;
    }
    let mut i: usize = 0;
    while i < x.len()
        invariant
            i <= x.len(),
            x.len() == y.len(),
            x@ == a.spec_bytes(),
            y@ == b.spec_bytes(),
            a@ == decode_utf8(a.spec_bytes()),
            b@ == decode_utf8(b.spec_bytes()),
            forall|j: int| 0 <= j < i ==> x@[j] == y@[j],
        decreases x.len() - i,
    {
        if x[i] != y[i] {
            return false;
        }
        i += 1;
    }
    assert(x@ =~= y@);
    true
}

/// Whether the text holds no line feed.
pub open spec fn one_line(text: Seq<char>) -> bool {
    forall|i: int| 0 <= i < text.len() ==> text[i] != '\n'
}

/// How many characters stand before the first line feed, or how many there
/// are where there is none.
pub open spec fn line_end(text: Seq<char>) -> int
    decreases text.len(),
{
    if text.len() == 0 || text[0] == '\n' {
        0
    } else {
        1 + line_end(text.drop_first())
    }
}

/// The characters before the first line feed: all of them where there is
/// none.
pub open spec fn first_line_of(text: Seq<char>) -> Seq<char> {
    text.take(line_end(text))
}

/// The first line ends at `end` where no line feed stands before `end` and
/// one stands at `end`, or the text ends there.
pub proof fn lemma_line_end(text: Seq<char>, end: int)
    requires
        0 <= end <= text.len(),
        forall|j: int| 0 <= j < end ==> text[j] != '\n',
        end < text.len() ==> text[end] == '\n',
    ensures
        line_end(text) == end,
    decreases end,
{
    if end > 0 {
        let rest = text.drop_first();
        assert forall|j: int| 0 <= j < end - 1 implies rest[j] != '\n' by {
            assert(rest[j] == text[j + 1]);
        }
        lemma_line_end(rest, end - 1);
    }
}

/// The first line of a text is one line and the text starts with it.
pub proof fn lemma_first_line_is_one_line(text: Seq<char>)
    ensures
        0 <= line_end(text) <= text.len(),
        forall|j: int| 0 <= j < line_end(text) ==> text[j] != '\n',
        one_line(first_line_of(text)),
        !first_line_of(text).contains('\n'),
        line_end(text) < text.len() ==> text[line_end(text)] == '\n',
    decreases text.len(),
{
    if text.len() == 0 || text[0] == '\n' {
    } else {
        let rest = text.drop_first();
        lemma_first_line_is_one_line(rest);
        assert forall|j: int| 0 <= j < line_end(text) implies text[j] != '\n' by {
            if j > 0 {
                assert(text[j] == rest[j - 1]);
            }
        }
        assert(line_end(text) < text.len() ==> text[line_end(text)] == rest[line_end(rest)]);
    }
}

/// One line after another, with no line feed between them, is one line.
pub proof fn lemma_one_line_joined(head: Seq<char>, tail: Seq<char>)
    requires
        one_line(head),
        one_line(tail),
    ensures
        one_line(head + tail),
{
    assert forall|i: int| 0 <= i < (head + tail).len() implies (head + tail)[i] != '\n' by {
        if i < head.len() {
            assert((head + tail)[i] == head[i]);
        } else {
            assert((head + tail)[i] == tail[i - head.len()]);
        }
    }
}

/// The first line of a text, without its line feed.
pub fn first_line(text: &str) -> (line: String)
    ensures
        line@ == first_line_of(text@),
{
    let length = text.unicode_len();
    let mut end: usize = 0;
    let mut found = false;
    while end < length && !found
        invariant
            end <= length,
            length == text@.len(),
            forall|j: int| 0 <= j < end ==> text@[j] != '\n',
            found ==> end < length && text@[end as int] == '\n',
        decreases length - end, if found { 0int } else { 1int },
    {
        if text.get_char(end) == '\n' {
            found = true;
        } else {
            end += 1;
        }
    }
    proof {
        lemma_line_end(text@, end as int);
    }
    String::from_str(text.substring_char(0, end))
}

/// The characters of `head` followed by those of `tail`.
pub fn join(head: &str, tail: &str) -> (joined: String)
    ensures
        joined@ == head@ + tail@,
{
    let mut joined = String::from_str(head);
    joined.append(tail);
    joined
}

} // verus!
