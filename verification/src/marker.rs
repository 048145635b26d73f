//! The success marker and the search for it.
//!
//! The provider signals success by free text: a response succeeded when its
//! text holds the marker somewhere. The search runs over the UTF-8 bytes of
//! the text; that this finds exactly the occurrences among the characters is
//! proved here, from the marker being ASCII.

use vstd::prelude::*;
use vstd::string::*;
use vstd::utf8::*;

verus! {

/// The substring whose presence in a response means success.
pub const SUCCESS_MARKER: &'static str = "SUCCESS";

/// `needle` stands in `haystack` at position `at`, element for element.
pub open spec fn occurs_at<T>(haystack: Seq<T>, needle: Seq<T>, at: int) -> bool {
    &&& 0 <= at
    &&& at + needle.len() <= haystack.len()
    &&& haystack.subrange(at, at + needle.len()) == needle
}

/// `needle` stands somewhere in `haystack` as a contiguous run.
pub open spec fn contains_run<T>(haystack: Seq<T>, needle: Seq<T>) -> bool {
    exists|at: int| occurs_at(haystack, needle, at)
}

/// The text carries the success marker.
pub open spec fn has_marker(text: Seq<char>) -> bool {
    contains_run(text, SUCCESS_MARKER@)
}

/// Compares `needle` with the bytes of `haystack` that start at `at`.
fn matches_at(haystack: &[u8], needle: &[u8], at: usize) -> (same: bool)
    requires
        at + needle@.len() <= haystack@.len(),
    ensures
        same == occurs_at(haystack@, needle@, at as int),
{
    let mut k: usize = 0;
    while k < needle.len()
        invariant
            k <= needle.len(),
            at + needle.len() <= haystack.len(),
            forall|j: int| 0 <= j < k ==> haystack@[at + j] == needle@[j],
        decreases needle@.len() - k,
    {
        if haystack[at + k] != needle[k] {
            return false;
        }
        k += 1;
    }
    assert(haystack@.subrange(at as int, at + needle@.len()) =~= needle@);
    true
}

/// Looks for `needle` in `haystack`, trying each position in turn.
fn find_run(haystack: &[u8], needle: &[u8]) -> (found: bool)
    ensures
        found == contains_run(haystack@, needle@),
{
    if needle.len() > haystack.len() {
        return false;
    }
    let last: usize = haystack.len() - needle.len();
    let mut at: usize = 0;
    loop
        invariant
            last == haystack.len() - needle.len(),
            at <= last,
            forall|p: int| 0 <= p < at ==> !occurs_at(haystack@, needle@, p),
        decreases last - at,
    {
        if matches_at(haystack, needle, at) {
            return true;
        }
        if at == last {
            return false;
        }
        at += 1;
    }
}

/// Encoding a concatenation gives the concatenation of the encodings.
proof fn lemma_encode_concat(front: Seq<char>, back: Seq<char>)
    ensures
        encode_utf8(front + back) == encode_utf8(front) + encode_utf8(back),
    decreases front.len(),
{
    if front.len() > 0 {
        lemma_encode_concat(front.drop_first(), back);
        assert((front + back).drop_first() =~= front.drop_first() + back);
    }
}

/// A one-byte character that starts on a character boundary ends on one.
proof fn lemma_boundary_after_ascii(bytes: Seq<u8>, index: int)
    requires
        valid_utf8(bytes),
        0 <= index < bytes.len(),
        is_char_boundary(bytes, index),
        is_leading_byte_width_1(bytes[index]),
    ensures
        is_char_boundary(bytes, index + 1),
    decreases bytes.len(),
{
    reveal_with_fuel(is_char_boundary, 2);
    if index > 0 {
        let rest = pop_first_scalar(bytes);
        let shifted = index - length_of_first_scalar(bytes);
        lemma_boundary_after_ascii(rest, shifted);
    }
}

/// After a run of one-byte characters at the start comes a character boundary.
proof fn lemma_boundary_after_ascii_run(bytes: Seq<u8>, run: int)
    requires
        valid_utf8(bytes),
        0 <= run <= bytes.len(),
        forall|k: int| 0 <= k < run ==> is_leading_byte_width_1(#[trigger] bytes[k]),
    ensures
        is_char_boundary(bytes, run),
    decreases run,
{
    if run > 0 {
        lemma_boundary_after_ascii_run(bytes, run - 1);
        lemma_boundary_after_ascii(bytes, run - 1);
    }
}

/// An occurrence among the characters is an occurrence among the bytes.
proof fn lemma_run_in_chars_is_run_in_bytes(text: Seq<char>, needle: Seq<char>, at: int)
    requires
        occurs_at(text, needle, at),
    ensures
        contains_run(encode_utf8(text), encode_utf8(needle)),
{
    let front = text.subrange(0, at);
    let back = text.subrange(at + needle.len(), text.len() as int);
    assert(text =~= front + needle + back);
    lemma_encode_concat(front + needle, back);
    lemma_encode_concat(front, needle);
    let bytes = encode_utf8(text);
    let start = encode_utf8(front).len() as int;
    assert(bytes.subrange(start, start + encode_utf8(needle).len()) =~= encode_utf8(needle));
    assert(occurs_at(bytes, encode_utf8(needle), start));
}

/// An occurrence of an ASCII needle among the bytes is an occurrence among
/// the characters.
proof fn lemma_run_in_bytes_is_run_in_chars(text: Seq<char>, needle: Seq<char>, at: int)
    requires
        is_ascii_chars(needle),
        needle.len() > 0,
        occurs_at(encode_utf8(text), encode_utf8(needle), at),
    ensures
        contains_run(text, needle),
{
    let bytes = encode_utf8(text);
    let pattern = encode_utf8(needle);
    let run = pattern.len() as int;
    encode_utf8_valid_utf8(text);
    encode_utf8_decode_utf8(text);
    encode_utf8_decode_utf8(needle);
    // The pattern's bytes are the needle's characters, each a byte below 0x80.
    is_ascii_chars_encode_utf8(needle);
    is_ascii_chars_nat_bound(needle);
    // The occurrence starts with such a byte, so it starts a character.
    is_char_boundary_iff_is_leading_byte(bytes, at);
    valid_utf8_split(bytes, at);
    decode_utf8_split(bytes, at);
    // It consists of such bytes, so it ends where a character ends.
    let tail = bytes.subrange(at, bytes.len() as int);
    assert(tail.subrange(0, run) =~= pattern);
    lemma_boundary_after_ascii_run(tail, run);
    decode_utf8_split(tail, run);
    // So the text decodes in three parts, and the middle one is the needle.
    let start = decode_utf8(bytes.subrange(0, at)).len() as int;
    assert(text.subrange(start, start + needle.len()) =~= needle);
    assert(occurs_at(text, needle, start));
}

/// For an ASCII needle, searching the UTF-8 bytes of a text finds what
/// searching its characters finds.
pub proof fn lemma_ascii_run_in_encoding(text: Seq<char>, needle: Seq<char>)
    requires
        is_ascii_chars(needle),
    ensures
        contains_run(encode_utf8(text), encode_utf8(needle)) == contains_run(text, needle),
{
    if needle.len() == 0 {
        assert(occurs_at(text, needle, 0)) by {
            assert(text.subrange(0, 0) =~= needle);
        }
        assert(occurs_at(encode_utf8(text), encode_utf8(needle), 0)) by {
            assert(encode_utf8(text).subrange(0, 0) =~= encode_utf8(needle));
        }
    } else {
        if contains_run(text, needle) {
            let at = choose|at: int| occurs_at(text, needle, at);
            lemma_run_in_chars_is_run_in_bytes(text, needle, at);
        }
        if contains_run(encode_utf8(text), encode_utf8(needle)) {
            let at = choose|at: int| occurs_at(encode_utf8(text), encode_utf8(needle), at);
            lemma_run_in_bytes_is_run_in_chars(text, needle, at);
        }
    }
}

/// Tells whether the text carries the success marker.
pub fn contains_marker(text: &str) -> (found: bool)
    ensures
        found == has_marker(text@),
{
    proof {
        reveal_strlit("SUCCESS");
        lemma_ascii_run_in_encoding(text@, SUCCESS_MARKER@);
    }
    find_run(text.as_bytes(), SUCCESS_MARKER.as_bytes())
}

} // verus!
