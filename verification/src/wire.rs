//! Bytes of the wire format: the delimiters, and text read as ASCII bytes.

use vstd::prelude::*;

verus! {

/// Ends the request line, the status line and the header line.
pub const NEWLINE: u8 = 0x0a;

/// Parts the method token from the path in a request line.
pub const SPACE: u8 = 0x20;

/// Parts the segments of a virtual path; a leading one marks the root.
pub const SEPARATOR: u8 = 0x2f;

/// A dot; two of them make the parent-directory segment.
pub const DOT: u8 = 0x2e;

/// The bytes of a text whose characters are all ASCII.
pub open spec fn ascii_bytes(text: Seq<char>) -> Seq<u8> {
    Seq::new(text.len(), |i: int| text[i] as u8)
}

/// The upper-case form of an ASCII letter; any other byte stays as it is.
/// On the wire only ASCII letters have a case.
pub open spec fn upper(b: u8) -> u8 {
    if 0x61 <= b <= 0x7a {
        (b - 0x20) as u8
    } else {
        b
    }
}

/// A byte sequence with every ASCII letter in upper case.
pub open spec fn upper_all(bytes: Seq<u8>) -> Seq<u8> {
    Seq::new(bytes.len(), |i: int| upper(bytes[i]))
}

/// Two byte sequences are the same text up to the case of ASCII letters.
pub open spec fn same_ignoring_case(a: Seq<u8>, b: Seq<u8>) -> bool {
    upper_all(a) == upper_all(b)
}

/// White space that may trail a line: space, tab, line feed, vertical tab,
/// form feed, carriage return. No byte beyond ASCII counts as white space.
pub open spec fn is_blank(b: u8) -> bool {
    b == 0x20 || (0x09 <= b <= 0x0d)
}

/// What reading one line takes from the front of a stream: all up to and
/// including the first newline, or all there is where it holds none.
pub open spec fn first_line(stream: Seq<u8>) -> Seq<u8>
    decreases stream.len(),
{
    if stream.len() == 0 {
        stream
    } else if stream[0] == NEWLINE {
        stream.take(1)
    } else {
        seq![stream[0]] + first_line(stream.skip(1))
    }
}

/// A text without newline, followed by one, is read as one line, whatever
/// comes after.
pub proof fn line_is_read_whole(text: Seq<u8>, rest: Seq<u8>)
    requires
        !text.contains(NEWLINE),
    ensures
        first_line(text + seq![NEWLINE] + rest) == text + seq![NEWLINE],
    decreases text.len(),
{
    let stream = text + seq![NEWLINE] + rest;
    if text.len() > 0 {
        let shorter = text.skip(1);
        assert(stream.skip(1) =~= shorter + seq![NEWLINE] + rest);
        line_is_read_whole(shorter, rest);
    }
}

/// Upper-case form of one byte.
pub(crate) fn to_upper(b: u8) -> (r: u8)
    ensures
        r == upper(b),
{
    if 0x61 <= b && b <= 0x7a {
        b - 0x20
    } else {
        b
    }
}

/// Tests whether `bytes`, with its ASCII letters in upper case, spells `word`.
pub(crate) fn spells(bytes: &[u8], word: &str) -> (r: bool)
    requires
        word.is_ascii(),
    ensures
        r == (upper_all(bytes@) == ascii_bytes(word@)),
{
    let target = word.as_bytes();
    proof {
        vstd::string::is_ascii_spec_bytes(word);
    }
    if bytes.len() != target.len() {
        return false;
    }
    let mut i: usize = 0;
    while i < bytes.len()
        invariant
            i <= bytes.len(),
            bytes.len() == target.len(),
            target@ == ascii_bytes(word@),
            forall|k: int| 0 <= k < i ==> upper(bytes@[k]) == target@[k],
        decreases bytes.len() - i,
    {
        if to_upper(bytes[i]) != target[i] {
            return false;
        }
        i += 1;
    }
    assert(upper_all(bytes@) =~= ascii_bytes(word@));
    true
}

/// Appends the bytes of an ASCII text to `out`.
pub(crate) fn push_text(out: &mut Vec<u8>, text: &str)
    requires
        text.is_ascii(),
    ensures
        final(out)@ == old(out)@ + ascii_bytes(text@),
{
    proof {
        vstd::string::is_ascii_spec_bytes(text);
    }
    out.extend_from_slice(text.as_bytes());
}

} // verus!
