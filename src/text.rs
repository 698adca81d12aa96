//! Character classes and string building that the library takes from std.
use vstd::prelude::*;

verus! {

/// Whether a character has the Unicode `White_Space` property.
pub uninterp spec fn whitespace(c: char) -> bool;

/// Whether a character is alphabetic or numeric in the Unicode sense.
pub uninterp spec fn alphanumeric(c: char) -> bool;

/// Relies on `char::is_whitespace`: the answer depends on the character alone.
#[verifier::external_body]
pub(crate) fn is_whitespace(c: char) -> (r: bool)
    ensures
        r == whitespace(c),
{
    c.is_whitespace()
}

/// Relies on `char::is_alphanumeric`: the answer depends on the character alone.
#[verifier::external_body]
pub(crate) fn is_alphanumeric(c: char) -> (r: bool)
    ensures
        r == alphanumeric(c),
{
    c.is_alphanumeric()
}

/// Relies on `String::push`: appends the character at the end.
#[verifier::external_body]
pub(crate) fn push_char(s: &mut String, c: char)
    ensures
        final(s)@ == old(s)@.push(c),
{
    s.push(c)
}

/// A character with the two Unicode classes that the scanner reads.
#[derive(Debug, Clone, Copy, PartialEq, Eq)]
pub struct CharInfo {
    pub c: char,
    /// Whether the character is whitespace.
    pub space: bool,
    /// Whether the character is alphanumeric.
    pub alnum: bool,
}

/// The characters of classified text.
pub open spec fn chars(t: Seq<CharInfo>) -> Seq<char> {
    t.map_values(|x: CharInfo| x.c)
}

/// A character with its classes.
pub open spec fn info_of(c: char) -> CharInfo {
    CharInfo { c, space: whitespace(c), alnum: alphanumeric(c) }
}

/// Each character of `s` with its classes.
pub open spec fn classified(s: Seq<char>) -> Seq<CharInfo> {
    s.map_values(|c: char| info_of(c))
}

/// Classifies one character.
pub fn classify_char(c: char) -> (r: CharInfo)
    ensures
        r == info_of(c),
{
    CharInfo { c, space: is_whitespace(c), alnum: is_alphanumeric(c) }
}

/// Classifies each character of a string slice.
pub fn classify(s: &str) -> (r: Vec<CharInfo>)
    ensures
        r@ == classified(s@),
{
    let cs = chars_of(s);
    let mut out: Vec<CharInfo> = Vec::new();
    let mut i: usize = 0;
    while i < cs.len()
        invariant
            cs@ == s@,
            i <= cs.len(),
            out@.len() == i,
            forall|j: int| 0 <= j < i ==> #[trigger] out@[j] == info_of(s@[j]),
        decreases cs.len() - i,
    {
        out.push(classify_char(cs[i]));
        i += 1;
    }
    assert(out@ =~= classified(s@));
    out
}

/// The characters of a string slice, in order.
fn chars_of(s: &str) -> (r: Vec<char>)
    ensures
        r@ == s@,
{
    let mut r: Vec<char> = Vec::new();
    for c in it: s.chars()
        invariant
            it.seq() == s@,
            r@ == it.seq().subrange(0, it.index() as int),
    {
        r.push(c);
    }
    r
}

/// A string holding the characters of `t[from..to]`.
pub(crate) fn string_of(t: &Vec<CharInfo>, from: usize, to: usize) -> (r: String)
    requires
        from <= to <= t.len(),
    ensures
        r@ == chars(t@.subrange(from as int, to as int)),
{
    let mut r = String::new();
    let mut i = from;
    while i < to
        invariant
            from <= i <= to <= t.len(),
            r@ == chars(t@.subrange(from as int, i as int)),
        decreases to - i,
    {
        push_char(&mut r, t[i].c);
        assert(chars(t@.subrange(from as int, i + 1)) =~= chars(t@.subrange(from as int, i as int)).push(t@[i as int].c));
        i += 1;
    }
    r
}

} // verus!
