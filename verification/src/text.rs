//! Text operations that the dashboard needs from `std`, with their contracts.

use vstd::prelude::*;

verus! {

/// The text of an optional text.
pub open spec fn text_view(s: Option<String>) -> Option<Seq<char>> {
    match s {
        Some(t) => Some(t@),
        None => None,
    }
}

/// `needle` occurs in `hay` as a contiguous run of characters.
pub open spec fn is_substring(needle: Seq<char>, hay: Seq<char>) -> bool {
    exists|i: int|
        0 <= i && i + needle.len() <= hay.len() && #[trigger] hay.subrange(
            i,
            i + needle.len(),
        ) == needle
}

/// The lower-case form of a text as `str::to_lowercase` computes it from
/// Unicode's case tables.
pub uninterp spec fn lowercase(s: Seq<char>) -> Seq<char>;

/// `str::to_lowercase`: the result is the lower-case form of the text, which
/// depends on the characters of the text alone.
pub assume_specification[ str::to_lowercase ](s: &str) -> (r: String)
    ensures
        r@ == lowercase(s@),
;

/// `String::push`: appends one character at the end.
pub assume_specification[ String::push ](s: &mut String, c: char)
    ensures
        final(s)@ == old(s)@.push(c),
;

/// `String::pop`: removes the last character and returns it, or returns
/// `None` and leaves an empty text as it is.
pub assume_specification[ String::pop ](s: &mut String) -> (r: Option<char>)
    ensures
        old(s)@.len() == 0 ==> r.is_none() && final(s)@ == old(s)@,
        old(s)@.len() > 0 ==> r == Some(old(s)@.last()) && final(s)@ == old(s)@.drop_last(),
;

/// `String::clear`: empties the text.
pub assume_specification[ String::clear ](s: &mut String)
    ensures
        final(s)@ == Seq::<char>::empty(),
;

/// `str::contains` with a text as the pattern: whether the pattern occurs in
/// the text as a contiguous run of characters.
#[verifier::external_body]
pub(crate) fn contains(hay: &str, needle: &str) -> (r: bool)
    ensures
        r == is_substring(needle@, hay@),
{
    hay.contains(needle)
}

/// `str`'s equality: whether two texts hold the same characters.
#[verifier::external_body]
pub(crate) fn same_text(a: &str, b: &str) -> (r: bool)
    ensures
        r == (a@ == b@),
{
    a == b
}

/// Whether a character is white space, by Unicode's property
/// `White_Space`: the controls from tab to carriage return, the space, the
/// next-line control, the no-break space, and the spaces and separators of
/// the general punctuation and ideographic blocks.
pub open spec fn white_space(c: char) -> bool {
    let n = c as u32;
    ||| 0x09 <= n <= 0x0D
    ||| n == 0x20
    ||| n == 0x85
    ||| n == 0xA0
    ||| n == 0x1680
    ||| 0x2000 <= n <= 0x200A
    ||| n == 0x2028
    ||| n == 0x2029
    ||| n == 0x202F
    ||| n == 0x205F
    ||| n == 0x3000
}

/// A text without the white space at its start.
pub open spec fn without_leading(s: Seq<char>) -> Seq<char>
    decreases s.len(),
{
    if s.len() > 0 && white_space(s.first()) {
        without_leading(s.drop_first())
    } else {
        s
    }
}

/// A text without the white space at its end.
pub open spec fn without_trailing(s: Seq<char>) -> Seq<char>
    decreases s.len(),
{
    if s.len() > 0 && white_space(s.last()) {
        without_trailing(s.drop_last())
    } else {
        s
    }
}

/// A text without the white space at its two ends.
pub open spec fn trimmed(s: Seq<char>) -> Seq<char> {
    without_trailing(without_leading(s))
}

/// Whether a character is white space.
pub fn is_white_space(c: char) -> (r: bool)
    ensures
        r == white_space(c),
{
    let n: u32 = c as u32;
    (0x09 <= n && n <= 0x0D) || n == 0x20 || n == 0x85 || n == 0xA0 || n == 0x1680 || (0x2000 <= n
        && n <= 0x200A) || n == 0x2028 || n == 0x2029 || n == 0x202F || n == 0x205F || n == 0x3000
}

/// `str::trim`: the result is the text without leading and trailing white
/// space, where white space is what Unicode's property `White_Space` holds.
pub assume_specification[ str::trim ](s: &str) -> (r: &str)
    ensures
        r@ == trimmed(s@),
;

/// What follows the last `/` of a text; the whole text where it holds none.
pub open spec fn last_segment(s: Seq<char>) -> Seq<char>
    decreases s.len(),
{
    if s.len() == 0 {
        s
    } else if s.last() == '/' {
        Seq::<char>::empty()
    } else {
        last_segment(s.drop_last()).push(s.last())
    }
}

/// Takes what follows the last `/` of a text.
pub fn last_segment_of(s: &str) -> (r: String)
    ensures
        r@ == last_segment(s@),
{
    broadcast use vstd::string::group_string_axioms;

    let mut out = String::new();
    for c in it: s.chars()
        invariant
            it.seq() == s@,
            out@ == last_segment(s@.take(it.index() as int)),
    {
        proof {
            let k = it.index() as int;
            assert(s@.take(k + 1).drop_last() =~= s@.take(k));
        }
        if c == '/' {
            out.clear();
        } else {
            out.push(c);
        }
    }
    proof {
        assert(s@.take(s@.len() as int) =~= s@);
    }
    out
}

} // verus!
