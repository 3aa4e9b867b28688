use vstd::prelude::*;

verus! {

/// What `String::from_utf8_lossy` makes of an arbitrary byte sequence: its
/// text, with every invalid sequence replaced. Pinned down only where the
/// input is valid UTF-8 (see `utf8_lossy`); the replacement schedule for
/// invalid input is the decoder's own.
pub uninterp spec fn lossy_of(b: Seq<u8>) -> Seq<char>;

/// What `str::trim` leaves of a string: the text with its surrounding
/// Unicode whitespace removed. Pinned down on ASCII text (see `trim_text`),
/// where the whitespace set is exactly the six ASCII whitespace characters.
pub uninterp spec fn trim_of(s: Seq<char>) -> Seq<char>;

/// The characters of the Unicode `White_Space` set that lie in the ASCII
/// range; no other ASCII character is whitespace.
pub open spec fn ascii_whitespace(c: char) -> bool {
    c == ' ' || c == '\t' || c == '\n' || c == '\r' || c == '\u{b}' || c == '\u{c}'
}

/// Whether a character is plain ASCII.
pub open spec fn is_ascii_char(c: char) -> bool {
    (c as u32) < 128
}

/// Whether every character is plain ASCII.
pub open spec fn ascii_only(s: Seq<char>) -> bool {
    forall|i: int| 0 <= i < s.len() ==> is_ascii_char(#[trigger] s[i])
}

/// `s` without its leading ASCII whitespace.
pub open spec fn trim_front(s: Seq<char>) -> Seq<char>
    decreases s.len(),
{
    if s.len() == 0 {
        s
    } else if ascii_whitespace(s[0]) {
        trim_front(s.drop_first())
    } else {
        s
    }
}

/// `s` without its trailing ASCII whitespace.
pub open spec fn trim_back(s: Seq<char>) -> Seq<char>
    decreases s.len(),
{
    if s.len() == 0 {
        s
    } else if ascii_whitespace(s[s.len() - 1]) {
        trim_back(s.drop_last())
    } else {
        s
    }
}

/// `s` without its surrounding ASCII whitespace.
pub open spec fn ascii_trim(s: Seq<char>) -> Seq<char> {
    trim_back(trim_front(s))
}

/// Relies on `String::from_utf8_lossy`: the bytes decoded as text, with
/// invalid sequences replaced, never rejected; valid UTF-8 comes through
/// intact.
#[verifier::external_body]
pub(crate) fn utf8_lossy(b: &Vec<u8>) -> (r: String)
    ensures
        r@ == lossy_of(b@),
        vstd::utf8::valid_utf8(b@) ==> r@ == vstd::utf8::decode_utf8(b@),
{
    String::from_utf8_lossy(b).into_owned()
}

/// Relies on `str::trim`: surrounding whitespace removed, where whitespace is
/// the Unicode `White_Space` set — within ASCII text, exactly the six ASCII
/// whitespace characters.
#[verifier::external_body]
pub(crate) fn trim_text(s: &String) -> (r: String)
    ensures
        r@ == trim_of(s@),
        ascii_only(s@) ==> r@ == ascii_trim(s@),
{
    s.trim().to_owned()
}

} // verus!
