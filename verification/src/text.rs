use vstd::prelude::*;

use crate::error::Error;

verus! {

/// Whether `c` has the Unicode `White_Space` property, the property that
/// std's `char::is_whitespace` and `str::trim` go by. Unicode's PropList
/// gives it to exactly these code points: U+0009 to U+000D, U+0020, U+0085,
/// U+00A0, U+1680, U+2000 to U+200A, U+2028, U+2029, U+202F, U+205F and U+3000.
pub open spec fn unicode_white_space(c: char) -> bool {
    let code = c as u32;
    ||| 0x09 <= code <= 0x0d
    ||| code == 0x20
    ||| code == 0x85
    ||| code == 0xa0
    ||| code == 0x1680
    ||| 0x2000 <= code <= 0x200a
    ||| code == 0x2028
    ||| code == 0x2029
    ||| code == 0x202f
    ||| code == 0x205f
    ||| code == 0x3000
}

/// Decides whether `c` has the Unicode `White_Space` property, as
/// `char::is_whitespace` does.
fn is_white_space(c: char) -> (white: bool)
    ensures
        white == unicode_white_space(c),
{
    let code = c as u32;
    (0x09 <= code && code <= 0x0d) || code == 0x20 || code == 0x85 || code == 0xa0 || code == 0x1680
        || (0x2000 <= code && code <= 0x200a) || code == 0x2028 || code == 0x2029 || code == 0x202f
        || code == 0x205f || code == 0x3000
}

/// Among ASCII characters, exactly space, tab, line feed, vertical tab, form
/// feed and carriage return are white space; no letter, digit or punctuation
/// mark is.
pub proof fn ascii_white_space_is_space_and_control_breaks(c: char)
    requires
        (c as u32) < 0x80,
    ensures
        unicode_white_space(c) <==> (c == ' ' || c == '\t' || c == '\n' || c == '\x0B' || c
            == '\x0C' || c == '\r'),
        ('0' <= c <= '9' || 'a' <= c <= 'z' || 'A' <= c <= 'Z') ==> !unicode_white_space(c),
{
}

/// A text is blank when every one of its characters is white space; this is
/// exactly when trimming white space from both ends leaves nothing.
pub open spec fn blank(text: Seq<char>) -> bool {
    forall|i: int| 0 <= i < text.len() ==> #[trigger] unicode_white_space(text[i])
}

/// What `new` of a contract text type makes of `value`: it keeps `value`
/// unchanged unless it is blank, and refuses a blank one as empty.
pub open spec fn accepted_text(value: Seq<char>) -> Result<Seq<char>, Error> {
    if blank(value) {
        Err(Error::EmptyValue)
    } else {
        Ok(value)
    }
}

/// Text read back with `as_str` from a value that `new` accepted is accepted
/// again, unchanged: rebuilding from it gives an equal value.
pub proof fn accepted_text_is_accepted_again(value: Seq<char>)
    ensures
        accepted_text(value) matches Ok(text) ==> accepted_text(text) == Ok::<Seq<char>, Error>(text),
{
}

/// A text that holds a character other than white space is accepted, and kept
/// exactly as given, whatever its length.
pub proof fn text_with_visible_character_is_kept(value: Seq<char>, i: int)
    requires
        0 <= i < value.len(),
        !unicode_white_space(value[i]),
    ensures
        accepted_text(value) == Ok::<Seq<char>, Error>(value),
{
}

/// A text whose every character is white space, of whatever length, is
/// refused as empty; so an accepted text always holds a character other than
/// white space.
pub proof fn white_space_text_is_refused(value: Seq<char>)
    requires
        forall|i: int| 0 <= i < value.len() ==> unicode_white_space(#[trigger] value[i]),
    ensures
        accepted_text(value) == Err::<Seq<char>, Error>(Error::EmptyValue),
        forall|kept: Seq<char>| accepted_text(kept) is Ok ==> exists|i: int|
            0 <= i < kept.len() && !unicode_white_space(#[trigger] kept[i]),
{
}

/// A text holding an ASCII letter or digit anywhere is accepted unchanged.
pub proof fn text_with_ascii_letter_or_digit_is_kept(value: Seq<char>, i: int)
    requires
        0 <= i < value.len(),
        '0' <= value[i] <= '9' || 'a' <= value[i] <= 'z' || 'A' <= value[i] <= 'Z',
    ensures
        accepted_text(value) == Ok::<Seq<char>, Error>(value),
{
    ascii_white_space_is_space_and_control_breaks(value[i]);
    text_with_visible_character_is_kept(value, i);
}

/// Decides whether `value` is blank, character by character.
fn is_blank(value: &str) -> (result: bool)
    ensures
        result == blank(value@),
{
    broadcast use vstd::string::group_string_axioms;
    for c in iter: value.chars()
        invariant
            iter.seq() == value@,
            forall|i: int| 0 <= i < iter.index() ==> #[trigger] unicode_white_space(value@[i]),
    {
        if !is_white_space(c) {
            return false;
        }
    }
    true
}

/// A content hash for privacy-safe diagnostics.
/// Built through `new`, it never holds blank text.
#[derive(Clone, Debug, PartialEq, Eq)]
pub struct ContentHash(pub String);

impl ContentHash {
    /// Accepts `value` unless it is blank, and then holds exactly `value`.
    pub fn new(value: &str) -> (result: Result<Self, Error>)
        ensures
            match accepted_text(value@) {
                Ok(kept) => result matches Ok(hash) && hash.0@ == kept,
                Err(e) => result == Err::<Self, Error>(e),
            },
            (exists|i: int| 0 <= i < value@.len() && !unicode_white_space(#[trigger] value@[i]))
                ==> (result matches Ok(kept) && kept.0@ == value@),
            (forall|i: int| 0 <= i < value@.len() ==> unicode_white_space(#[trigger] value@[i]))
                ==> result == Err::<Self, Error>(Error::EmptyValue),
    {
        if is_blank(value) {
            return Err(Error::EmptyValue);
        }
        Ok(ContentHash(value.to_owned()))
    }

    /// The text held.
    pub fn as_str(&self) -> (text: &str)
        ensures
            text@ == self.0@,
    {
        self.0.as_str()
    }
}

/// Redacted diagnostic text, safe to surface.
/// Built through `new`, it never holds blank text.
#[derive(Clone, Debug, PartialEq, Eq)]
pub struct RedactedText(pub String);

impl RedactedText {
    /// Accepts `value` unless it is blank, and then holds exactly `value`.
    pub fn new(value: &str) -> (result: Result<Self, Error>)
        ensures
            match accepted_text(value@) {
                Ok(kept) => result matches Ok(text) && text.0@ == kept,
                Err(e) => result == Err::<Self, Error>(e),
            },
            (exists|i: int| 0 <= i < value@.len() && !unicode_white_space(#[trigger] value@[i]))
                ==> (result matches Ok(kept) && kept.0@ == value@),
            (forall|i: int| 0 <= i < value@.len() ==> unicode_white_space(#[trigger] value@[i]))
                ==> result == Err::<Self, Error>(Error::EmptyValue),
    {
        if is_blank(value) {
            return Err(Error::EmptyValue);
        }
        Ok(RedactedText(value.to_owned()))
    }

    /// The text held.
    pub fn as_str(&self) -> (text: &str)
        ensures
            text@ == self.0@,
    {
        self.0.as_str()
    }
}

/// Why a triage was escalated to the coordinator.
/// Built through `new`, it never holds blank text.
#[derive(Clone, Debug, PartialEq, Eq)]
pub struct EscalationReason(pub String);

impl EscalationReason {
    /// Accepts `value` unless it is blank, and then holds exactly `value`.
    pub fn new(value: &str) -> (result: Result<Self, Error>)
        ensures
            match accepted_text(value@) {
                Ok(kept) => result matches Ok(reason) && reason.0@ == kept,
                Err(e) => result == Err::<Self, Error>(e),
            },
            (exists|i: int| 0 <= i < value@.len() && !unicode_white_space(#[trigger] value@[i]))
                ==> (result matches Ok(kept) && kept.0@ == value@),
            (forall|i: int| 0 <= i < value@.len() ==> unicode_white_space(#[trigger] value@[i]))
                ==> result == Err::<Self, Error>(Error::EmptyValue),
    {
        if is_blank(value) {
            return Err(Error::EmptyValue);
        }
        Ok(EscalationReason(value.to_owned()))
    }

    /// The text held.
    pub fn as_str(&self) -> (text: &str)
        ensures
            text@ == self.0@,
    {
        self.0.as_str()
    }
}

/// Detail accompanying an escalation.
/// Built through `new`, it never holds blank text.
#[derive(Clone, Debug, PartialEq, Eq)]
pub struct EscalationDetail(pub String);

impl EscalationDetail {
    /// Accepts `value` unless it is blank, and then holds exactly `value`.
    pub fn new(value: &str) -> (result: Result<Self, Error>)
        ensures
            match accepted_text(value@) {
                Ok(kept) => result matches Ok(detail) && detail.0@ == kept,
                Err(e) => result == Err::<Self, Error>(e),
            },
            (exists|i: int| 0 <= i < value@.len() && !unicode_white_space(#[trigger] value@[i]))
                ==> (result matches Ok(kept) && kept.0@ == value@),
            (forall|i: int| 0 <= i < value@.len() ==> unicode_white_space(#[trigger] value@[i]))
                ==> result == Err::<Self, Error>(Error::EmptyValue),
    {
        if is_blank(value) {
            return Err(Error::EmptyValue);
        }
        Ok(EscalationDetail(value.to_owned()))
    }

    /// The text held.
    pub fn as_str(&self) -> (text: &str)
        ensures
            text@ == self.0@,
    {
        self.0.as_str()
    }
}

} // verus!
