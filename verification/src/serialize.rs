//! How single values are written into a request.

use vstd::prelude::*;

verus! {

/// Whether a character is white space: one of the code points with the
/// Unicode property `White_Space`, which is what `char::is_whitespace`
/// tells.
pub open spec fn is_white_space(c: char) -> bool {
    let code = c as u32;
    ||| 0x0009 <= code <= 0x000D
    ||| code == 0x0020
    ||| code == 0x0085
    ||| code == 0x00A0
    ||| code == 0x1680
    ||| 0x2000 <= code <= 0x200A
    ||| code == 0x2028
    ||| code == 0x2029
    ||| code == 0x202F
    ||| code == 0x205F
    ||| code == 0x3000
}

/// A text without the white space at its start.
pub open spec fn trim_start(text: Seq<char>) -> Seq<char>
    decreases text.len(),
{
    if text.len() > 0 && is_white_space(text[0]) {
        trim_start(text.drop_first())
    } else {
        text
    }
}

/// A text without the white space at its end.
pub open spec fn trim_end(text: Seq<char>) -> Seq<char>
    decreases text.len(),
{
    if text.len() > 0 && is_white_space(text.last()) {
        trim_end(text.drop_last())
    } else {
        text
    }
}

/// A text without the white space at its start and at its end.
pub open spec fn trimmed(text: Seq<char>) -> Seq<char> {
    trim_end(trim_start(text))
}

/// The text that stands for `text` in a request: `text` without the white
/// space around it, or a single blank where nothing else is left. The
/// service refuses an empty text.
pub open spec fn non_empty(text: Seq<char>) -> Seq<char> {
    if trimmed(text).len() == 0 {
        seq![' ']
    } else {
        trimmed(text)
    }
}

/// `str::trim`: the text without its leading and trailing white space.
/// White space is what `char::is_whitespace` tells, the code points with
/// the Unicode property `White_Space`.
#[verifier::external_body]
fn trim(text: &str) -> (res: &str)
    ensures
        res@ == trimmed(text@),
{
    text.trim()
}

/// The text that is sent for `string`: trimmed, and a single blank in
/// place of an empty text.
pub fn as_non_empty_string(string: &str) -> (res: String)
    ensures
        res@ == non_empty(string@),
{
    let string = trim(string);
    if string.unicode_len() == 0 {
        proof {
            reveal_strlit(" ");
        }
        let blank = String::from_str(" ");
        assert(blank@ =~= seq![' ']);
        blank
    } else {
        String::from_str(string)
    }
}

} // verus!
