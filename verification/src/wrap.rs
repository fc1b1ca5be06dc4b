//! Hard wrapping of captured command output.

use vstd::prelude::*;

verus! {

/// What `termwrap::termwrap` returns for a text, a width greater than 0 and
/// a continuation marker: the text with the marker and a line break put in
/// wherever a line reaches the width.
pub uninterp spec fn wrapped_text(text: Seq<char>, width: nat, continuation: Seq<char>) -> Seq<char>;

/// Whether `c` is a line break or no control character: a character that the
/// wrapper counts as one column.
pub open spec fn is_plain(c: char) -> bool {
    let n = c as u32;
    c == '\n' || !(n <= 0x1f || 0x80 <= n <= 0x9f)
}

/// Whether every character of `text` is plain.
pub open spec fn all_plain(text: Seq<char>) -> bool {
    forall|i: int| 0 <= i < text.len() ==> is_plain(#[trigger] text[i])
}

/// Whether `text` can be handed to the wrapper: the marker is not empty and
/// shorter than the width, and the text is plain.
pub open spec fn wrappable(text: Seq<char>, width: nat, continuation: Seq<char>) -> bool {
    0 < continuation.len() < width && all_plain(text)
}

/// `text` wrapped to `width`; the width 0 leaves it as it is.
pub open spec fn wrapped(text: Seq<char>, width: nat, continuation: Seq<char>) -> Seq<char> {
    if width == 0 {
        text
    } else {
        wrapped_text(text, width, continuation)
    }
}

/// Calls `termwrap::termwrap`. With the width 0 it returns the text as it
/// is. Else it counts the marker's clusters off the width, which must leave
/// at least one column, and walks the text's clusters beside those of the
/// text without its escape sequences and control characters; on plain text the
/// two are the same, and it returns. Its result is named, not stated.
#[verifier::external_body]
pub(crate) fn termwrap_call(text: &str, width: usize, continuation: &str) -> (r: String)
    requires
        width == 0 || wrappable(text@, width as nat, continuation@),
    ensures
        width == 0 ==> r@ == text@,
        width != 0 ==> r@ == wrapped_text(text@, width as nat, continuation@),
{
    termwrap::termwrap(text, width, continuation)
}

/// Tells whether every character of `text` is plain.
pub fn plain(text: &Vec<char>) -> (b: bool)
    ensures
        b == all_plain(text@),
{
    let mut i: usize = 0;
    while i < text.len()
        invariant
            i <= text.len(),
            forall|j: int| 0 <= j < i ==> is_plain(#[trigger] text@[j]),
        decreases text.len() - i,
    {
        let c = text[i];
        let n: u32 = c as u32;
        if c != '\n' && (n <= 0x1f || (0x80 <= n && n <= 0x9f)) {
            return false;
        }
        i += 1;
    }
    true
}

/// Wraps `text` to `width` columns, each wrapped line ending in
/// `continuation`. `None` where the width is not 0 and the text cannot be
/// handed to the wrapper.
pub fn wrap_output(text: &str, width: usize, continuation: &str) -> (r: Option<String>)
    ensures
        match r {
            Some(w) => (width == 0 || wrappable(text@, width as nat, continuation@)) && w@
                == wrapped(text@, width as nat, continuation@),
            None => width != 0 && !wrappable(text@, width as nat, continuation@),
        },
{
    if width == 0 {
        return Some(termwrap_call(text, width, continuation));
    }
    let marker = continuation.unicode_len();
    if marker == 0 || marker >= width {
        return None;
    }
    if !plain(&crate::text::chars_of(text)) {
        return None;
    }
    Some(termwrap_call(text, width, continuation))
}

} // verus!
