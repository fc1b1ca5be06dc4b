//! Tracking of the code fence that is open while a document is read.

use vstd::prelude::*;
use crate::text::{chars_of, slice, string_of};

verus! {

/// Whether `c` is a white-space character (the Unicode property
/// `White_Space`).
pub open spec fn is_space(c: char) -> bool {
    let n = c as u32;
    ||| 0x09 <= n <= 0x0d
    ||| n == 0x20
    ||| n == 0x85
    ||| n == 0xa0
    ||| n == 0x1680
    ||| 0x2000 <= n <= 0x200a
    ||| n == 0x2028
    ||| n == 0x2029
    ||| n == 0x202f
    ||| n == 0x205f
    ||| n == 0x3000
}

/// The first position at or after `i` whose character is not white space,
/// or the length of `s`.
pub open spec fn space_end(s: Seq<char>, i: int) -> int
    decreases s.len() - i,
{
    if 0 <= i < s.len() && is_space(s[i]) {
        space_end(s, i + 1)
    } else {
        i
    }
}

/// The first position at or after `i` whose character is not `c`, or the
/// length of `s`.
pub open spec fn run_end(s: Seq<char>, c: char, i: int) -> int
    decreases s.len() - i,
{
    if 0 <= i < s.len() && s[i] == c {
        run_end(s, c, i + 1)
    } else {
        i
    }
}

/// The fence marker that `line` opens with: its leading white space and the
/// whole run of three or more backticks, or else of three or more tildes,
/// that follows it. `None` where the line is no fence line.
pub open spec fn fence_marker(line: Seq<char>) -> Option<Seq<char>> {
    let start = space_end(line, 0);
    let ticks = run_end(line, '`', start);
    let tildes = run_end(line, '~', start);
    if ticks - start >= 3 {
        Some(line.take(ticks))
    } else if tildes - start >= 3 {
        Some(line.take(tildes))
    } else {
        None
    }
}

/// The open fence after `line` has been read while `fence` was open: a fence
/// line opens a fence where none is open, closes the open one where its marker
/// is the same, and changes nothing where it differs.
pub open spec fn fence_after(line: Seq<char>, fence: Option<Seq<char>>) -> Option<Seq<char>> {
    match fence_marker(line) {
        Some(marker) => match fence {
            Some(open) => if marker == open {
                None
            } else {
                fence
            },
            None => Some(marker),
        },
        None => fence,
    }
}

/// The characters of an optional string.
pub open spec fn opt_chars(s: Option<String>) -> Option<Seq<char>> {
    match s {
        Some(t) => Some(t@),
        None => None,
    }
}

/// Tells whether `c` is a white-space character.
pub fn space(c: char) -> (b: bool)
    ensures
        b == is_space(c),
{
    let n: u32 = c as u32;
    (0x09 <= n && n <= 0x0d) || n == 0x20 || n == 0x85 || n == 0xa0 || n == 0x1680 || (0x2000 <= n
        && n <= 0x200a) || n == 0x2028 || n == 0x2029 || n == 0x202f || n == 0x205f || n == 0x3000
}

/// The end of the run of `c` that starts at `from`.
pub fn scan_run(s: &Vec<char>, c: char, from: usize) -> (end: usize)
    requires
        from <= s.len(),
    ensures
        end == run_end(s@, c, from as int),
        from <= end <= s.len(),
{
    let mut i: usize = from;
    while i < s.len() && s[i] == c
        invariant
            from <= i <= s.len(),
            run_end(s@, c, i as int) == run_end(s@, c, from as int),
        decreases s.len() - i,
    {
        i += 1;
    }
    i
}

/// The end of the white space that starts at `from`.
pub fn scan_space(s: &Vec<char>, from: usize) -> (end: usize)
    requires
        from <= s.len(),
    ensures
        end == space_end(s@, from as int),
        from <= end <= s.len(),
{
    let mut i: usize = from;
    while i < s.len() && space(s[i])
        invariant
            from <= i <= s.len(),
            space_end(s@, i as int) == space_end(s@, from as int),
        decreases s.len() - i,
    {
        i += 1;
    }
    i
}

/// The fence marker that `line` opens with, if it is a fence line.
pub fn marker_of(line: &Vec<char>) -> (r: Option<Vec<char>>)
    ensures
        match r {
            Some(m) => fence_marker(line@) == Some(m@),
            None => fence_marker(line@) is None,
        },
{
    let start = scan_space(line, 0);
    let ticks = scan_run(line, '`', start);
    if ticks - start >= 3 {
        return Some(slice(line, 0, ticks));
    }
    let tildes = scan_run(line, '~', start);
    if tildes - start >= 3 {
        return Some(slice(line, 0, tildes));
    }
    None
}

/// Reads one line and returns the fence that is open after it.
pub fn update_fence(line: &str, fence: Option<String>) -> (r: Option<String>)
    ensures
        opt_chars(r) == fence_after(line@, opt_chars(fence)),
{
    let chars = chars_of(line);
    match marker_of(&chars) {
        Some(marker) => match fence {
            Some(open) => {
                let same = string_of(&marker) == open;
                if same {
                    None
                } else {
                    Some(open)
                }
            },
            None => Some(string_of(&marker)),
        },
        None => fence,
    }
}

/// A fence line opens its marker where no fence is open and closes it where
/// that same marker is open; a fence line with another marker leaves the open
/// fence as it is.
pub proof fn lemma_fence_toggle(first: Seq<char>, second: Seq<char>, other: Seq<char>)
    requires
        fence_marker(first) is Some,
        fence_marker(second) == fence_marker(first),
        fence_marker(other) is Some,
        fence_marker(other) != fence_marker(first),
    ensures
        fence_after(first, None) == fence_marker(first),
        fence_after(second, fence_after(first, None)) is None,
        fence_after(other, fence_after(first, None)) == fence_marker(first),
{
}

} // verus!
