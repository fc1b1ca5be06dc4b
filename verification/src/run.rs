//! What a command that was run comes to: the text to write, and the block
//! that reports its failure.

use vstd::prelude::*;
use crate::fence::opt_chars;
use crate::text::{append, chars_of, string_of};

verus! {

/// The ways in which a run ends early.
#[derive(Clone, Copy, Debug, PartialEq, Eq, Structural)]
pub enum Failure {
    /// A file given on the command line cannot be read.
    Input,
    /// A file named by an `!inc:` line cannot be read.
    Included,
    /// The directory cannot be changed.
    Directory,
    /// A command failed.
    Command,
    /// The highlighter is not installed.
    Highlighter,
}

/// The exit status of a run that ends with `failure`.
pub open spec fn status(failure: Failure) -> int {
    match failure {
        Failure::Input => 101,
        Failure::Included => 102,
        Failure::Directory => 103,
        Failure::Command => 104,
        Failure::Highlighter => 105,
    }
}

/// The exit status of a run that ends with `failure`.
pub fn exit_status(failure: Failure) -> (code: i32)
    ensures
        code == status(failure),
{
    match failure {
        Failure::Input => 101,
        Failure::Included => 102,
        Failure::Directory => 103,
        Failure::Command => 104,
        Failure::Highlighter => 105,
    }
}

/// The character of the decimal digit `d`.
pub open spec fn digit(d: int) -> char {
    seq!['0', '1', '2', '3', '4', '5', '6', '7', '8', '9'][d]
}

/// The decimal digits of `n`, without leading zeros.
pub open spec fn digits(n: nat) -> Seq<char>
    decreases n,
{
    if n < 10 {
        seq![digit(n as int)]
    } else {
        digits(n / 10).push(digit(n as int % 10))
    }
}

/// `n` in decimal, with a minus sign where it is negative.
pub open spec fn decimal(n: int) -> Seq<char> {
    if n < 0 {
        seq!['-'] + digits((-n) as nat)
    } else {
        digits(n as nat)
    }
}

/// An exit code as it is written in a report: `Some(..)` around the number,
/// or `None` for a command that a signal ended.
pub open spec fn code_text(code: Option<i32>) -> Seq<char> {
    match code {
        Some(n) => "Some("@ + decimal(n as int) + ")"@,
        None => "None"@,
    }
}

/// Whether a command with this exit code has failed.
pub open spec fn failed(code: Option<i32>) -> bool {
    code != Some(0i32)
}

/// The block that reports the failure of `command`: the marker of the open
/// fence on a line of its own, to close it, then the message.
pub open spec fn failure_block(command: Seq<char>, code: Option<i32>, fence: Option<Seq<char>>) -> Seq<
    char,
> {
    let closing = match fence {
        Some(marker) => marker.push('\n'),
        None => Seq::empty(),
    };
    closing + "\n---\n\nERROR: Command `"@ + command + "` exited with error code `"@ + code_text(
        code,
    ) + "`\n\n"@
}

/// What a command that was run comes to.
#[derive(Clone, Debug, PartialEq, Eq)]
pub struct RunReport {
    /// The text to write: what the command wrote to its error stream, then
    /// what it wrote to its output.
    pub output: String,
    /// The block to write after it where the command failed and failures end
    /// the run; the run then ends with the status of `Failure::Command`.
    pub failure: Option<String>,
}

/// The character of the decimal digit `d`.
pub fn digit_char(d: u32) -> (c: char)
    requires
        d < 10,
    ensures
        c == digit(d as int),
{
    match d {
        0 => '0',
        1 => '1',
        2 => '2',
        3 => '3',
        4 => '4',
        5 => '5',
        6 => '6',
        7 => '7',
        8 => '8',
        _ => '9',
    }
}

/// Appends the decimal digits of `n` to `out`.
pub fn push_digits(out: &mut Vec<char>, n: u32)
    ensures
        final(out)@ == old(out)@ + digits(n as nat),
    decreases n,
{
    if n >= 10 {
        push_digits(out, n / 10);
    }
    out.push(digit_char(n % 10));
}

/// Appends `n` in decimal to `out`.
pub fn push_decimal(out: &mut Vec<char>, n: i32)
    ensures
        final(out)@ == old(out)@ + decimal(n as int),
{
    if n < 0 {
        out.push('-');
        let magnitude: u32 = (-(n as i64)) as u32;
        push_digits(out, magnitude);
    } else {
        push_digits(out, n as u32);
    }
}

/// Builds the report of a command that was run: `stderr` and `stdout` are
/// what it wrote, `code` is its exit code, `fence` is the fence that is open.
pub fn run_report(
    command: &str,
    stderr: &str,
    stdout: &str,
    code: Option<i32>,
    fence: &Option<String>,
    ignore_run_fail: bool,
) -> (r: RunReport)
    ensures
        r.output@ == stderr@ + stdout@,
        opt_chars(r.failure) == if !ignore_run_fail && failed(code) {
            Some(failure_block(command@, code, opt_chars(*fence)))
        } else {
            None
        },
{
    let mut output = chars_of(stderr);
    append(&mut output, &chars_of(stdout));
    let fails = match code {
        Some(n) => n != 0,
        None => true,
    };
    if ignore_run_fail || !fails {
        return RunReport { output: string_of(&output), failure: None };
    }
    let mut block: Vec<char> = Vec::new();
    match fence {
        Some(marker) => {
            append(&mut block, &chars_of(marker.as_str()));
            block.push('\n');
        },
        None => {},
    }
    append(&mut block, &chars_of("\n---\n\nERROR: Command `"));
    append(&mut block, &chars_of(command));
    append(&mut block, &chars_of("` exited with error code `"));
    match code {
        Some(n) => {
            append(&mut block, &chars_of("Some("));
            push_decimal(&mut block, n);
            append(&mut block, &chars_of(")"));
        },
        None => {
            append(&mut block, &chars_of("None"));
        },
    }
    append(&mut block, &chars_of("`\n\n"));
    RunReport { output: string_of(&output), failure: Some(string_of(&block)) }
}

/// The command line of the pager: `bat -p`, with `P` to switch paging off
/// where `readme` and `no_page` are the same, and with the language where one
/// is given and highlighting is not switched off.
pub open spec fn pager_line(readme: bool, no_page: bool, no_lang: bool, lang: Seq<char>) -> Seq<
    char,
> {
    "bat -p"@ + (if readme == no_page {
        "P"@
    } else {
        Seq::empty()
    }) + (if lang.len() == 0 || no_lang {
        Seq::empty()
    } else {
        "l "@ + lang
    })
}

/// The command line that the pager is started with.
pub fn pager_command(readme: bool, no_page: bool, no_lang: bool, lang: &str) -> (r: String)
    ensures
        r@ == pager_line(readme, no_page, no_lang, lang@),
{
    let mut out = chars_of("bat -p");
    if readme == no_page {
        append(&mut out, &chars_of("P"));
    }
    let name = chars_of(lang);
    if !(name.len() == 0 || no_lang) {
        append(&mut out, &chars_of("l "));
        append(&mut out, &name);
    }
    string_of(&out)
}

} // verus!
