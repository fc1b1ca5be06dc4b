//! The directive processor: one line in, the next state and the action that
//! the line asks for out.

use vstd::prelude::*;
use crate::fence::{fence_after, opt_chars, update_fence};
use crate::clock::time_answers;
use crate::fill::{count_tokens, fill, filled, filled_images, texts, token_count};
use crate::paths::rebase_images;
use crate::pieces::{Kind, Piece, PieceView, cut, piece_views, pieces_of};
use crate::text::{
    append,
    chars_of,
    contains,
    occurs_in,
    replace,
    replaced,
    same,
    slice,
    starts_with,
    string_of,
};

verus! {

/// What a run is configured with.
#[derive(Clone, Debug)]
pub struct Settings {
    /// The flags whose blocks are shown.
    pub active_flags: Vec<String>,
    /// Whether a failing command lets the run go on.
    pub ignore_run_fail: bool,
    /// The width that command output is wrapped to; 0 leaves it as it is.
    pub wrap: usize,
    /// The marker that ends a wrapped line.
    pub continuation: String,
    /// Whether relative image links are rebased on the directory of the run.
    pub relative_images: bool,
}

/// The texts of the instant of the run that are made once, when it begins.
#[derive(Clone, Debug)]
pub struct Stamps {
    /// For `` `!now` ``.
    pub now: String,
    /// For `` `!now:local` ``.
    pub now_local: String,
    /// For `` `!now:x` ``.
    pub now_x: String,
    /// For `` `!today` ``.
    pub today: String,
    /// For `` `!today:local` ``.
    pub today_local: String,
}

/// The mathematical value of [`Stamps`].
pub ghost struct StampsView {
    pub now: Seq<char>,
    pub now_local: Seq<char>,
    pub now_x: Seq<char>,
    pub today: Seq<char>,
    pub today_local: Seq<char>,
}

impl View for Stamps {
    type V = StampsView;

    open spec fn view(&self) -> StampsView {
        StampsView {
            now: self.now@,
            now_local: self.now_local@,
            now_x: self.now_x@,
            today: self.today@,
            today_local: self.today_local@,
        }
    }
}

/// What is carried from line to line, through every file of a run.
#[derive(Clone, Debug, PartialEq, Eq)]
pub struct State {
    /// The marker of the code fence that is open, if one is.
    pub fence: Option<String>,
    /// The names of the flag blocks that are being left out, innermost last.
    pub flags: Vec<String>,
    /// The fragments of a command that goes on over several lines.
    pub pending: Vec<String>,
    /// The text that the last line came to, for dropping repeated blank
    /// lines.
    pub prev_line: Option<String>,
}

/// The mathematical value of a [`State`].
pub ghost struct StateView {
    pub fence: Option<Seq<char>>,
    pub flags: Seq<Seq<char>>,
    pub pending: Seq<Seq<char>>,
    pub prev_line: Option<Seq<char>>,
}

impl View for State {
    type V = StateView;

    open spec fn view(&self) -> StateView {
        StateView {
            fence: opt_chars(self.fence),
            flags: texts(self.flags@),
            pending: texts(self.pending@),
            prev_line: opt_chars(self.prev_line),
        }
    }
}

/// What a line asks its reader to do.
#[derive(Clone, Debug, PartialEq, Eq)]
pub enum Action {
    /// Nothing: the line was left out, kept for a command that goes on, or
    /// only opened or closed a flag block.
    Nothing,
    /// Run this command line.
    Run(String),
    /// Read the file of this path through the same state.
    Include(String),
    /// The line holds tokens of the given kind: put it together again from
    /// these pieces and the texts of their tokens, and hand the new line in
    /// with the kind.
    Resolve(Kind, Vec<Piece>),
    /// Write this text.
    Print(String),
}

/// The mathematical value of an [`Action`].
pub ghost enum ActionView {
    Nothing,
    Run(Seq<char>),
    Include(Seq<char>),
    Resolve(Kind, Seq<PieceView>),
    Print(Seq<char>),
}

impl View for Action {
    type V = ActionView;

    open spec fn view(&self) -> ActionView {
        match *self {
            Action::Nothing => ActionView::Nothing,
            Action::Run(c) => ActionView::Run(c@),
            Action::Include(p) => ActionView::Include(p@),
            Action::Resolve(k, p) => ActionView::Resolve(k, piece_views(p@)),
            Action::Print(t) => ActionView::Print(t@),
        }
    }
}

/// A `!stop:` line that closes no block: its name, and the name of the block
/// that is open, if one is.
#[derive(Clone, Debug, PartialEq, Eq)]
pub struct StopError {
    pub name: String,
    pub open: Option<String>,
}

/// The mathematical value of a [`StopError`].
pub ghost struct StopErrorView {
    pub name: Seq<char>,
    pub open: Option<Seq<char>>,
}

impl View for StopError {
    type V = StopErrorView;

    open spec fn view(&self) -> StopErrorView {
        StopErrorView { name: self.name@, open: opt_chars(self.open) }
    }
}

/// The state after a line and what the line came to.
pub ghost struct Outcome {
    pub state: StateView,
    pub result: Result<ActionView, StopErrorView>,
}

/// The value of what [`step_line`] returns.
pub open spec fn result_view(r: Result<Action, StopError>) -> Result<ActionView, StopErrorView> {
    match r {
        Ok(a) => Ok(a@),
        Err(e) => Err(e@),
    }
}

/// The fragments of a command, put together.
pub open spec fn joined(fragments: Seq<Seq<char>>) -> Seq<char>
    decreases fragments.len(),
{
    if fragments.len() == 0 {
        Seq::empty()
    } else {
        joined(fragments.drop_last()) + fragments.last()
    }
}

/// Whether `line` ends in a backslash, the mark of a line that goes on.
pub open spec fn goes_on(line: Seq<char>) -> bool {
    line.len() > 0 && line.last() == '\\'
}

/// `line`, made ready to be written: `"\\\\"` at its end stands for a
/// backslash and a line break, a single backslash at its end joins it to the
/// next line, and any other line gets its line break.
pub open spec fn line_end(line: Seq<char>) -> Seq<char> {
    if line.len() >= 2 && line[line.len() - 1] == '\\' && line[line.len() - 2] == '\\' {
        line.take(line.len() - 2) + seq!['\\', '\n']
    } else if goes_on(line) {
        line.drop_last()
    } else {
        line.push('\n')
    }
}

/// `line` with the escaped time tokens turned into their literal text.
pub open spec fn unescaped(line: Seq<char>) -> Seq<char> {
    replaced(
        replaced(replaced(line, "`\\!elapsed"@, "`!elapsed"@), "`\\!now"@, "`!now"@),
        "`\\!today"@,
        "`!today"@,
    )
}

/// `line` with the tokens of the instant that have a text made beforehand
/// replaced by it.
pub open spec fn now_fixed(line: Seq<char>, stamps: StampsView) -> Seq<char> {
    replaced(
        replaced(replaced(line, "`!now`"@, stamps.now), "`!now:local`"@, stamps.now_local),
        "`!now:x`"@,
        stamps.now_x,
    )
}

/// `line` with the tokens of the date that have a text made beforehand
/// replaced by it.
pub open spec fn today_fixed(line: Seq<char>, stamps: StampsView) -> Seq<char> {
    replaced(replaced(line, "`!today`"@, stamps.today), "`!today:local`"@, stamps.today_local)
}

/// The place of a kind of token in the order in which a line is searched for
/// them.
pub open spec fn rank(kind: Kind) -> int {
    match kind {
        Kind::Elapsed => 1,
        Kind::Now => 2,
        Kind::Today => 3,
        Kind::Image => 4,
    }
}

/// A plain line, written: its escapes undone and its end made ready; a
/// second blank line in a row is not written.
pub open spec fn emit(s: StateView, line: Seq<char>) -> Outcome {
    let text = line_end(unescaped(line));
    Outcome {
        state: StateView { prev_line: Some(text), ..s },
        result: Ok(
            if s.prev_line == Some(seq!['\n']) && text == seq!['\n'] {
                ActionView::Nothing
            } else {
                ActionView::Print(text)
            },
        ),
    }
}

/// What a line that is no block directive comes to, the kinds of token of a
/// rank up to `done` having been dealt with: the first kind behind them whose
/// mark the line holds has it cut into pieces; a line that holds none is
/// written.
pub open spec fn spans(
    s: StateView,
    line: Seq<char>,
    stamps: StampsView,
    relative_images: bool,
    done: int,
) -> Outcome {
    if done < 1 && occurs_in(line, "`!elapsed`"@) {
        Outcome {
            state: s,
            result: Ok(ActionView::Resolve(Kind::Elapsed, pieces_of(line, Kind::Elapsed))),
        }
    } else if done < 2 && occurs_in(line, "`!now"@) {
        Outcome {
            state: s,
            result: Ok(
                ActionView::Resolve(Kind::Now, pieces_of(now_fixed(line, stamps), Kind::Now)),
            ),
        }
    } else if done < 3 && occurs_in(line, "`!today"@) {
        Outcome {
            state: s,
            result: Ok(
                ActionView::Resolve(Kind::Today, pieces_of(today_fixed(line, stamps), Kind::Today)),
            ),
        }
    } else if done < 4 && relative_images && token_count(pieces_of(line, Kind::Image)) > 0 {
        Outcome {
            state: s,
            result: Ok(ActionView::Resolve(Kind::Image, pieces_of(line, Kind::Image))),
        }
    } else {
        emit(s, line)
    }
}

/// Whether `line` is left out: a flag block is being left out and the line
/// is not the one that closes it.
pub open spec fn swallowed(s: StateView, line: Seq<char>) -> bool {
    s.flags.len() > 0 && line != "!stop:"@ + s.flags.last()
}

/// What a line comes to in the state `s`. The questions are asked in this order,
/// and the first that holds decides: the line is left out; it goes on with a
/// command; it starts a command; it names a file to read; it opens a flag
/// block; it closes one; it holds tokens; it is plain text.
pub open spec fn process(
    s: StateView,
    line: Seq<char>,
    active: Seq<Seq<char>>,
    stamps: StampsView,
    relative_images: bool,
) -> Outcome {
    if swallowed(s, line) {
        Outcome { state: s, result: Ok(ActionView::Nothing) }
    } else if s.pending.len() > 0 {
        if goes_on(line) {
            Outcome {
                state: StateView {
                    pending: s.pending.push(line.drop_last()),
                    prev_line: Some(line),
                    ..s
                },
                result: Ok(ActionView::Nothing),
            }
        } else {
            Outcome {
                state: StateView { pending: Seq::empty(), prev_line: Some(line), ..s },
                result: Ok(ActionView::Run(joined(s.pending.push(line)))),
            }
        }
    } else if "!run:"@.is_prefix_of(line) {
        let command = line.skip("!run:"@.len() as int);
        if goes_on(command) {
            Outcome {
                state: StateView {
                    pending: seq![command.drop_last()],
                    prev_line: Some(line),
                    ..s
                },
                result: Ok(ActionView::Nothing),
            }
        } else {
            Outcome {
                state: StateView { prev_line: Some(line), ..s },
                result: Ok(ActionView::Run(command)),
            }
        }
    } else if "!inc:"@.is_prefix_of(line) {
        Outcome { state: s, result: Ok(ActionView::Include(line.skip("!inc:"@.len() as int))) }
    } else if "!start:"@.is_prefix_of(line) {
        let name = line.skip("!start:"@.len() as int);
        if active.contains(name) {
            Outcome { state: s, result: Ok(ActionView::Nothing) }
        } else {
            Outcome {
                state: StateView { flags: s.flags.push(name), ..s },
                result: Ok(ActionView::Nothing),
            }
        }
    } else if "!stop:"@.is_prefix_of(line) {
        let name = line.skip("!stop:"@.len() as int);
        if active.contains(name) {
            Outcome { state: s, result: Ok(ActionView::Nothing) }
        } else if s.flags.len() == 0 {
            Outcome { state: s, result: Err(StopErrorView { name, open: None }) }
        } else if s.flags.last() != name {
            Outcome { state: s, result: Err(StopErrorView { name, open: Some(s.flags.last()) }) }
        } else {
            Outcome {
                state: StateView { flags: s.flags.drop_last(), ..s },
                result: Ok(ActionView::Nothing),
            }
        }
    } else {
        spans(s, line, stamps, relative_images, 0)
    }
}

/// What a line of a file comes to: the first line of a file given on the
/// command line is passed over where it begins with `#!`; any other line moves
/// the fence and is then processed.
pub open spec fn feed(
    s: StateView,
    line: Seq<char>,
    first: bool,
    top_level: bool,
    active: Seq<Seq<char>>,
    stamps: StampsView,
    relative_images: bool,
) -> Outcome {
    if first && top_level && "#!"@.is_prefix_of(line) {
        Outcome { state: s, result: Ok(ActionView::Nothing) }
    } else {
        process(
            StateView { fence: fence_after(line, s.fence), ..s },
            line,
            active,
            stamps,
            relative_images,
        )
    }
}

impl State {
    /// The state that a run begins in: no fence open, no block left out, no
    /// command begun, nothing written.
    pub fn new() -> (s: State)
        ensures
            s@ == (StateView {
                fence: None,
                flags: Seq::empty(),
                pending: Seq::empty(),
                prev_line: None,
            }),
    {
        let s = State { fence: None, flags: Vec::new(), pending: Vec::new(), prev_line: None };
        assert(texts(s.flags@) =~= Seq::empty());
        s
    }
}

/// Tells whether `name` is one of the flags `active`.
pub fn is_active(active: &Vec<String>, name: &Vec<char>) -> (b: bool)
    ensures
        b == texts(active@).contains(name@),
{
    let wanted = string_of(name);
    let mut i: usize = 0;
    while i < active.len()
        invariant
            i <= active.len(),
            wanted@ == name@,
            forall|j: int| 0 <= j < i ==> texts(active@)[j] != name@,
        decreases active.len() - i,
    {
        if active[i] == wanted {
            assert(texts(active@)[i as int] == name@);
            return true;
        }
        i += 1;
    }
    false
}

/// The command that `fragments` and the closing fragment `last` make.
pub fn join(fragments: &Vec<String>, last: &Vec<char>) -> (r: Vec<char>)
    ensures
        r@ == joined(texts(fragments@).push(last@)),
{
    let ghost all = texts(fragments@);
    let mut out: Vec<char> = Vec::new();
    let mut i: usize = 0;
    while i < fragments.len()
        invariant
            i <= fragments.len(),
            all == texts(fragments@),
            out@ == joined(all.take(i as int)),
        decreases fragments.len() - i,
    {
        let chars = chars_of(fragments[i].as_str());
        append(&mut out, &chars);
        assert(all.take(i + 1).drop_last() =~= all.take(i as int));
        i += 1;
    }
    assert(all.take(i as int) =~= all);
    append(&mut out, last);
    assert(all.push(last@).drop_last() =~= all);
    out
}

/// Makes a line ready to be written.
pub fn finish(line: &Vec<char>) -> (r: Vec<char>)
    ensures
        r@ == line_end(line@),
{
    let n = line.len();
    if n >= 2 && line[n - 1] == '\\' && line[n - 2] == '\\' {
        let mut out = slice(line, 0, n - 2);
        out.push('\\');
        out.push('\n');
        out
    } else if n >= 1 && line[n - 1] == '\\' {
        let out = slice(line, 0, n - 1);
        out
    } else {
        let mut out = slice(line, 0, n);
        out.push('\n');
        out
    }
}

/// Turns the escaped time tokens of a line into their literal text.
pub fn unescape(line: &Vec<char>) -> (r: Vec<char>)
    ensures
        r@ == unescaped(line@),
{
    let a = replace(line, &chars_of("`\\!elapsed"), &chars_of("`!elapsed"));
    let b = replace(&a, &chars_of("`\\!now"), &chars_of("`!now"));
    replace(&b, &chars_of("`\\!today"), &chars_of("`!today"))
}

/// Tells whether `text` is a line break and nothing else.
pub fn is_blank(text: &Vec<char>) -> (b: bool)
    ensures
        b == (text@ == seq!['\n']),
{
    let b = text.len() == 1 && text[0] == '\n';
    assert(b ==> text@ =~= seq!['\n']);
    b
}

/// Writes a plain line.
pub fn emit_line(state: &mut State, line: &Vec<char>) -> (r: Action)
    ensures
        final(state)@ == emit(old(state)@, line@).state,
        Ok::<ActionView, StopErrorView>(r@) == emit(old(state)@, line@).result,
{
    let text = finish(&unescape(line));
    let repeated = is_blank(&text) && match &state.prev_line {
        Some(prev) => is_blank(&chars_of(prev.as_str())),
        None => false,
    };
    state.prev_line = Some(string_of(&text));
    if repeated {
        Action::Nothing
    } else {
        Action::Print(string_of(&text))
    }
}

/// The place of a kind of token in the order of the search.
pub fn rank_of(kind: Kind) -> (r: u8)
    ensures
        r == rank(kind),
{
    match kind {
        Kind::Elapsed => 1,
        Kind::Now => 2,
        Kind::Today => 3,
        Kind::Image => 4,
    }
}

/// Deals with a line that is no block directive, the kinds of token of a
/// rank up to `done` having been dealt with.
pub fn scan_spans(
    state: &mut State,
    line: &Vec<char>,
    settings: &Settings,
    stamps: &Stamps,
    done: u8,
) -> (r: Action)
    ensures
        final(state)@ == spans(
            old(state)@,
            line@,
            stamps@,
            settings.relative_images,
            done as int,
        ).state,
        Ok::<ActionView, StopErrorView>(r@) == spans(
            old(state)@,
            line@,
            stamps@,
            settings.relative_images,
            done as int,
        ).result,
{
    if done < 1 && contains(line, &chars_of("`!elapsed`")) {
        return Action::Resolve(Kind::Elapsed, cut(line, Kind::Elapsed));
    }
    if done < 2 && contains(line, &chars_of("`!now")) {
        let a = replace(line, &chars_of("`!now`"), &chars_of(stamps.now.as_str()));
        let b = replace(&a, &chars_of("`!now:local`"), &chars_of(stamps.now_local.as_str()));
        let c = replace(&b, &chars_of("`!now:x`"), &chars_of(stamps.now_x.as_str()));
        return Action::Resolve(Kind::Now, cut(&c, Kind::Now));
    }
    if done < 3 && contains(line, &chars_of("`!today")) {
        let a = replace(line, &chars_of("`!today`"), &chars_of(stamps.today.as_str()));
        let b = replace(&a, &chars_of("`!today:local`"), &chars_of(stamps.today_local.as_str()));
        return Action::Resolve(Kind::Today, cut(&b, Kind::Today));
    }
    if done < 4 && settings.relative_images {
        let pieces = cut(line, Kind::Image);
        if count_tokens(&pieces) > 0 {
            return Action::Resolve(Kind::Image, pieces);
        }
    }
    emit_line(state, line)
}

/// Reads one line in the state `state`, brings the state forward, and
/// returns what the line asks for; the tokens of a line are left to the
/// caller.
pub fn step_line(state: &mut State, line: &str, settings: &Settings, stamps: &Stamps) -> (r:
    Result<Action, StopError>)
    ensures
        final(state)@ == process(
            old(state)@,
            line@,
            texts(settings.active_flags@),
            stamps@,
            settings.relative_images,
        ).state,
        result_view(r) == process(
            old(state)@,
            line@,
            texts(settings.active_flags@),
            stamps@,
            settings.relative_images,
        ).result,
{
    let chars = chars_of(line);
    let n = chars.len();
    let ghost old_flags = texts(state.flags@);
    let ghost old_pending = texts(state.pending@);
    if state.flags.len() > 0 {
        let mut stop = chars_of("!stop:");
        append(&mut stop, &chars_of(state.flags[state.flags.len() - 1].as_str()));
        if !same(&stop, &chars) {
            return Ok(Action::Nothing);
        }
    }
    proof {
        reveal_strlit("!run:");
        reveal_strlit("!inc:");
        reveal_strlit("!start:");
        reveal_strlit("!stop:");
    }
    if state.pending.len() > 0 {
        if n > 0 && chars[n - 1] == '\\' {
            let fragment = slice(&chars, 0, n - 1);
            state.pending.push(string_of(&fragment));
            state.prev_line = Some(string_of(&chars));
            assert(texts(state.pending@) =~= old_pending.push(line@.drop_last()));
            return Ok(Action::Nothing);
        }
        let command = join(&state.pending, &chars);
        state.pending = Vec::new();
        state.prev_line = Some(string_of(&chars));
        assert(texts(state.pending@) =~= Seq::<Seq<char>>::empty());
        return Ok(Action::Run(string_of(&command)));
    }
    if starts_with(&chars, &chars_of("!run:")) {
        let command = slice(&chars, 5, n);
        let m = command.len();
        if m > 0 && command[m - 1] == '\\' {
            let fragment = slice(&command, 0, m - 1);
            state.pending.push(string_of(&fragment));
            state.prev_line = Some(string_of(&chars));
            assert(texts(state.pending@) =~= seq![command@.drop_last()]);
            return Ok(Action::Nothing);
        }
        state.prev_line = Some(string_of(&chars));
        return Ok(Action::Run(string_of(&command)));
    }
    if starts_with(&chars, &chars_of("!inc:")) {
        let path = slice(&chars, 5, n);
        return Ok(Action::Include(string_of(&path)));
    }
    if starts_with(&chars, &chars_of("!start:")) {
        let name = slice(&chars, 7, n);
        if !is_active(&settings.active_flags, &name) {
            state.flags.push(string_of(&name));
            assert(texts(state.flags@) =~= old_flags.push(name@));
        }
        return Ok(Action::Nothing);
    }
    if starts_with(&chars, &chars_of("!stop:")) {
        let name = slice(&chars, 6, n);
        if is_active(&settings.active_flags, &name) {
            return Ok(Action::Nothing);
        }
        if state.flags.len() == 0 {
            return Err(StopError { name: string_of(&name), open: None });
        }
        let top = state.flags[state.flags.len() - 1].clone();
        if !same(&chars_of(top.as_str()), &name) {
            return Err(StopError { name: string_of(&name), open: Some(top) });
        }
        state.flags.pop();
        assert(texts(state.flags@) =~= old_flags.drop_last());
        return Ok(Action::Nothing);
    }
    Ok(scan_spans(state, &chars, settings, stamps, 0))
}

/// Takes up a line again that was put together from the pieces of kind
/// `done`: it is searched for the kinds of token behind `done`, and written
/// where it holds none.
pub fn step_again(
    state: &mut State,
    line: &str,
    done: Kind,
    settings: &Settings,
    stamps: &Stamps,
) -> (r: Action)
    ensures
        final(state)@ == spans(
            old(state)@,
            line@,
            stamps@,
            settings.relative_images,
            rank(done),
        ).state,
        Ok::<ActionView, StopErrorView>(r@) == spans(
            old(state)@,
            line@,
            stamps@,
            settings.relative_images,
            rank(done),
        ).result,
{
    let chars = chars_of(line);
    scan_spans(state, &chars, settings, stamps, rank_of(done))
}

/// The texts that the tokens of a line were replaced by: those of the
/// instant, those of the date, and the URLs of the image links.
pub ghost struct Answers {
    pub now: Seq<Seq<char>>,
    pub today: Seq<Seq<char>>,
    pub urls: Seq<Option<Seq<char>>>,
}

/// The line that `pieces` of `kind` make with the answers for that kind;
/// `None` where there is not one answer for each token, and for the elapsed
/// time, which the caller tells.
pub open spec fn answered(kind: Kind, pieces: Seq<PieceView>, a: Answers) -> Option<Seq<char>> {
    match kind {
        Kind::Elapsed => None,
        Kind::Now => if a.now.len() == token_count(pieces) {
            Some(filled(pieces, a.now))
        } else {
            None
        },
        Kind::Today => if a.today.len() == token_count(pieces) {
            Some(filled(pieces, a.today))
        } else {
            None
        },
        Kind::Image => if a.urls.len() == token_count(pieces) {
            Some(filled_images(pieces, a.urls))
        } else {
            None
        },
    }
}

/// What an outcome comes to where the tokens of the instant, of the date and
/// the image links are replaced by `a` as they are met: the line is put
/// together and taken up again behind the kind that it was cut by, until it
/// is written. A line that holds the elapsed time is left as it is cut, for
/// the caller to tell the time. `done` is the rank of the kind dealt with
/// last.
pub open spec fn settled(
    o: Outcome,
    stamps: StampsView,
    relative_images: bool,
    a: Answers,
    done: int,
) -> Option<Outcome>
    decreases 4 - done,
{
    match o.result {
        Ok(ActionView::Resolve(kind, pieces)) => if kind == Kind::Elapsed || rank(kind) <= done {
            Some(o)
        } else {
            match answered(kind, pieces, a) {
                Some(line) => settled(
                    spans(o.state, line, stamps, relative_images, rank(kind)),
                    stamps,
                    relative_images,
                    a,
                    rank(kind),
                ),
                None => None,
            }
        },
        _ => Some(o),
    }
}

/// Whether an action leaves nothing to its caller but the elapsed time.
pub open spec fn is_settled(action: ActionView) -> bool {
    match action {
        ActionView::Resolve(kind, _) => kind == Kind::Elapsed,
        _ => true,
    }
}

/// Replaces the tokens that `action` asks for, and those that the line holds
/// then, until the line is written: the tokens of the instant and the date by
/// the texts that dtg_lib makes of `instant`, the image links by their URLs
/// rebased from `dir` on `root_dir`.
pub fn settle(
    state: &mut State,
    action: Action,
    settings: &Settings,
    stamps: &Stamps,
    instant: &dtg_lib::Dtg,
    dir: &str,
    root_dir: &str,
) -> (r: Action)
    ensures
        is_settled(r@),
        exists|a: Answers| #[trigger]
            settled(
                Outcome { state: old(state)@, result: Ok(action@) },
                stamps@,
                settings.relative_images,
                a,
                0,
            ) == Some(Outcome { state: final(state)@, result: Ok(r@) }),
{
    let ghost start = Outcome { state: state@, result: Ok(action@) };
    let ghost ri = settings.relative_images;
    let mut action = action;
    let ghost mut a = Answers { now: Seq::empty(), today: Seq::empty(), urls: Seq::empty() };
    proof {
        reveal_with_fuel(settled, 4);
    }
    if let Action::Resolve(Kind::Now, pieces) = &action {
        let answers = time_answers(instant, pieces);
        match fill(pieces, &answers) {
            Some(line) => {
                proof {
                    a = Answers { now: texts(answers@), ..a };
                }
                action = scan_spans(state, &chars_of(line.as_str()), settings, stamps, 2);
            },
            None => {},
        }
    }
    if let Action::Resolve(Kind::Today, pieces) = &action {
        let answers = time_answers(instant, pieces);
        match fill(pieces, &answers) {
            Some(line) => {
                proof {
                    a = Answers { today: texts(answers@), ..a };
                }
                action = scan_spans(state, &chars_of(line.as_str()), settings, stamps, 3);
            },
            None => {},
        }
    }
    if let Action::Resolve(Kind::Image, pieces) = &action {
        let line = rebase_images(pieces, dir, root_dir);
        proof {
            let urls = choose|urls: Seq<Option<Seq<char>>>|
                urls.len() == token_count(piece_views(pieces@)) && line@ == #[trigger] filled_images(
                    piece_views(pieces@),
                    urls,
                );
            a = Answers { urls, ..a };
        }
        action = scan_spans(state, &chars_of(line.as_str()), settings, stamps, 4);
    }
    assert(settled(start, stamps@, ri, a, 0) == Some(Outcome { state: state@, result: Ok(action@) }));
    action
}

/// Reads one line in the state `state`, brings the state forward, and
/// returns what the line asks for. The tokens of the instant and the date are
/// replaced by the texts that dtg_lib makes of `instant`, the image links by
/// their URLs rebased from `dir` on `root_dir`; a line that holds the elapsed
/// time comes back cut into pieces, for the caller to tell the time and hand
/// the line to [`resume_line`].
pub fn process_line(
    state: &mut State,
    line: &str,
    settings: &Settings,
    stamps: &Stamps,
    instant: &dtg_lib::Dtg,
    dir: &str,
    root_dir: &str,
) -> (r: Result<Action, StopError>)
    ensures
        match r {
            Ok(action) => is_settled(action@),
            Err(_) => true,
        },
        exists|a: Answers| #[trigger]
            settled(
                process(
                    old(state)@,
                    line@,
                    texts(settings.active_flags@),
                    stamps@,
                    settings.relative_images,
                ),
                stamps@,
                settings.relative_images,
                a,
                0,
            ) == Some(Outcome { state: final(state)@, result: result_view(r) }),
{
    let ghost o = process(
        state@,
        line@,
        texts(settings.active_flags@),
        stamps@,
        settings.relative_images,
    );
    match step_line(state, line, settings, stamps) {
        Ok(action) => Ok(settle(state, action, settings, stamps, instant, dir, root_dir)),
        Err(e) => {
            let ghost a = Answers { now: Seq::empty(), today: Seq::empty(), urls: Seq::empty() };
            assert(settled(o, stamps@, settings.relative_images, a, 0) == Some(o));
            Err(e)
        },
    }
}

/// Takes up a line again that was put together from the pieces of kind
/// `done`, and replaces the tokens that it holds then as [`process_line`]
/// does.
pub fn resume_line(
    state: &mut State,
    line: &str,
    done: Kind,
    settings: &Settings,
    stamps: &Stamps,
    instant: &dtg_lib::Dtg,
    dir: &str,
    root_dir: &str,
) -> (r: Action)
    ensures
        is_settled(r@),
        exists|a: Answers| #[trigger]
            settled(
                spans(old(state)@, line@, stamps@, settings.relative_images, rank(done)),
                stamps@,
                settings.relative_images,
                a,
                0,
            ) == Some(Outcome { state: final(state)@, result: Ok(r@) }),
{
    let action = step_again(state, line, done, settings, stamps);
    settle(state, action, settings, stamps, instant, dir, root_dir)
}

/// Reads one line of a file: `first` says that it is the file's first line,
/// `top_level` that the file was given on the command line and not named by
/// a line of another file. The first line of such a file is passed over where
/// it begins with `#!`; any other line moves the fence and is then processed
/// as [`process_line`] does.
pub fn feed_line(
    state: &mut State,
    line: &str,
    first: bool,
    top_level: bool,
    settings: &Settings,
    stamps: &Stamps,
    instant: &dtg_lib::Dtg,
    dir: &str,
    root_dir: &str,
) -> (r: Result<Action, StopError>)
    ensures
        match r {
            Ok(action) => is_settled(action@),
            Err(_) => true,
        },
        exists|a: Answers| #[trigger]
            settled(
                feed(
                    old(state)@,
                    line@,
                    first,
                    top_level,
                    texts(settings.active_flags@),
                    stamps@,
                    settings.relative_images,
                ),
                stamps@,
                settings.relative_images,
                a,
                0,
            ) == Some(Outcome { state: final(state)@, result: result_view(r) }),
{
    if first && top_level && starts_with(&chars_of(line), &chars_of("#!")) {
        let ghost a = Answers { now: Seq::empty(), today: Seq::empty(), urls: Seq::empty() };
        assert(settled(
            Outcome { state: state@, result: Ok(ActionView::Nothing) },
            stamps@,
            settings.relative_images,
            a,
            0,
        ) == Some(Outcome { state: state@, result: Ok(ActionView::Nothing) }));
        return Ok(Action::Nothing);
    }
    let fence = state.fence.take();
    state.fence = update_fence(line, fence);
    process_line(state, line, settings, stamps, instant, dir, root_dir)
}

} // verus!
