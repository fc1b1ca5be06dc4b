//! What holds of the directive processor over every state and every line.

use vstd::prelude::*;
use crate::fill::token_count;
use crate::pieces::{Kind, opening, pieces_of, token_end};
use crate::process::{
    ActionView,
    Answers,
    Outcome,
    StampsView,
    StateView,
    StopErrorView,
    goes_on,
    joined,
    line_end,
    process,
    settled,
    swallowed,
    unescaped,
};
use crate::text::{occurs_in, occurs_at, replaced, replaced_from};

verus! {

/// The state after `lines` have been processed one after the other.
pub open spec fn after(
    s: StateView,
    lines: Seq<Seq<char>>,
    active: Seq<Seq<char>>,
    stamps: StampsView,
    relative_images: bool,
) -> StateView
    decreases lines.len(),
{
    if lines.len() == 0 {
        s
    } else {
        process(
            after(s, lines.drop_last(), active, stamps, relative_images),
            lines.last(),
            active,
            stamps,
            relative_images,
        ).state
    }
}

/// Whether none of `lines`, processed one after the other, asks for anything.
pub open spec fn silent(
    s: StateView,
    lines: Seq<Seq<char>>,
    active: Seq<Seq<char>>,
    stamps: StampsView,
    relative_images: bool,
) -> bool
    decreases lines.len(),
{
    lines.len() == 0 || (silent(s, lines.drop_last(), active, stamps, relative_images) && process(
        after(s, lines.drop_last(), active, stamps, relative_images),
        lines.last(),
        active,
        stamps,
        relative_images,
    ).result == Ok::<ActionView, StopErrorView>(ActionView::Nothing))
}

/// `fragments`, each with a backslash behind it.
pub open spec fn continued(fragments: Seq<Seq<char>>) -> Seq<Seq<char>> {
    fragments.map_values(|f: Seq<char>| f.push('\\'))
}

/// Whether a state can be reached from the first one: at most one flag block
/// is being left out, and no command goes on while one is.
pub open spec fn consistent(s: StateView) -> bool {
    s.flags.len() <= 1 && (s.flags.len() == 1 ==> s.pending.len() == 0)
}

/// A `!stop:` line begins with `!stop:` and with no other directive, and
/// what follows the directive is its name.
pub proof fn lemma_stop_line(name: Seq<char>)
    ensures
        "!stop:"@.is_prefix_of("!stop:"@ + name),
        !"!run:"@.is_prefix_of("!stop:"@ + name),
        !"!inc:"@.is_prefix_of("!stop:"@ + name),
        !"!start:"@.is_prefix_of("!stop:"@ + name),
        ("!stop:"@ + name).skip("!stop:"@.len() as int) == name,
{
    reveal_strlit("!run:");
    reveal_strlit("!inc:");
    reveal_strlit("!start:");
    reveal_strlit("!stop:");
    let stop = "!stop:"@ + name;
    assert(stop[1] == 's' && stop[3] == 'o');
}

/// A `!start:` line begins with `!start:` and with no directive that is
/// looked for before it, and what follows the directive is its name.
pub proof fn lemma_start_line(name: Seq<char>)
    ensures
        "!start:"@.is_prefix_of("!start:"@ + name),
        !"!run:"@.is_prefix_of("!start:"@ + name),
        !"!inc:"@.is_prefix_of("!start:"@ + name),
        ("!start:"@ + name).skip("!start:"@.len() as int) == name,
{
    reveal_strlit("!run:");
    reveal_strlit("!inc:");
    reveal_strlit("!start:");
    let start = "!start:"@ + name;
    assert(start[1] == 's');
}

/// Every line takes a consistent state to a consistent state.
pub proof fn lemma_consistent_is_kept(
    s: StateView,
    line: Seq<char>,
    active: Seq<Seq<char>>,
    stamps: StampsView,
    relative_images: bool,
)
    requires
        consistent(s),
    ensures
        consistent(process(s, line, active, stamps, relative_images).state),
{
    if s.flags.len() == 1 && !swallowed(s, line) {
        lemma_stop_line(s.flags.last());
    }
}

/// A `!start:` line and the `!stop:` line of the same name, read where no
/// block is being left out and no command goes on, ask for nothing and leave
/// the flag stack as it was; between them the name is on the stack unless the
/// flag is active.
pub proof fn lemma_flag_block_balances(
    s: StateView,
    name: Seq<char>,
    active: Seq<Seq<char>>,
    stamps: StampsView,
    relative_images: bool,
)
    requires
        s.flags.len() == 0,
        s.pending.len() == 0,
    ensures
        ({
            let opened = process(s, "!start:"@ + name, active, stamps, relative_images);
            let closed = process(
                opened.state,
                "!stop:"@ + name,
                active,
                stamps,
                relative_images,
            );
            &&& opened.result == Ok::<ActionView, StopErrorView>(ActionView::Nothing)
            &&& opened.state.flags == if active.contains(name) {
                s.flags
            } else {
                seq![name]
            }
            &&& closed.result == Ok::<ActionView, StopErrorView>(ActionView::Nothing)
            &&& closed.state == s
        }),
{
    lemma_start_line(name);
    lemma_stop_line(name);
    let opened = process(s, "!start:"@ + name, active, stamps, relative_images);
    if !active.contains(name) {
        assert(opened.state.flags.drop_last() =~= s.flags);
    }
}

/// A `!stop:` line that is read where no block is being left out and no
/// command goes on, and whose flag is not active, is an error and leaves the
/// state as it was.
pub proof fn lemma_stop_without_start_fails(
    s: StateView,
    name: Seq<char>,
    active: Seq<Seq<char>>,
    stamps: StampsView,
    relative_images: bool,
)
    requires
        s.flags.len() == 0,
        s.pending.len() == 0,
        !active.contains(name),
    ensures
        process(s, "!stop:"@ + name, active, stamps, relative_images) == (Outcome {
            state: s,
            result: Err(StopErrorView { name, open: None }),
        }),
{
    lemma_stop_line(name);
}

/// An error comes only from a `!stop:` line that is read while no block is
/// being left out: a `!stop:` line for another block than the open one is
/// left out like any other line.
pub proof fn lemma_error_is_unmatched_stop(
    s: StateView,
    line: Seq<char>,
    active: Seq<Seq<char>>,
    stamps: StampsView,
    relative_images: bool,
)
    requires
        process(s, line, active, stamps, relative_images).result is Err,
    ensures
        s.flags.len() == 0,
        "!stop:"@.is_prefix_of(line),
        process(s, line, active, stamps, relative_images).result == Err::<
            ActionView,
            StopErrorView,
        >(StopErrorView { name: line.skip("!stop:"@.len() as int), open: None }),
        process(s, line, active, stamps, relative_images).state == s,
{
    if s.flags.len() > 0 {
        lemma_stop_line(s.flags.last());
    }
}

/// After a `!run:` line that ends in a backslash and any number of lines
/// that end in one, the fragments of all of them, without the backslashes, are
/// kept, and none of the lines has asked for anything.
pub proof fn lemma_fragments_are_kept(
    s: StateView,
    head: Seq<char>,
    fragments: Seq<Seq<char>>,
    active: Seq<Seq<char>>,
    stamps: StampsView,
    relative_images: bool,
)
    requires
        s.flags.len() == 0,
        s.pending.len() == 0,
    ensures
        ({
            let lines = seq![("!run:"@ + head).push('\\')] + continued(fragments);
            let kept = after(s, lines, active, stamps, relative_images);
            &&& silent(s, lines, active, stamps, relative_images)
            &&& kept.pending == seq![head] + fragments
            &&& kept.flags == s.flags
            &&& kept.fence == s.fence
        }),
    decreases fragments.len(),
{
    reveal_strlit("!run:");
    let first = ("!run:"@ + head).push('\\');
    let lines = seq![first] + continued(fragments);
    if fragments.len() == 0 {
        assert(first.skip(5) =~= head.push('\\'));
        assert(head.push('\\').drop_last() =~= head);
        assert(silent(s, lines.drop_last(), active, stamps, relative_images));
    } else {
        let fewer = fragments.drop_last();
        lemma_fragments_are_kept(s, head, fewer, active, stamps, relative_images);
        let line = fragments.last().push('\\');
        let before = seq![first] + continued(fewer);
        assert(lines.drop_last() =~= before);
        assert(line.drop_last() =~= fragments.last());
    }
}

/// The fragments of a command, put together: the first with the rest behind
/// it.
pub proof fn lemma_joined_concat(a: Seq<Seq<char>>, b: Seq<Seq<char>>)
    ensures
        joined(a + b) == joined(a) + joined(b),
    decreases b.len(),
{
    if b.len() > 0 {
        lemma_joined_concat(a, b.drop_last());
        assert((a + b).drop_last() =~= a + b.drop_last());
    }
}

/// A `!run:` line that ends in a backslash, then any number of lines that
/// end in one, then a line that does not: the command is run at the last line
/// and not before, it is made of the fragments of all the lines in order,
/// without the backslashes, and nothing is kept behind.
pub proof fn lemma_command_runs_once(
    s: StateView,
    head: Seq<char>,
    fragments: Seq<Seq<char>>,
    last: Seq<char>,
    active: Seq<Seq<char>>,
    stamps: StampsView,
    relative_images: bool,
)
    requires
        s.flags.len() == 0,
        s.pending.len() == 0,
        !goes_on(last),
    ensures
        ({
            let lines = seq![("!run:"@ + head).push('\\')] + continued(fragments);
            let kept = after(s, lines, active, stamps, relative_images);
            let end = process(kept, last, active, stamps, relative_images);
            &&& silent(s, lines, active, stamps, relative_images)
            &&& end.result == Ok::<ActionView, StopErrorView>(
                ActionView::Run(head + joined(fragments) + last),
            )
            &&& end.state.pending == Seq::<Seq<char>>::empty()
            &&& end.state.flags == s.flags
        }),
{
    lemma_fragments_are_kept(s, head, fragments, active, stamps, relative_images);
    let all = (seq![head] + fragments).push(last);
    assert(all =~= seq![head] + (fragments + seq![last]));
    lemma_joined_concat(seq![head], fragments + seq![last]);
    lemma_joined_concat(fragments, seq![last]);
    assert(joined(seq![head]) =~= head) by {
        assert(joined(seq![head].drop_last()) =~= Seq::<char>::empty());
    }
    assert(joined(seq![last]) =~= last) by {
        assert(joined(seq![last].drop_last()) =~= Seq::<char>::empty());
    }
    assert(joined(all) =~= head + joined(fragments) + last);
}

/// Where `p` does not occur in `s` from `i` on, the replacement from `i` on
/// is the rest of `s`.
pub proof fn lemma_nothing_to_replace(s: Seq<char>, p: Seq<char>, r: Seq<char>, i: int)
    requires
        0 <= i <= s.len(),
        p.len() > 0,
        forall|j: int| i <= j ==> !occurs_at(s, p, j),
    ensures
        replaced_from(s, p, r, i) == s.skip(i),
    decreases s.len() - i,
{
    if i < s.len() {
        lemma_nothing_to_replace(s, p, r, i + 1);
    }
}

/// A text in which `p` does not occur is left as it is.
pub proof fn lemma_replaced_without(s: Seq<char>, p: Seq<char>, r: Seq<char>)
    requires
        !occurs_in(s, p),
    ensures
        replaced(s, p, r) == s,
{
    if p.len() > 0 {
        lemma_nothing_to_replace(s, p, r, 0);
    }
}

/// A line that is no block directive, holds no token and no escaped token,
/// and is read where no block is being left out and no command goes on, is
/// written as it is, with its end made ready: with a line break behind it
/// where it does not end in a backslash. Only a second blank line in a row is
/// not written.
pub proof fn lemma_plain_line_is_kept(
    s: StateView,
    line: Seq<char>,
    active: Seq<Seq<char>>,
    stamps: StampsView,
    relative_images: bool,
)
    requires
        s.flags.len() == 0,
        s.pending.len() == 0,
        !"!run:"@.is_prefix_of(line),
        !"!inc:"@.is_prefix_of(line),
        !"!start:"@.is_prefix_of(line),
        !"!stop:"@.is_prefix_of(line),
        !occurs_in(line, "`!elapsed`"@),
        !occurs_in(line, "`!now"@),
        !occurs_in(line, "`!today"@),
        !occurs_in(line, "`\\!elapsed"@),
        !occurs_in(line, "`\\!now"@),
        !occurs_in(line, "`\\!today"@),
        !relative_images || token_count(pieces_of(line, Kind::Image)) == 0,
    ensures
        ({
            let end = process(s, line, active, stamps, relative_images);
            let blank = seq!['\n'];
            &&& end.state == StateView { prev_line: Some(line_end(line)), ..s }
            &&& end.result == Ok::<ActionView, StopErrorView>(
                if s.prev_line == Some(blank) && line_end(line) == blank {
                    ActionView::Nothing
                } else {
                    ActionView::Print(line_end(line))
                },
            )
            &&& !goes_on(line) ==> line_end(line) == line.push('\n')
        }),
{
    lemma_replaced_without(line, "`\\!elapsed"@, "`!elapsed"@);
    lemma_replaced_without(line, "`\\!now"@, "`!now"@);
    lemma_replaced_without(line, "`\\!today"@, "`!today"@);
}

/// An outcome that asks for no tokens is left as it is, whatever the answers:
/// what the laws of this file say of a line that is left out, runs a command,
/// names a file, moves the flag stack or is written holds as well where the
/// tokens of a line are replaced on the way.
pub proof fn lemma_settled_keeps_actions(
    o: Outcome,
    stamps: StampsView,
    relative_images: bool,
    a: Answers,
    done: int,
)
    requires
        !(o.result matches Ok(ActionView::Resolve(_, _))),
    ensures
        settled(o, stamps, relative_images, a, done) == Some(o),
{
}

/// Behind a text `x`, replacing goes on as in what follows it.
pub proof fn lemma_replaced_shift(x: Seq<char>, y: Seq<char>, p: Seq<char>, r: Seq<char>, k: int)
    requires
        p.len() > 0,
        0 <= k <= y.len(),
    ensures
        replaced_from(x + y, p, r, x.len() + k) == replaced_from(y, p, r, k),
    decreases y.len() - k,
{
    let s = x + y;
    let i = x.len() + k;
    if k < y.len() {
        if i + p.len() <= s.len() {
            assert(s.subrange(i, i + p.len()) =~= y.subrange(k, k + p.len()));
        }
        if occurs_at(s, p, i) {
            lemma_replaced_shift(x, y, p, r, k + p.len());
        } else {
            lemma_replaced_shift(x, y, p, r, k + 1);
        }
    }
}

/// Where no occurrence of `p` in `x + y` begins in `x` and ends in `y`, the
/// two are replaced in apart.
pub proof fn lemma_replaced_split(x: Seq<char>, y: Seq<char>, p: Seq<char>, r: Seq<char>, i: int)
    requires
        p.len() > 0,
        0 <= i <= x.len(),
        forall|j: int| 0 <= j < x.len() && occurs_at(x + y, p, j) ==> j + p.len() <= x.len(),
    ensures
        replaced_from(x + y, p, r, i) == replaced_from(x, p, r, i) + replaced_from(y, p, r, 0),
    decreases x.len() - i,
{
    let s = x + y;
    if i == x.len() {
        lemma_replaced_shift(x, y, p, r, 0);
    } else {
        if occurs_at(s, p, i) {
            assert(s.subrange(i, i + p.len()) =~= x.subrange(i, i + p.len()));
            lemma_replaced_split(x, y, p, r, i + p.len());
        } else {
            if occurs_at(x, p, i) {
                assert(s.subrange(i, i + p.len()) =~= x.subrange(i, i + p.len()));
            }
            lemma_replaced_split(x, y, p, r, i + 1);
        }
    }
}

/// Whether `t` begins with a backtick and holds no other.
pub open spec fn ticked(t: Seq<char>) -> bool {
    t.len() > 0 && t[0] == '`' && forall|k: int| 0 < k < t.len() ==> t[k] != '`'
}

/// A token that begins with the only backtick it holds, in the middle of a
/// line, and a pattern of the same shape that is either the token itself or
/// differs from it before either ends: what stands before the token and what
/// stands behind it are replaced in apart, and the token is replaced only
/// where it is the pattern.
pub proof fn lemma_replaced_around(
    a: Seq<char>,
    tok: Seq<char>,
    b: Seq<char>,
    p: Seq<char>,
    r: Seq<char>,
)
    requires
        ticked(tok),
        ticked(p),
        p == tok || exists|k: int| 0 <= k < p.len() && k < tok.len() && p[k] != tok[k],
    ensures
        replaced(a + tok + b, p, r) == replaced(a, p, r) + (if p == tok {
            r
        } else {
            tok
        }) + replaced(b, p, r),
{
    let y = tok + b;
    let s = a + y;
    assert(a + tok + b =~= s);
    assert forall|j: int| 0 <= j < a.len() && occurs_at(s, p, j) implies j + p.len()
        <= a.len() by {
        if j + p.len() > a.len() {
            assert(s.subrange(j, j + p.len())[a.len() - j] == s[a.len() as int]);
        }
    }
    lemma_replaced_split(a, y, p, r, 0);
    assert forall|j: int| 0 <= j < tok.len() && occurs_at(y, p, j) implies j + p.len()
        <= tok.len() by {
        assert(y.subrange(j, j + p.len())[0] == y[j]);
        assert(j == 0);
        if p != tok {
            let k = choose|k: int| 0 <= k < p.len() && k < tok.len() && p[k] != tok[k];
            assert(y.subrange(0, p.len() as int)[k] == y[k]);
        }
    }
    lemma_replaced_split(tok, b, p, r, 0);
    if p == tok {
        assert(tok.subrange(0, tok.len() as int) =~= tok);
        assert(replaced_from(tok, p, r, tok.len() as int) =~= Seq::<char>::empty());
    } else {
        assert forall|j: int| 0 <= j implies !occurs_at(tok, p, j) by {
            if occurs_at(tok, p, j) {
                assert(tok.subrange(j, j + p.len())[0] == tok[j]);
                assert(j == 0);
                let k = choose|k: int| 0 <= k < p.len() && k < tok.len() && p[k] != tok[k];
                assert(tok.subrange(0, p.len() as int)[k] == tok[k]);
            }
        }
        lemma_nothing_to_replace(tok, p, r, 0);
    }
}

/// The escaped token `` `\!now `` comes out as the literal text `` `!now ``,
/// whatever stands before it and behind it, and those are unescaped apart.
pub proof fn lemma_escaped_now_is_literal(before: Seq<char>, behind: Seq<char>)
    ensures
        unescaped(before + "`\\!now"@ + behind) == unescaped(before) + "`!now"@ + unescaped(
            behind,
        ),
{
    reveal_strlit("`\\!elapsed");
    reveal_strlit("`!elapsed");
    reveal_strlit("`\\!now");
    reveal_strlit("`!now");
    reveal_strlit("`\\!today");
    reveal_strlit("`!today");
    let escaped = "`\\!now"@;
    let literal = "`!now"@;
    assert("`\\!elapsed"@[3] != escaped[3]);
    lemma_replaced_around(before, escaped, behind, "`\\!elapsed"@, "`!elapsed"@);
    let a1 = replaced(before, "`\\!elapsed"@, "`!elapsed"@);
    let b1 = replaced(behind, "`\\!elapsed"@, "`!elapsed"@);
    lemma_replaced_around(a1, escaped, b1, escaped, literal);
    let a2 = replaced(a1, escaped, literal);
    let b2 = replaced(b1, escaped, literal);
    assert("`\\!today"@[1] != literal[1]);
    lemma_replaced_around(a2, literal, b2, "`\\!today"@, "`!today"@);
}

/// No time token begins at a backtick that a backslash follows: an escaped
/// token is never taken for a token.
pub proof fn lemma_escaped_begins_no_token(s: Seq<char>, kind: Kind, i: int)
    requires
        kind != Kind::Image,
        0 <= i,
        i + 1 < s.len(),
        s[i + 1] == '\\',
    ensures
        token_end(s, kind, i) is None,
{
    reveal_strlit("`!elapsed`");
    reveal_strlit("`!now:");
    reveal_strlit("`!today:");
    if occurs_at(s, opening(kind), i) {
        assert(s.subrange(i, i + opening(kind).len())[1] == s[i + 1]);
    }
}

} // verus!
