//! The span grammar: timestamp tokens and image links inside a line, and the
//! cutting of a line into literal text and the tokens to be resolved.

use vstd::prelude::*;
use crate::fence::{run_end, scan_run};
use crate::text::{chars_of, matches_at, occurs_at, slice, string_of};

verus! {

/// The kind of token that a line is cut by.
#[derive(Clone, Copy, Debug, PartialEq, Eq, Structural)]
pub enum Kind {
    /// `` `!elapsed` ``
    Elapsed,
    /// `` `!now:<zone>` `` and `` `!now:<zone>:<pattern>` ``
    Now,
    /// `` `!today:<zone>` `` and `` `!today:<zone>:<pattern>` ``
    Today,
    /// `![alt](url "title")`
    Image,
}

/// One piece of a line: literal text, or a token that stands for text which
/// the caller supplies.
#[derive(Clone, Debug, PartialEq, Eq)]
pub enum Piece {
    /// Text that is kept as it is.
    Text(String),
    /// The time elapsed since the run began.
    Elapsed,
    /// The instant of the run in the default format, in the named time zone.
    Zone(String),
    /// The instant of the run in the named time zone (first) and the given
    /// pattern (second).
    Pattern(String, String),
    /// An image link with its alternative text, its URL and its title (with
    /// the blanks before it and its quotes), whose URL is to be rebased.
    Image(String, String, String),
}

/// The mathematical value of a [`Piece`].
pub ghost enum PieceView {
    Text(Seq<char>),
    Elapsed,
    Zone(Seq<char>),
    Pattern(Seq<char>, Seq<char>),
    Image(Seq<char>, Seq<char>, Seq<char>),
}

impl View for Piece {
    type V = PieceView;

    open spec fn view(&self) -> PieceView {
        match *self {
            Piece::Text(t) => PieceView::Text(t@),
            Piece::Elapsed => PieceView::Elapsed,
            Piece::Zone(z) => PieceView::Zone(z@),
            Piece::Pattern(z, p) => PieceView::Pattern(z@, p@),
            Piece::Image(a, u, t) => PieceView::Image(a@, u@, t@),
        }
    }
}

/// The values of a sequence of pieces.
pub open spec fn piece_views(v: Seq<Piece>) -> Seq<PieceView> {
    v.map_values(|p: Piece| p@)
}

/// The pattern that a date without a pattern of its own is written in.
pub open spec fn date_pattern() -> Seq<char> {
    "%Y-%m-%d"@
}

/// The text that opens a token of `kind`.
pub open spec fn opening(kind: Kind) -> Seq<char> {
    match kind {
        Kind::Elapsed => "`!elapsed`"@,
        Kind::Now => "`!now:"@,
        Kind::Today => "`!today:"@,
        Kind::Image => "!["@,
    }
}

/// The first position at or after `i` that holds `c`, or the length of `s`.
pub open spec fn next_char(s: Seq<char>, c: char, i: int) -> int
    decreases s.len() - i,
{
    if 0 <= i < s.len() && s[i] != c {
        next_char(s, c, i + 1)
    } else {
        i
    }
}

/// The first position at or after `i` that holds a blank or a closing round
/// bracket, or the length of `s`: where a URL that starts at `i` ends at the
/// latest.
pub open spec fn url_stop(s: Seq<char>, i: int) -> int
    decreases s.len() - i,
{
    if 0 <= i < s.len() && s[i] != ' ' && s[i] != ')' {
        url_stop(s, i + 1)
    } else {
        i
    }
}

/// Where an image link ends whose URL ends before position `e`: behind the
/// closing round bracket that stands at `e`, or behind the one that follows a
/// title in double quotes, which blanks may precede.
pub open spec fn link_end(s: Seq<char>, e: int) -> Option<int> {
    if 0 <= e < s.len() && s[e] == ')' {
        Some(e + 1)
    } else {
        let quote = run_end(s, ' ', e);
        let close = next_char(s, '"', quote + 1);
        if 0 <= e && quote < s.len() && s[quote] == '"' && close + 1 < s.len() && s[close + 1]
            == ')' {
            Some(close + 2)
        } else {
            None
        }
    }
}

/// The longest URL that starts at `from`, ends at or before `e`, and is
/// followed by the rest of an image link: the position where it ends.
pub open spec fn url_end(s: Seq<char>, from: int, e: int) -> Option<int>
    decreases e - from,
{
    if e <= from {
        None
    } else if link_end(s, e) is Some {
        Some(e)
    } else {
        url_end(s, from, e - 1)
    }
}

/// The parts of an image link that starts at `i`: where its alternative text
/// ends, where its URL ends, and where the link ends.
pub open spec fn image_at(s: Seq<char>, i: int) -> Option<(int, int, int)> {
    let alt = next_char(s, ']', i + 2);
    let stop = url_stop(s, alt + 2);
    if occurs_at(s, opening(Kind::Image), i) && alt + 1 < s.len() && s[alt + 1] == '(' {
        match url_end(s, alt + 2, stop) {
            Some(e) => Some((alt, e, link_end(s, e)->0)),
            None => None,
        }
    } else {
        None
    }
}

/// Where the token of `kind` that starts at `i` ends, if one starts there.
pub open spec fn token_end(s: Seq<char>, kind: Kind, i: int) -> Option<int> {
    match kind {
        Kind::Elapsed => if occurs_at(s, opening(kind), i) {
            Some(i + opening(kind).len())
        } else {
            None
        },
        Kind::Now | Kind::Today => {
            let close = next_char(s, '`', i + opening(kind).len());
            if occurs_at(s, opening(kind), i) && close < s.len() {
                Some(close + 1)
            } else {
                None
            }
        },
        Kind::Image => match image_at(s, i) {
            Some((_alt, _url, end)) => Some(end),
            None => None,
        },
    }
}

/// The piece that a time token with the argument `arg` stands for: where the
/// argument holds a colon, the zone before the first colon and the pattern
/// behind it; else the zone alone, for `Today` with the date pattern.
pub open spec fn time_piece(kind: Kind, arg: Seq<char>) -> PieceView {
    let colon = next_char(arg, ':', 0);
    if colon < arg.len() {
        PieceView::Pattern(arg.take(colon), arg.skip(colon + 1))
    } else if kind == Kind::Today {
        PieceView::Pattern(arg, date_pattern())
    } else {
        PieceView::Zone(arg)
    }
}

/// The piece that the token of `kind` from `i` to `end` stands for.
pub open spec fn token_piece(s: Seq<char>, kind: Kind, i: int, end: int) -> PieceView {
    match kind {
        Kind::Elapsed => PieceView::Elapsed,
        Kind::Now | Kind::Today => time_piece(kind, s.subrange(i + opening(kind).len(), end - 1)),
        Kind::Image => {
            let (alt, url, _end) = image_at(s, i)->0;
            if "http"@.is_prefix_of(s.subrange(alt + 2, url)) {
                PieceView::Text(s.subrange(i, end))
            } else {
                PieceView::Image(
                    s.subrange(i + 2, alt),
                    s.subrange(alt + 2, url),
                    s.subrange(url, end - 1),
                )
            }
        },
    }
}

/// The first position at or after `i` where a token of `kind` starts, or the
/// length of `s`.
pub open spec fn next_token(s: Seq<char>, kind: Kind, i: int) -> int
    decreases s.len() - i,
{
    if 0 <= i < s.len() && token_end(s, kind, i) is None {
        next_token(s, kind, i + 1)
    } else {
        i
    }
}

/// `s` from position `i` on, cut into pieces: the tokens of `kind`, taken
/// leftmost first and without overlap, and the text between them. An image
/// link whose URL begins with `http` is a piece of text of its own.
pub open spec fn pieces_from(s: Seq<char>, kind: Kind, i: int) -> Seq<PieceView>
    decreases s.len() - i,
{
    if i < 0 || i >= s.len() {
        Seq::empty()
    } else {
        let j = next_token(s, kind, i);
        if i < j <= s.len() {
            seq![PieceView::Text(s.subrange(i, j))] + pieces_from(s, kind, j)
        } else {
            let end = token_end(s, kind, i)->0;
            if i < end <= s.len() {
                seq![token_piece(s, kind, i, end)] + pieces_from(s, kind, end)
            } else {
                Seq::empty()
            }
        }
    }
}

/// `s` cut into the tokens of `kind` and the text between them.
pub open spec fn pieces_of(s: Seq<char>, kind: Kind) -> Seq<PieceView> {
    pieces_from(s, kind, 0)
}

/// The characters that open a token of `kind`.
pub fn opening_chars(kind: Kind) -> (r: Vec<char>)
    ensures
        r@ == opening(kind),
{
    match kind {
        Kind::Elapsed => chars_of("`!elapsed`"),
        Kind::Now => chars_of("`!now:"),
        Kind::Today => chars_of("`!today:"),
        Kind::Image => chars_of("!["),
    }
}

/// The first position at or after `from` that holds `c`.
pub fn find_char(s: &Vec<char>, c: char, from: usize) -> (r: usize)
    ensures
        r == next_char(s@, c, from as int),
        from <= r,
        r <= s.len() || r == from,
{
    let mut i: usize = from;
    while i < s.len() && s[i] != c
        invariant
            from <= i,
            i <= s.len() || i == from,
            next_char(s@, c, i as int) == next_char(s@, c, from as int),
        decreases s.len() - i,
    {
        i += 1;
    }
    i
}

/// The position where a URL that starts at `from` ends at the latest.
pub fn find_url_stop(s: &Vec<char>, from: usize) -> (r: usize)
    ensures
        r == url_stop(s@, from as int),
        from <= r,
        r <= s.len() || r == from,
{
    let mut i: usize = from;
    while i < s.len() && s[i] != ' ' && s[i] != ')'
        invariant
            from <= i,
            i <= s.len() || i == from,
            url_stop(s@, i as int) == url_stop(s@, from as int),
        decreases s.len() - i,
    {
        i += 1;
    }
    i
}

/// Where an image link ends whose URL ends before position `e`.
pub fn end_of_link(s: &Vec<char>, e: usize) -> (r: Option<usize>)
    requires
        e <= s.len(),
    ensures
        match r {
            Some(end) => link_end(s@, e as int) == Some(end as int) && e < end <= s.len(),
            None => link_end(s@, e as int) is None,
        },
{
    if e < s.len() && s[e] == ')' {
        return Some(e + 1);
    }
    let quote = scan_run(s, ' ', e);
    if quote >= s.len() || s[quote] != '"' {
        return None;
    }
    let close = find_char(s, '"', quote + 1);
    if close < s.len() && close + 1 < s.len() && s[close + 1] == ')' {
        Some(close + 2)
    } else {
        None
    }
}

/// The longest URL from `from` that ends at or before `stop` and that the
/// rest of an image link follows: where it ends, and where the link ends.
pub fn end_of_url(s: &Vec<char>, from: usize, stop: usize) -> (r: Option<(usize, usize)>)
    requires
        stop <= s.len(),
    ensures
        match r {
            Some((e, end)) => url_end(s@, from as int, stop as int) == Some(e as int) && link_end(
                s@,
                e as int,
            ) == Some(end as int) && from < e < end <= s.len(),
            None => url_end(s@, from as int, stop as int) is None,
        },
{
    let mut e: usize = stop;
    while e > from
        invariant
            e <= stop <= s.len(),
            url_end(s@, from as int, e as int) == url_end(s@, from as int, stop as int),
        decreases e,
    {
        match end_of_link(s, e) {
            Some(end) => {
                return Some((e, end));
            },
            None => {
                e -= 1;
            },
        }
    }
    None
}

/// The parts of the image link that starts at `i`, if one starts there.
pub fn image_parts(s: &Vec<char>, i: usize) -> (r: Option<(usize, usize, usize)>)
    requires
        i < s.len(),
    ensures
        match r {
            Some((alt, url, end)) => image_at(s@, i as int) == Some(
                (alt as int, url as int, end as int),
            ) && i + 2 <= alt && alt + 2 < url < end <= s.len(),
            None => image_at(s@, i as int) is None,
        },
{
    let open = opening_chars(Kind::Image);
    proof {
        reveal_strlit("![");
    }
    if !matches_at(s, &open, i) {
        return None;
    }
    let alt = find_char(s, ']', i + 2);
    if alt >= s.len() || alt + 1 >= s.len() || s[alt + 1] != '(' {
        return None;
    }
    let stop = find_url_stop(s, alt + 2);
    match end_of_url(s, alt + 2, stop) {
        Some((url, end)) => Some((alt, url, end)),
        None => None,
    }
}

/// Where the token of `kind` that starts at `i` ends, if one starts there.
pub fn end_of_token(s: &Vec<char>, kind: Kind, i: usize) -> (r: Option<usize>)
    requires
        i < s.len(),
    ensures
        match r {
            Some(end) => token_end(s@, kind, i as int) == Some(end as int) && i < end <= s.len(),
            None => token_end(s@, kind, i as int) is None,
        },
{
    match kind {
        Kind::Elapsed => {
            let open = opening_chars(kind);
            proof {
                reveal_strlit("`!elapsed`");
            }
            if matches_at(s, &open, i) {
                Some(i + open.len())
            } else {
                None
            }
        },
        Kind::Now | Kind::Today => {
            let open = opening_chars(kind);
            proof {
                reveal_strlit("`!now:");
                reveal_strlit("`!today:");
            }
            if !matches_at(s, &open, i) {
                return None;
            }
            let close = find_char(s, '`', i + open.len());
            if close < s.len() {
                Some(close + 1)
            } else {
                None
            }
        },
        Kind::Image => match image_parts(s, i) {
            Some((_alt, _url, end)) => Some(end),
            None => None,
        },
    }
}

/// The piece that a time token with the argument `arg` stands for.
pub fn piece_of_time(kind: Kind, arg: &Vec<char>) -> (r: Piece)
    ensures
        r@ == time_piece(kind, arg@),
{
    let colon = find_char(arg, ':', 0);
    if colon < arg.len() {
        let zone = slice(arg, 0, colon);
        let pattern = slice(arg, colon + 1, arg.len());
        Piece::Pattern(string_of(&zone), string_of(&pattern))
    } else {
        match kind {
            Kind::Today => Piece::Pattern(string_of(arg), string_of(&chars_of("%Y-%m-%d"))),
            _ => Piece::Zone(string_of(arg)),
        }
    }
}

/// The piece that the token of `kind` from `i` to `end` stands for.
pub fn piece_of_token(s: &Vec<char>, kind: Kind, i: usize, end: usize) -> (r: Piece)
    requires
        i < s.len(),
        token_end(s@, kind, i as int) == Some(end as int),
        i < end <= s.len(),
    ensures
        r@ == token_piece(s@, kind, i as int, end as int),
{
    match kind {
        Kind::Elapsed => Piece::Elapsed,
        Kind::Now | Kind::Today => {
            let open = opening_chars(kind);
            proof {
                reveal_strlit("`!now:");
                reveal_strlit("`!today:");
            }
            proof {
                lemma_next_char_bounds(s@, '`', i + open.len());
            }
            let arg = slice(s, i + open.len(), end - 1);
            piece_of_time(kind, &arg)
        },
        Kind::Image => match image_parts(s, i) {
            Some((alt, url, _end)) => {
                let target = slice(s, alt + 2, url);
                if matches_at(&target, &chars_of("http"), 0) {
                    Piece::Text(string_of(&slice(s, i, end)))
                } else {
                    Piece::Image(
                        string_of(&slice(s, i + 2, alt)),
                        string_of(&slice(s, alt + 2, url)),
                        string_of(&slice(s, url, end - 1)),
                    )
                }
            },
            None => vstd::pervasive::unreached(),
        },
    }
}

/// The next position that holds `c` is not before the start of the search
/// and, where the search starts inside `s`, not behind the end of `s`.
pub proof fn lemma_next_char_bounds(s: Seq<char>, c: char, i: int)
    ensures
        i <= next_char(s, c, i),
        0 <= i <= s.len() ==> next_char(s, c, i) <= s.len(),
    decreases s.len() - i,
{
    if 0 <= i < s.len() && s[i] != c {
        lemma_next_char_bounds(s, c, i + 1);
    }
}

/// Where no token starts from `t` up to `b`, and one starts at `b` or `b` is
/// the end of `s`, the next token from `t` is at `b`.
pub proof fn lemma_next_token(s: Seq<char>, kind: Kind, t: int, b: int)
    requires
        0 <= t <= b <= s.len(),
        forall|j: int| t <= j < b ==> token_end(s, kind, j) is None,
        b == s.len() || token_end(s, kind, b) is Some,
    ensures
        next_token(s, kind, t) == b,
    decreases b - t,
{
    if t < b {
        lemma_next_token(s, kind, t + 1, b);
    }
}

/// Cuts `s` into the tokens of `kind` and the text between them.
pub fn cut(s: &Vec<char>, kind: Kind) -> (out: Vec<Piece>)
    ensures
        piece_views(out@) == pieces_of(s@, kind),
{
    let mut out: Vec<Piece> = Vec::new();
    let mut t: usize = 0;
    let mut i: usize = 0;
    while i < s.len()
        invariant
            t <= i <= s.len(),
            forall|j: int| t <= j < i ==> token_end(s@, kind, j) is None,
            piece_views(out@) + pieces_from(s@, kind, t as int) == pieces_of(s@, kind),
        decreases s.len() - i,
    {
        match end_of_token(s, kind, i) {
            Some(end) => {
                if t < i {
                    proof {
                        lemma_next_token(s@, kind, t as int, i as int);
                    }
                    let ghost before = out@;
                    let text = Piece::Text(string_of(&slice(s, t, i)));
                    out.push(text);
                    assert(piece_views(out@) + pieces_from(s@, kind, i as int) =~= piece_views(
                        before,
                    ) + pieces_from(s@, kind, t as int));
                }
                let ghost before = out@;
                let piece = piece_of_token(s, kind, i, end);
                out.push(piece);
                t = end;
                i = end;
            },
            None => {
                i += 1;
            },
        }
    }
    if t < s.len() {
        proof {
            lemma_next_token(s@, kind, t as int, s.len() as int);
        }
        let text = Piece::Text(string_of(&slice(s, t, s.len())));
        out.push(text);
        assert(pieces_from(s@, kind, s.len() as int) =~= Seq::empty());
    }
    out
}

} // verus!
