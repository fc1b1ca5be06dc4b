//! Putting a line together again from its pieces and the texts that its
//! tokens stand for.

use vstd::prelude::*;
use crate::pieces::{Piece, PieceView, piece_views};
use crate::text::{append, chars_of, string_of};

verus! {

/// The number of tokens among `pieces`: the pieces that are no text.
pub open spec fn token_count(pieces: Seq<PieceView>) -> nat
    decreases pieces.len(),
{
    if pieces.len() == 0 {
        0
    } else if pieces[0] is Text {
        token_count(pieces.skip(1))
    } else {
        1 + token_count(pieces.skip(1))
    }
}

/// The line that `pieces` make where the tokens among them are replaced, in
/// order, by `answers`.
pub open spec fn filled(pieces: Seq<PieceView>, answers: Seq<Seq<char>>) -> Seq<char>
    decreases pieces.len(),
{
    if pieces.len() == 0 {
        Seq::empty()
    } else {
        match pieces[0] {
            PieceView::Text(t) => t + filled(pieces.skip(1), answers),
            _ => if answers.len() > 0 {
                answers[0] + filled(pieces.skip(1), answers.skip(1))
            } else {
                filled(pieces.skip(1), answers)
            },
        }
    }
}

/// The text of an image link with the given alternative text, URL and title.
pub open spec fn image_text(alt: Seq<char>, url: Seq<char>, title: Seq<char>) -> Seq<char> {
    "!["@ + alt + "]("@ + url + title + ")"@
}

/// The answer for one piece of a line cut by image links: the link with the
/// new URL, or with its own where there is no new one.
pub open spec fn image_answer(piece: PieceView, url: Option<Seq<char>>) -> Seq<char> {
    match piece {
        PieceView::Image(alt, old_url, title) => match url {
            Some(new_url) => image_text(alt, new_url, title),
            None => image_text(alt, old_url, title),
        },
        _ => Seq::empty(),
    }
}

/// The line that `pieces` make where the image links among them get, in
/// order, the URLs `urls`; a token without a URL of its own in `urls`, and
/// one that is no image link, is left out.
pub open spec fn filled_images(pieces: Seq<PieceView>, urls: Seq<Option<Seq<char>>>) -> Seq<char>
    decreases pieces.len(),
{
    if pieces.len() == 0 {
        Seq::empty()
    } else {
        match pieces[0] {
            PieceView::Text(t) => t + filled_images(pieces.skip(1), urls),
            _ => if urls.len() > 0 {
                image_answer(pieces[0], urls[0]) + filled_images(pieces.skip(1), urls.skip(1))
            } else {
                filled_images(pieces.skip(1), urls)
            },
        }
    }
}

/// The characters of the strings of `v`.
pub open spec fn texts(v: Seq<String>) -> Seq<Seq<char>> {
    v.map_values(|s: String| s@)
}

/// The characters of the optional strings of `v`.
pub open spec fn opt_texts(v: Seq<Option<String>>) -> Seq<Option<Seq<char>>> {
    v.map_values(
        |s: Option<String>|
            match s {
                Some(t) => Some(t@),
                None => None,
            },
    )
}

/// Counts the tokens among `pieces`.
pub fn count_tokens(pieces: &Vec<Piece>) -> (n: usize)
    ensures
        n == token_count(piece_views(pieces@)),
{
    let ghost all = piece_views(pieces@);
    let mut n: usize = 0;
    let mut i: usize = 0;
    assert(all.skip(0) =~= all);
    while i < pieces.len()
        invariant
            i <= pieces.len(),
            n <= i,
            all == piece_views(pieces@),
            n + token_count(all.skip(i as int)) == token_count(all),
        decreases pieces.len() - i,
    {
        assert(all.skip(i as int).skip(1) =~= all.skip(i + 1));
        match &pieces[i] {
            Piece::Text(_) => {},
            _ => {
                n += 1;
            },
        }
        i += 1;
    }
    n
}

/// Puts a line together from `pieces`, with `answers` in place of the tokens
/// among them, in order. `None` where there is not one answer for each token.
pub fn fill(pieces: &Vec<Piece>, answers: &Vec<String>) -> (r: Option<String>)
    ensures
        match r {
            Some(line) => answers.len() == token_count(piece_views(pieces@)) && line@ == filled(
                piece_views(pieces@),
                texts(answers@),
            ),
            None => answers.len() != token_count(piece_views(pieces@)),
        },
{
    if count_tokens(pieces) != answers.len() {
        return None;
    }
    let ghost all = piece_views(pieces@);
    let ghost given = texts(answers@);
    let mut out: Vec<char> = Vec::new();
    let mut i: usize = 0;
    let mut k: usize = 0;
    assert(all.skip(0) =~= all);
    assert(given.skip(0) =~= given);
    while i < pieces.len()
        invariant
            i <= pieces.len(),
            k <= answers.len(),
            all == piece_views(pieces@),
            given == texts(answers@),
            (answers.len() - k) == token_count(all.skip(i as int)),
            out@ + filled(all.skip(i as int), given.skip(k as int)) == filled(all, given),
        decreases pieces.len() - i,
    {
        assert(all.skip(i as int).skip(1) =~= all.skip(i + 1));
        match &pieces[i] {
            Piece::Text(t) => {
                let chars = chars_of(t.as_str());
                append(&mut out, &chars);
            },
            _ => {
                assert(given.skip(k as int).skip(1) =~= given.skip(k + 1));
                let chars = chars_of(answers[k].as_str());
                append(&mut out, &chars);
                k += 1;
            },
        }
        i += 1;
    }
    Some(string_of(&out))
}

/// The text of an image link with the given alternative text, URL and title.
pub fn link_text(alt: &str, url: &str, title: &str) -> (r: Vec<char>)
    ensures
        r@ == image_text(alt@, url@, title@),
{
    let mut out = chars_of("![");
    append(&mut out, &chars_of(alt));
    append(&mut out, &chars_of("]("));
    append(&mut out, &chars_of(url));
    append(&mut out, &chars_of(title));
    append(&mut out, &chars_of(")"));
    out
}

/// Puts a line together from `pieces`, the image links among them with the
/// URLs `urls`, in order; a link for which `urls` holds `None` keeps its own.
/// `None` where there is not one entry of `urls` for each token.
pub fn fill_images(pieces: &Vec<Piece>, urls: &Vec<Option<String>>) -> (r: Option<String>)
    ensures
        match r {
            Some(line) => urls.len() == token_count(piece_views(pieces@)) && line@
                == filled_images(piece_views(pieces@), opt_texts(urls@)),
            None => urls.len() != token_count(piece_views(pieces@)),
        },
{
    if count_tokens(pieces) != urls.len() {
        return None;
    }
    let ghost all = piece_views(pieces@);
    let ghost given = opt_texts(urls@);
    let mut out: Vec<char> = Vec::new();
    let mut i: usize = 0;
    let mut k: usize = 0;
    assert(all.skip(0) =~= all);
    assert(given.skip(0) =~= given);
    while i < pieces.len()
        invariant
            i <= pieces.len(),
            k <= urls.len(),
            all == piece_views(pieces@),
            given == opt_texts(urls@),
            (urls.len() - k) == token_count(all.skip(i as int)),
            out@ + filled_images(all.skip(i as int), given.skip(k as int)) == filled_images(
                all,
                given,
            ),
        decreases pieces.len() - i,
    {
        assert(all.skip(i as int).skip(1) =~= all.skip(i + 1));
        match &pieces[i] {
            Piece::Text(t) => {
                let chars = chars_of(t.as_str());
                append(&mut out, &chars);
            },
            Piece::Image(alt, url, title) => {
                assert(given.skip(k as int).skip(1) =~= given.skip(k + 1));
                let chars = match &urls[k] {
                    Some(new_url) => link_text(alt.as_str(), new_url.as_str(), title.as_str()),
                    None => link_text(alt.as_str(), url.as_str(), title.as_str()),
                };
                append(&mut out, &chars);
                k += 1;
            },
            _ => {
                assert(given.skip(k as int).skip(1) =~= given.skip(k + 1));
                k += 1;
            },
        }
        i += 1;
    }
    Some(string_of(&out))
}

} // verus!
