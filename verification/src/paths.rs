//! Image links that are written relative to the file that holds them,
//! rebased on the directory that the run started in.

use vstd::prelude::*;
use path_slash::PathExt;
use crate::fill::{fill_images, filled_images, token_count};
use crate::pieces::{Piece, piece_views};

verus! {

/// Calls `Path::join`, `Path::strip_prefix` and `PathExt::to_slash` of
/// path_slash: `url` taken relative to `dir`, then relative to `root`, written
/// with forward slashes. `None` where the joined path does not lie under
/// `root`. What the path is depends on the platform's rules for paths, so
/// nothing is claimed of it.
#[verifier::external_body]
pub(crate) fn rebase_url(dir: &str, url: &str, root: &str) -> (r: Option<String>) {
    let joined = std::path::Path::new(dir).join(url);
    let rest = joined.strip_prefix(root).ok()?;
    rest.to_slash().map(|s| s.into_owned())
}

/// Puts a line together from `pieces`, each image link among them with its
/// URL rebased from `dir` on `root`; a link whose URL cannot be rebased keeps
/// it.
pub fn rebase_images(pieces: &Vec<Piece>, dir: &str, root: &str) -> (line: String)
    ensures
        exists|urls: Seq<Option<Seq<char>>>|
            urls.len() == token_count(piece_views(pieces@)) && line@ == #[trigger] filled_images(
                piece_views(pieces@),
                urls,
            ),
{
    let ghost all = piece_views(pieces@);
    let mut urls: Vec<Option<String>> = Vec::new();
    let mut i: usize = 0;
    assert(all.skip(0) =~= all);
    while i < pieces.len()
        invariant
            i <= pieces.len(),
            urls.len() <= i,
            all == piece_views(pieces@),
            urls.len() + token_count(all.skip(i as int)) == token_count(all),
        decreases pieces.len() - i,
    {
        assert(all.skip(i as int).skip(1) =~= all.skip(i + 1));
        match &pieces[i] {
            Piece::Text(_) => {},
            Piece::Image(_, url, _) => {
                urls.push(rebase_url(dir, url.as_str(), root));
            },
            _ => {
                urls.push(None);
            },
        }
        i += 1;
    }
    match fill_images(pieces, &urls) {
        Some(line) => line,
        None => vstd::pervasive::unreached(),
    }
}

} // verus!
