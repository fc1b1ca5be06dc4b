//! The texts that the time tokens of a line stand for, made by dtg_lib from
//! the instant of the run.

use vstd::prelude::*;
use crate::fill::token_count;
use crate::pieces::{Piece, piece_views};

verus! {

/// An instant, as dtg_lib holds it.
#[verifier::external_type_specification]
#[verifier::external_body]
pub struct ExDtg(dtg_lib::Dtg);

/// A time zone, as dtg_lib hands it out.
#[verifier::external_type_specification]
#[verifier::external_body]
pub struct ExTimeZone(dtg_lib::TimeZone);

/// Calls `dtg_lib::tz`: the time zone of that name, looked up in the time
/// zone database of the machine, and for `local` the zone that the machine is
/// set to. `None` where there is no such zone. Nothing is claimed of the zone.
#[verifier::external_body]
pub(crate) fn zone_named(name: &str) -> (zone: Option<dtg_lib::TimeZone>) {
    dtg_lib::tz(name).ok()
}

/// Calls `Dtg::default` of dtg_lib: the instant in the default format, in
/// `zone` or, without one, in UTC. Nothing is claimed of the text.
#[verifier::external_body]
pub(crate) fn in_default(instant: &dtg_lib::Dtg, zone: &Option<dtg_lib::TimeZone>) -> (text:
    String) {
    instant.default(zone)
}

/// Calls `Dtg::format` of dtg_lib with a custom format: the instant in the
/// given pattern, in `zone` or, without one, in UTC; what the pattern does not
/// know is written as it stands. Nothing is claimed of the text.
#[verifier::external_body]
pub(crate) fn in_pattern(
    instant: &dtg_lib::Dtg,
    pattern: &str,
    zone: &Option<dtg_lib::TimeZone>,
) -> (text: String) {
    instant.format(&Some(dtg_lib::Format::custom(pattern)), zone)
}

/// The texts of the tokens among `pieces`, in order: for a zone the instant
/// in the default format, for a zone and a pattern the instant in that
/// pattern; a name that is no time zone stands for UTC. A token that is no
/// time of the instant gets the empty text.
pub fn time_answers(instant: &dtg_lib::Dtg, pieces: &Vec<Piece>) -> (answers: Vec<String>)
    ensures
        answers.len() == token_count(piece_views(pieces@)),
{
    let ghost all = piece_views(pieces@);
    let mut answers: Vec<String> = Vec::new();
    let mut i: usize = 0;
    assert(all.skip(0) =~= all);
    while i < pieces.len()
        invariant
            i <= pieces.len(),
            answers.len() <= i,
            all == piece_views(pieces@),
            answers.len() + token_count(all.skip(i as int)) == token_count(all),
        decreases pieces.len() - i,
    {
        assert(all.skip(i as int).skip(1) =~= all.skip(i + 1));
        match &pieces[i] {
            Piece::Text(_) => {},
            Piece::Zone(name) => {
                let zone = zone_named(name.as_str());
                answers.push(in_default(instant, &zone));
            },
            Piece::Pattern(name, pattern) => {
                let zone = zone_named(name.as_str());
                answers.push(in_pattern(instant, pattern.as_str(), &zone));
            },
            _ => {
                answers.push(String::new());
            },
        }
        i += 1;
    }
    answers
}

} // verus!
