use crate::data::LearningDirection;
use crate::direction::{direction_of_query, lemma_query_round_trip, stage_href};
use crate::text::{
    begins_with, decimal, holds_from, is_digit, lemma_decimal_round_trip,
    lemma_decimal_writes_its_number, parse_u32, parsed_u32, same_text, starts_with, text_of,
};
use vstd::prelude::*;
use vstd::string::*;

verus! {

/// The view that a URL selects. The views of the vocabulary carry the
/// learning direction of the `dir` query parameter; the others ignore it.
#[derive(Debug, Clone, Copy, PartialEq, Eq, Structural)]
pub enum Route {
    /// `/`
    Home,
    /// `/vocabulary`
    StageIndex { direction: LearningDirection },
    /// `/vocabulary/favorites`
    Favorites { direction: LearningDirection },
    /// `/vocabulary/:stage`
    StageCards { stage: u32, direction: LearningDirection },
    /// `/grammar`
    Grammar,
    /// Any other path: "Page not found".
    NotFound,
}

/// The stage that the `:stage` segment of a path names: the number it
/// writes, or 1 where it writes none or is missing.
pub open spec fn stage_of_param(param: Option<Seq<char>>) -> u32 {
    match param {
        Some(text) => match parsed_u32(text) {
            Some(stage) => stage,
            None => 1,
        },
        None => 1,
    }
}

/// The `:stage` segment of a path of the form `/vocabulary/:stage`: what
/// follows `/vocabulary/`, if that is not empty and holds no slash.
pub open spec fn stage_segment(path: Seq<char>) -> Option<Seq<char>> {
    let prefix = "/vocabulary/"@;
    let rest = path.subrange(prefix.len() as int, path.len() as int);
    if begins_with(path, prefix) && path.len() > prefix.len() && !rest.contains('/') {
        Some(rest)
    } else {
        None
    }
}

/// The view that a path and the value of the `dir` query parameter select.
pub open spec fn route_of(path: Seq<char>, dir: Option<Seq<char>>) -> Route {
    let direction = direction_of_query(dir);
    if path == "/"@ {
        Route::Home
    } else if path == "/vocabulary"@ {
        Route::StageIndex { direction }
    } else if path == "/vocabulary/favorites"@ {
        Route::Favorites { direction }
    } else if path == "/grammar"@ {
        Route::Grammar
    } else {
        match stage_segment(path) {
            Some(segment) => Route::StageCards { stage: stage_of_param(Some(segment)), direction },
            None => Route::NotFound,
        }
    }
}

/// The line that stands in place of a view where the path selects none.
pub fn not_found_notice() -> (text: &'static str)
    ensures
        text@ == "Page not found"@,
{
    "Page not found"
}

/// Reads the stage from the `:stage` segment of a URL. A segment that is
/// no 32-bit unsigned decimal numeral, and a missing one, mean stage 1.
pub fn stage_from_param(param: Option<&str>) -> (stage: u32)
    ensures
        stage == stage_of_param(text_of(param)),
{
    match param {
        Some(text) => match parse_u32(text) {
            Some(stage) => stage,
            None => 1,
        },
        None => 1,
    }
}

/// Selects the view for a URL, given its path and the value of its `dir`
/// query parameter.
pub fn resolve(path: &str, dir: Option<&str>) -> (route: Route)
    ensures
        route == route_of(path@, text_of(dir)),
{
    let direction = LearningDirection::from_query(dir);
    if same_text(path, "/") {
        Route::Home
    } else if same_text(path, "/vocabulary") {
        Route::StageIndex { direction }
    } else if same_text(path, "/vocabulary/favorites") {
        Route::Favorites { direction }
    } else if same_text(path, "/grammar") {
        Route::Grammar
    } else {
        let prefix = "/vocabulary/";
        let start = prefix.unicode_len();
        let end = path.unicode_len();
        if starts_with(path, prefix) && end > start && !holds_from(path, start, '/') {
            let segment = path.substring_char(start, end);
            Route::StageCards { stage: stage_from_param(Some(segment)), direction }
        } else {
            Route::NotFound
        }
    }
}

/// The link of the stage grid leads to the cards of its stage in its
/// direction: the path and the `dir` value of the link select the stage
/// view of exactly that stage and direction.
pub proof fn lemma_stage_link_selects_its_stage(stage: u32, direction: LearningDirection)
    ensures
        stage_href(stage, direction) == "/vocabulary/"@ + decimal(stage as nat) + "?dir="@
            + direction.query_text(),
        route_of("/vocabulary/"@ + decimal(stage as nat), Some(direction.query_text()))
            == (Route::StageCards { stage, direction }),
{
    let prefix = "/vocabulary/"@;
    let numeral = decimal(stage as nat);
    let path = prefix + numeral;
    reveal_strlit("/vocabulary/");
    reveal_strlit("/");
    reveal_strlit("/vocabulary");
    reveal_strlit("/vocabulary/favorites");
    reveal_strlit("/grammar");
    lemma_decimal_writes_its_number(stage as nat);
    lemma_decimal_round_trip(stage);
    lemma_query_round_trip(direction);
    assert(prefix.len() == 12);
    assert(path.len() == 12 + numeral.len());
    assert("/"@.len() == 1);
    assert("/vocabulary"@.len() == 11);
    assert("/grammar"@.len() == 8);
    assert(path[12] == numeral[0]);
    assert(is_digit(numeral[0]));
    assert("/vocabulary/favorites"@[12] == 'f');
    assert(path.subrange(0, 12) =~= prefix);
    let rest = path.subrange(12, path.len() as int);
    assert(rest =~= numeral);
    assert(!rest.contains('/')) by {
        if rest.contains('/') {
            let i = choose|i: int| 0 <= i < rest.len() && rest[i] == '/';
            assert(is_digit(numeral[i]));
        }
    }
}

} // verus!
