//! Style matching: which face of a family best fits the style properties
//! asked for.
//!
//! The three axes are taken in order: style, then stretch, then weight. Each
//! axis ranks the values a face can have by how well they serve the request,
//! 0 being an exact match. The best face is the one whose ranks are least in
//! that order; among faces with the same properties the first listed wins.

use vstd::prelude::*;
use crate::descriptor::{Properties, Stretch, Style, Weight, STRETCH_NORMAL, WEIGHT_CUTOFF,
    WEIGHT_MEDIUM, WEIGHT_NORMAL};
use crate::error::SelectionError;

verus! {

/// What matching reads of a face.
#[derive(Clone, Debug, PartialEq, Eq)]
pub struct MatchFields {
    pub family_name: String,
    pub properties: Properties,
}

/// One more than any distance between two values of an axis.
pub const AXIS_SPAN: u64 = 0x1_0000_0000;

/// The factor that puts the stretch rank above every weight rank.
pub const STRETCH_UNIT: u128 = 0x4_0000_0000;

/// The factor that puts the style rank above every stretch and weight rank.
pub const STYLE_UNIT: u128 = 0x10_0000_0000_0000_0000;

/// How far down the list of fallbacks for the style `query` the style
/// `candidate` stands: the style itself first, then the other slanted style
/// for a slanted request, then what is left. An upright request takes
/// oblique before italic.
pub open spec fn style_rank(query: Style, candidate: Style) -> int {
    match (query, candidate) {
        (Style::Normal, Style::Normal) => 0,
        (Style::Normal, Style::Oblique) => 1,
        (Style::Normal, Style::Italic) => 2,
        (Style::Italic, Style::Italic) => 0,
        (Style::Italic, Style::Oblique) => 1,
        (Style::Italic, Style::Normal) => 2,
        (Style::Oblique, Style::Oblique) => 0,
        (Style::Oblique, Style::Italic) => 1,
        (Style::Oblique, Style::Normal) => 2,
    }
}

/// The distance between two values of an axis.
pub open spec fn distance(a: int, b: int) -> int {
    if a <= b {
        b - a
    } else {
        a - b
    }
}

/// How well the stretch `candidate` serves the stretch `query`. A request at
/// or below normal takes the narrower-or-equal values first, closest first,
/// then the wider ones, closest first; a request above normal takes the
/// wider-or-equal values first, then the narrower ones.
pub open spec fn stretch_rank(query: Stretch, candidate: Stretch) -> int {
    let near_side = if query.0 <= STRETCH_NORMAL {
        candidate.0 <= query.0
    } else {
        candidate.0 >= query.0
    };
    if near_side {
        distance(query.0 as int, candidate.0 as int)
    } else {
        AXIS_SPAN + distance(query.0 as int, candidate.0 as int)
    }
}

/// Whether, of two weights equally far from `query`, the heavier is taken.
/// From 400 up to the cutoff halfway to 500 the heavier one is: at 400 a
/// face of weight 500 goes before one of weight 300. From the cutoff through
/// 500 the lighter one is. Beyond that range the side away from the middle of
/// the scale is taken: the lighter below 400, the heavier above 500.
pub open spec fn prefers_heavier(query: Weight) -> bool {
    (WEIGHT_NORMAL <= query.0 < WEIGHT_CUTOFF) || query.0 > WEIGHT_MEDIUM
}

/// How well the weight `candidate` serves the weight `query`: the nearest
/// weight is the best, and of two equally near the one on the preferred side.
pub open spec fn weight_rank(query: Weight, candidate: Weight) -> int {
    let d = distance(query.0 as int, candidate.0 as int);
    if candidate.0 == query.0 {
        0
    } else if (candidate.0 > query.0) == prefers_heavier(query) {
        2 * d
    } else {
        2 * d + 1
    }
}

/// The three ranks of a candidate as one number, style first, then stretch,
/// then weight: a candidate is better than another exactly when its score is
/// less.
pub open spec fn score(query: Properties, candidate: Properties) -> int {
    style_rank(query.style, candidate.style) * STYLE_UNIT + stretch_rank(
        query.stretch,
        candidate.stretch,
    ) * STRETCH_UNIT + weight_rank(query.weight, candidate.weight)
}

/// `index` is the best match for `query` among `candidates`: no candidate
/// scores less, and every candidate listed before it scores more.
pub open spec fn is_best_match(candidates: Seq<MatchFields>, query: Properties, index: int) -> bool {
    &&& 0 <= index < candidates.len()
    &&& forall|j: int|
        0 <= j < candidates.len() ==> score(query, candidates[index].properties) <= score(
            query,
            #[trigger] candidates[j].properties,
        )
    &&& forall|j: int|
        0 <= j < index ==> score(query, candidates[index].properties) < score(
            query,
            #[trigger] candidates[j].properties,
        )
}

fn style_rank_of(query: Style, candidate: Style) -> (r: u128)
    ensures
        r as int == style_rank(query, candidate),
{
    match (query, candidate) {
        (Style::Normal, Style::Normal) => 0,
        (Style::Normal, Style::Oblique) => 1,
        (Style::Normal, Style::Italic) => 2,
        (Style::Italic, Style::Italic) => 0,
        (Style::Italic, Style::Oblique) => 1,
        (Style::Italic, Style::Normal) => 2,
        (Style::Oblique, Style::Oblique) => 0,
        (Style::Oblique, Style::Italic) => 1,
        (Style::Oblique, Style::Normal) => 2,
    }
}

fn distance_of(a: u32, b: u32) -> (r: u64)
    ensures
        r as int == distance(a as int, b as int),
        r < AXIS_SPAN,
{
    if a <= b {
        (b - a) as u64
    } else {
        (a - b) as u64
    }
}

fn stretch_rank_of(query: Stretch, candidate: Stretch) -> (r: u128)
    ensures
        r as int == stretch_rank(query, candidate),
        r < 2 * AXIS_SPAN,
{
    let near_side = if query.0 <= STRETCH_NORMAL {
        candidate.0 <= query.0
    } else {
        candidate.0 >= query.0
    };
    let d: u64 = distance_of(query.0, candidate.0);
    if near_side {
        d as u128
    } else {
        (AXIS_SPAN + d) as u128
    }
}

fn weight_rank_of(query: Weight, candidate: Weight) -> (r: u128)
    ensures
        r as int == weight_rank(query, candidate),
        r < 2 * AXIS_SPAN,
{
    let d: u64 = distance_of(query.0, candidate.0);
    let heavier = (WEIGHT_NORMAL <= query.0 && query.0 < WEIGHT_CUTOFF) || query.0
        > WEIGHT_MEDIUM;
    if candidate.0 == query.0 {
        0
    } else if (candidate.0 > query.0) == heavier {
        (2 * d) as u128
    } else {
        (2 * d + 1) as u128
    }
}

/// The score of `candidate` for `query`.
pub fn score_of(query: &Properties, candidate: &Properties) -> (r: u128)
    ensures
        r as int == score(*query, *candidate),
{
    let style: u128 = style_rank_of(query.style, candidate.style);
    let stretch: u128 = stretch_rank_of(query.stretch, candidate.stretch);
    let weight: u128 = weight_rank_of(query.weight, candidate.weight);
    style * STYLE_UNIT + stretch * STRETCH_UNIT + weight
}

/// Finds the face that best fits `query`: the index of the best match, or
/// `NotFound` where there is no candidate at all.
pub fn find_best_match(candidates: &[MatchFields], query: &Properties) -> (r: Result<
    usize,
    SelectionError,
>)
    ensures
        candidates@.len() == 0 ==> r == Err::<usize, SelectionError>(SelectionError::NotFound),
        candidates@.len() > 0 ==> r is Ok && is_best_match(candidates@, *query, r->Ok_0 as int),
{
    if candidates.len() == 0 {
        return Err(SelectionError::NotFound);
    }
    let mut best: usize = 0;
    let mut best_score: u128 = score_of(query, &candidates[0].properties);
    let mut index: usize = 1;
    while index < candidates.len()
        invariant
            1 <= index <= candidates@.len(),
            best < index,
            best_score as int == score(*query, candidates@[best as int].properties),
            forall|j: int|
                0 <= j < index ==> best_score as int <= score(
                    *query,
                    #[trigger] candidates@[j].properties,
                ),
            forall|j: int|
                0 <= j < best ==> (best_score as int) < score(
                    *query,
                    #[trigger] candidates@[j].properties,
                ),
        decreases candidates@.len() - index,
    {
        let current: u128 = score_of(query, &candidates[index].properties);
        if current < best_score {
            best = index;
            best_score = current;
        }
        index = index + 1;
    }
    Ok(best)
}

/// `a` serves `query` strictly better than `b`, axis by axis: by style; the
/// styles ranking alike, by stretch; those ranking alike too, by weight.
pub open spec fn outranks(query: Properties, a: Properties, b: Properties) -> bool {
    let (style_a, style_b) = (style_rank(query.style, a.style), style_rank(query.style, b.style));
    let (stretch_a, stretch_b) = (
        stretch_rank(query.stretch, a.stretch),
        stretch_rank(query.stretch, b.stretch),
    );
    let (weight_a, weight_b) = (
        weight_rank(query.weight, a.weight),
        weight_rank(query.weight, b.weight),
    );
    style_a < style_b || (style_a == style_b && (stretch_a < stretch_b || (stretch_a == stretch_b
        && weight_a < weight_b)))
}

/// The ranks of the three axes stay within the room that the score gives
/// them.
pub proof fn lemma_rank_bounds(query: Properties, candidate: Properties)
    ensures
        0 <= style_rank(query.style, candidate.style) <= 2,
        0 <= stretch_rank(query.stretch, candidate.stretch) < 2 * AXIS_SPAN,
        0 <= weight_rank(query.weight, candidate.weight) < 2 * AXIS_SPAN,
{
}

/// The score orders candidates as the axes do in turn: a lower score is a
/// better style, or the same style and a better stretch, or the same style
/// and stretch and a better weight.
pub proof fn lemma_score_orders_by_axis(query: Properties, a: Properties, b: Properties)
    ensures
        score(query, a) < score(query, b) <==> outranks(query, a, b),
{
    lemma_rank_bounds(query, a);
    lemma_rank_bounds(query, b);
}

/// Two candidates score alike only if they have the same properties: each
/// axis ranks different values differently.
pub proof fn lemma_score_tells_properties_apart(query: Properties, a: Properties, b: Properties)
    requires
        score(query, a) == score(query, b),
    ensures
        a == b,
{
    lemma_rank_bounds(query, a);
    lemma_rank_bounds(query, b);
    assert(style_rank(query.style, a.style) == style_rank(query.style, b.style));
    assert(stretch_rank(query.stretch, a.stretch) == stretch_rank(query.stretch, b.stretch));
    assert(weight_rank(query.weight, a.weight) == weight_rank(query.weight, b.weight));
    assert(a.style == b.style);
    assert(a.stretch.0 == b.stretch.0);
    assert(a.weight.0 == b.weight.0);
}

/// There is at most one best match.
pub proof fn lemma_best_match_is_unique(
    candidates: Seq<MatchFields>,
    query: Properties,
    i: int,
    j: int,
)
    requires
        is_best_match(candidates, query, i),
        is_best_match(candidates, query, j),
    ensures
        i == j,
{
    if i < j {
        assert(score(query, candidates[j].properties) < score(query, candidates[i].properties));
    } else if j < i {
        assert(score(query, candidates[i].properties) < score(query, candidates[j].properties));
    }
}

/// No candidate outranks the best match, and those that it does not outrank
/// itself have its properties and are listed after it.
pub proof fn lemma_best_match_outranks(
    candidates: Seq<MatchFields>,
    query: Properties,
    best: int,
    other: int,
)
    requires
        is_best_match(candidates, query, best),
        0 <= other < candidates.len(),
    ensures
        !outranks(query, candidates[other].properties, candidates[best].properties),
        outranks(query, candidates[best].properties, candidates[other].properties) || (
        candidates[other].properties == candidates[best].properties && best <= other),
{
    let (b, o) = (candidates[best].properties, candidates[other].properties);
    lemma_score_orders_by_axis(query, o, b);
    lemma_score_orders_by_axis(query, b, o);
    if score(query, b) == score(query, o) {
        lemma_score_tells_properties_apart(query, b, o);
    }
}

/// The style axis comes first: where a face has the style asked for, the
/// best match has that style, whatever the weights and stretches are.
pub proof fn lemma_style_comes_first(
    candidates: Seq<MatchFields>,
    query: Properties,
    best: int,
    other: int,
)
    requires
        is_best_match(candidates, query, best),
        0 <= other < candidates.len(),
        candidates[other].properties.style == query.style,
    ensures
        candidates[best].properties.style == query.style,
{
    lemma_best_match_outranks(candidates, query, best, other);
}

/// A face with exactly the properties asked for is the best match, or has
/// the same properties as the best match.
pub proof fn lemma_exact_match_wins(
    candidates: Seq<MatchFields>,
    query: Properties,
    best: int,
    other: int,
)
    requires
        is_best_match(candidates, query, best),
        0 <= other < candidates.len(),
        candidates[other].properties == query,
    ensures
        candidates[best].properties == query,
{
    lemma_best_match_outranks(candidates, query, best, other);
}

/// Among faces that agree in style and stretch the nearest weight wins: no
/// such face is nearer in weight to the request than the best match.
pub proof fn lemma_nearest_weight_wins(
    candidates: Seq<MatchFields>,
    query: Properties,
    best: int,
    other: int,
)
    requires
        is_best_match(candidates, query, best),
        0 <= other < candidates.len(),
        candidates[other].properties.style == candidates[best].properties.style,
        candidates[other].properties.stretch == candidates[best].properties.stretch,
    ensures
        distance(query.weight.0 as int, candidates[best].properties.weight.0 as int) <= distance(
            query.weight.0 as int,
            candidates[other].properties.weight.0 as int,
        ),
{
    lemma_best_match_outranks(candidates, query, best, other);
}

/// A request for a stretch at or below normal is served from the narrower
/// side where it can be: if a face of the best match's style is no wider
/// than asked for, neither is the best match, and no such face lies between
/// the best match and the request.
pub proof fn lemma_narrower_stretch_first(
    candidates: Seq<MatchFields>,
    query: Properties,
    best: int,
    other: int,
)
    requires
        is_best_match(candidates, query, best),
        0 <= other < candidates.len(),
        candidates[other].properties.style == candidates[best].properties.style,
        query.stretch.0 <= STRETCH_NORMAL,
        candidates[other].properties.stretch.0 <= query.stretch.0,
    ensures
        candidates[other].properties.stretch.0 <= candidates[best].properties.stretch.0
            <= query.stretch.0,
{
    lemma_best_match_outranks(candidates, query, best, other);
}

/// A request for a stretch above normal is served from the wider side where
/// it can be: if a face of the best match's style is no narrower than asked
/// for, neither is the best match, and no such face lies between the request
/// and the best match.
pub proof fn lemma_wider_stretch_first(
    candidates: Seq<MatchFields>,
    query: Properties,
    best: int,
    other: int,
)
    requires
        is_best_match(candidates, query, best),
        0 <= other < candidates.len(),
        candidates[other].properties.style == candidates[best].properties.style,
        query.stretch.0 > STRETCH_NORMAL,
        candidates[other].properties.stretch.0 >= query.stretch.0,
    ensures
        query.stretch.0 <= candidates[best].properties.stretch.0
            <= candidates[other].properties.stretch.0,
{
    lemma_best_match_outranks(candidates, query, best, other);
}

/// Of two faces equally far from the weight asked for, alike in style and
/// stretch, the one on the preferred side is taken: the best match is the
/// lighter of the two only where the lighter side is preferred. So at weight
/// 400 a face of weight 500 goes before one of weight 300.
pub proof fn lemma_weight_ties_go_by_side(
    candidates: Seq<MatchFields>,
    query: Properties,
    best: int,
    other: int,
)
    requires
        is_best_match(candidates, query, best),
        0 <= other < candidates.len(),
        candidates[other].properties.style == candidates[best].properties.style,
        candidates[other].properties.stretch == candidates[best].properties.stretch,
        candidates[other].properties.weight.0 != candidates[best].properties.weight.0,
        distance(query.weight.0 as int, candidates[other].properties.weight.0 as int) == distance(
            query.weight.0 as int,
            candidates[best].properties.weight.0 as int,
        ),
    ensures
        (candidates[best].properties.weight.0 > query.weight.0) == prefers_heavier(query.weight),
{
    lemma_best_match_outranks(candidates, query, best, other);
}

} // verus!
