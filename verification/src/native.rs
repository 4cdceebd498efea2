//! The style axes of Core Text, carried over to the CSS scale.
//!
//! Core Text reports weight, width and slant as normalised values from -1.0
//! to 1.0. They are taken here in thousandths.

use vstd::prelude::*;
use crate::descriptor::{Properties, Stretch, Style, Weight, UNIT, WEIGHT_THIN, STRETCH_MIN,
    STRETCH_MAX};
use crate::interpolation::{index_value, lemma_index_at_entry, lemma_index_within,
    lemma_lookup_at_entry, lemma_lookup_within, lookup_value, piecewise_linear_find_index,
    piecewise_linear_lookup, strictly_ascending};

verus! {

/// The normalised Core Text weights that stand for the CSS weights 100, 200
/// and so on to 900, each beside its CSS weight.
pub open spec fn font_weight_table() -> Seq<(i32, i32)> {
    seq![
        (-700i32, 100_000i32),
        (-500i32, 200_000i32),
        (-230i32, 300_000i32),
        (0i32, 400_000i32),
        (200i32, 500_000i32),
        (300i32, 600_000i32),
        (400i32, 700_000i32),
        (600i32, 800_000i32),
        (800i32, 900_000i32),
    ]
}

/// The CSS stretches from ultra-condensed to ultra-expanded, each beside its
/// place in the list.
pub open spec fn font_stretch_table() -> Seq<(i32, i32)> {
    seq![
        (0i32, 500i32),
        (1_000i32, 625i32),
        (2_000i32, 750i32),
        (3_000i32, 875i32),
        (4_000i32, 1_000i32),
        (5_000i32, 1_125i32),
        (6_000i32, 1_250i32),
        (7_000i32, 1_500i32),
        (8_000i32, 2_000i32),
    ]
}

/// The table of Core Text weights.
pub fn font_weight_mapping() -> (table: Vec<(i32, i32)>)
    ensures
        table@ == font_weight_table(),
{
    let table = vec![
        (-700i32, 100_000i32),
        (-500i32, 200_000i32),
        (-230i32, 300_000i32),
        (0i32, 400_000i32),
        (200i32, 500_000i32),
        (300i32, 600_000i32),
        (400i32, 700_000i32),
        (600i32, 800_000i32),
        (800i32, 900_000i32),
    ];
    assert(table@ =~= font_weight_table());
    table
}

/// The table of CSS stretches.
pub fn font_stretch_mapping() -> (table: Vec<(i32, i32)>)
    ensures
        table@ == font_stretch_table(),
{
    let table = vec![
        (0i32, 500i32),
        (1_000i32, 625i32),
        (2_000i32, 750i32),
        (3_000i32, 875i32),
        (4_000i32, 1_000i32),
        (5_000i32, 1_125i32),
        (6_000i32, 1_250i32),
        (7_000i32, 1_500i32),
        (8_000i32, 2_000i32),
    ];
    assert(table@ =~= font_stretch_table());
    table
}

/// Both tables rise strictly, so that each entry is looked up exactly.
pub proof fn lemma_tables_ascend()
    ensures
        strictly_ascending(font_weight_table()),
        strictly_ascending(font_stretch_table()),
        font_weight_table().len() == 9,
        font_stretch_table().len() == 9,
{
}

/// The CSS weight for a normalised Core Text weight: the place of the weight
/// in the table, a step of one index being a hundred units of weight, the
/// first index being weight 100.
pub open spec fn css_weight(core_text_weight: i32) -> int {
    index_value(font_weight_table(), core_text_weight as int) * 100 + WEIGHT_THIN
}

/// The CSS stretch for a normalised Core Text width: the width's range from
/// -1.0 to 1.0 is laid over the places of the stretch table, and the stretch
/// is looked up there.
pub open spec fn css_stretch(core_text_width: i32) -> int {
    lookup_value(font_stretch_table(), (core_text_width + UNIT) * 4)
}

/// The weight of each entry of the weight table is converted to the CSS
/// weight that stands beside it.
pub proof fn lemma_weight_at_entry(k: int)
    requires
        0 <= k < font_weight_table().len(),
    ensures
        css_weight(font_weight_table()[k].0) == font_weight_table()[k].1,
{
    lemma_tables_ascend();
    lemma_index_at_entry(font_weight_table(), k);
}

/// The Core Text width that falls on a place of the stretch table is
/// converted to the stretch at that place.
pub proof fn lemma_stretch_at_entry(core_text_width: i32, k: int)
    requires
        0 <= k < font_stretch_table().len(),
        (core_text_width + UNIT) * 4 == font_stretch_table()[k].0,
    ensures
        css_stretch(core_text_width) == font_stretch_table()[k].1,
{
    lemma_tables_ascend();
    lemma_lookup_at_entry(font_stretch_table(), k);
}

/// Converts a normalised Core Text weight to a CSS weight.
pub fn core_text_to_css_font_weight(core_text_weight: i32) -> (r: Weight)
    ensures
        r.0 as int == css_weight(core_text_weight),
        100_000 <= r.0 <= 900_000,
{
    let table = font_weight_mapping();
    proof {
        lemma_index_within(table@, core_text_weight as int);
    }
    let place: u64 = piecewise_linear_find_index(core_text_weight as i64, table.as_slice());
    Weight((place * 100 + WEIGHT_THIN as u64) as u32)
}

/// Converts a normalised Core Text width to a CSS stretch.
pub fn core_text_width_to_css_stretchiness(core_text_width: i32) -> (r: Stretch)
    ensures
        r.0 as int == css_stretch(core_text_width),
        r.in_range(),
{
    let table = font_stretch_mapping();
    proof {
        lemma_lookup_within(
            table@,
            (core_text_width + UNIT) * 4,
            STRETCH_MIN as int,
            STRETCH_MAX as int,
        );
    }
    let stretch: i32 = piecewise_linear_lookup(
        (core_text_width as i64 + UNIT as i64) * 4,
        table.as_slice(),
    );
    Stretch(stretch as u32)
}

/// The style that the traits of a face stand for: italic where the italic
/// trait is set, else oblique where the face slants forward, else upright.
pub open spec fn style_of_traits(is_italic: bool, slant: i32) -> Style {
    if is_italic {
        Style::Italic
    } else if slant > 0 {
        Style::Oblique
    } else {
        Style::Normal
    }
}

/// The CSS properties of a face, from its italic trait and its normalised
/// slant, weight and width.
pub fn properties_from_traits(is_italic: bool, slant: i32, weight: i32, width: i32) -> (r:
    Properties)
    ensures
        r.style == style_of_traits(is_italic, slant),
        r.weight.0 as int == css_weight(weight),
        r.stretch.0 as int == css_stretch(width),
        r.in_range(),
{
    let style = if is_italic {
        Style::Italic
    } else if slant > 0 {
        Style::Oblique
    } else {
        Style::Normal
    };
    Properties {
        style,
        weight: core_text_to_css_font_weight(weight),
        stretch: core_text_width_to_css_stretchiness(width),
    }
}

} // verus!
