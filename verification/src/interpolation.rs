//! Piecewise-linear tables from a native style axis to the CSS scale.
//!
//! A table is a sequence of pairs `(native, css)`, ascending in `native`.
//! All values are in thousandths, and a blend between two entries is rounded
//! down to the next thousandth.

use vstd::prelude::*;
use vstd::arithmetic::div_mod::lemma_fundamental_div_mod_converse;
use crate::descriptor::UNIT;

verus! {

/// The native values of the table never fall from one entry to the next.
pub open spec fn ascending(table: Seq<(i32, i32)>) -> bool {
    forall|i: int, j: int| 0 <= i < j < table.len() ==> table[i].0 <= table[j].0
}

/// The native values of the table rise from each entry to the next.
pub open spec fn strictly_ascending(table: Seq<(i32, i32)>) -> bool {
    forall|i: int, j: int| 0 <= i < j < table.len() ==> table[i].0 < table[j].0
}

/// The first index at or after `from` whose native value reaches `x`, or the
/// table's length where none does.
pub open spec fn first_reaching(table: Seq<(i32, i32)>, x: int, from: int) -> int
    decreases table.len() - from,
{
    if from < 0 || from >= table.len() || table[from].0 >= x {
        from
    } else {
        first_reaching(table, x, from + 1)
    }
}

/// The part `num / den` of `span`, rounded down.
pub open spec fn portion(num: int, den: int, span: int) -> int {
    (num * span) / den
}

/// The value at `x` on the line from `lo` to `hi`, rounded down.
pub open spec fn blend(lo: (i32, i32), hi: (i32, i32), x: int) -> int {
    lo.1 + portion(x - lo.0, hi.0 - lo.0, hi.1 - lo.1)
}

/// The CSS value that the table gives for the native value `x`: the first
/// entry's at or below the first entry, the last entry's above the last, and
/// between two entries the blend of theirs.
pub open spec fn lookup_value(table: Seq<(i32, i32)>, x: int) -> int {
    let upper = first_reaching(table, x, 0);
    if upper == 0 {
        table[0].1 as int
    } else if upper == table.len() {
        table[table.len() - 1].1 as int
    } else {
        blend(table[upper - 1], table[upper], x)
    }
}

/// The place of the native value `x` in the table, in thousandths of an
/// index: 0 at or below the first entry, the last index above the last, and
/// between two entries the lower index plus the part of the way to the upper.
pub open spec fn index_value(table: Seq<(i32, i32)>, x: int) -> int {
    let upper = first_reaching(table, x, 0);
    if upper == 0 {
        0
    } else if upper == table.len() {
        (table.len() - 1) * UNIT
    } else {
        (upper - 1) * UNIT + portion(x - table[upper - 1].0, table[upper].0 - table[upper - 1].0,
            UNIT as int)
    }
}

/// `first_reaching` finds the bracket: every entry before it lies below `x`,
/// and the entry at it, if there is one, reaches `x`.
pub proof fn lemma_first_reaching(table: Seq<(i32, i32)>, x: int, from: int)
    requires
        0 <= from <= table.len(),
    ensures
        from <= first_reaching(table, x, from) <= table.len(),
        first_reaching(table, x, from) < table.len() ==> table[first_reaching(table, x, from)].0
            >= x,
        forall|i: int| from <= i < first_reaching(table, x, from) ==> (#[trigger] table[i]).0 < x,
    decreases table.len() - from,
{
    if from < table.len() && table[from].0 < x {
        lemma_first_reaching(table, x, from + 1);
    }
}

/// In an ascending table the bracket of `x` is the one place `upper` with
/// every entry before it below `x` and the entry at it reaching `x`.
pub proof fn lemma_bracket_is_unique(table: Seq<(i32, i32)>, x: int, upper: int)
    requires
        ascending(table),
        0 <= upper <= table.len(),
        upper > 0 ==> table[upper - 1].0 < x,
        upper < table.len() ==> table[upper].0 >= x,
    ensures
        first_reaching(table, x, 0) == upper,
{
    lemma_first_reaching(table, x, 0);
    let found = first_reaching(table, x, 0);
    if found < upper {
        assert(table[found].0 <= table[upper - 1].0);
    } else if found > upper {
        assert(table[upper].0 < x);
    }
}

/// A portion of a span lies between nothing and the whole span, and is the
/// whole span when the part is the whole.
pub proof fn lemma_portion_bounds(num: int, den: int, span: int)
    requires
        0 <= num <= den,
        den > 0,
    ensures
        span >= 0 ==> 0 <= portion(num, den, span) <= span,
        span <= 0 ==> span <= portion(num, den, span) <= 0,
        num == den ==> portion(num, den, span) == span,
        num == 0 ==> portion(num, den, span) == 0,
{
    let q = portion(num, den, span);
    let r = (num * span) % den;
    assert(num * span == den * q + r && 0 <= r < den) by (nonlinear_arith)
        requires
            den > 0,
            q == (num * span) / den,
            r == (num * span) % den,
    ;
    if span >= 0 {
        assert(0 <= num * span <= den * span) by (nonlinear_arith)
            requires
                0 <= num <= den,
                span >= 0,
        ;
        assert(0 <= q <= span) by (nonlinear_arith)
            requires
                den > 0,
                0 <= r < den,
                0 <= den * q + r <= den * span,
        ;
    }
    if span <= 0 {
        assert(den * span <= num * span <= 0) by (nonlinear_arith)
            requires
                0 <= num <= den,
                span <= 0,
        ;
        assert(span <= q <= 0) by (nonlinear_arith)
            requires
                den > 0,
                0 <= r < den,
                den * span <= den * q + r <= 0,
        ;
    }
    if num == den {
        assert(q == span) by (nonlinear_arith)
            requires
                den > 0,
                0 <= r < den,
                den * span == den * q + r,
        ;
    }
    if num == 0 {
        assert(num * span == 0) by (nonlinear_arith)
            requires
                num == 0,
        ;
    }
}

/// Looking up the native value of an entry gives that entry's CSS value
/// exactly, in a table whose native values rise strictly.
pub proof fn lemma_lookup_at_entry(table: Seq<(i32, i32)>, k: int)
    requires
        strictly_ascending(table),
        0 <= k < table.len(),
    ensures
        lookup_value(table, table[k].0 as int) == table[k].1,
{
    let x = table[k].0 as int;
    if k > 0 {
        assert(table[k - 1].0 < table[k].0);
    }
    lemma_bracket_is_unique(table, x, k);
    if k > 0 {
        lemma_portion_bounds(x - table[k - 1].0, x - table[k - 1].0, table[k].1 - table[k - 1].1);
    }
}

/// Strictly between two neighbouring entries the lookup is the linear blend
/// of the two.
pub proof fn lemma_lookup_between(table: Seq<(i32, i32)>, k: int, x: int)
    requires
        ascending(table),
        0 < k < table.len(),
        table[k - 1].0 < x < table[k].0,
    ensures
        lookup_value(table, x) == table[k - 1].1 + ((x - table[k - 1].0) * (table[k].1 - table[k
            - 1].1)) / (table[k].0 - table[k - 1].0),
{
    lemma_bracket_is_unique(table, x, k);
}

/// Outside the table's range the lookup clamps to the nearest end.
pub proof fn lemma_lookup_clamps(table: Seq<(i32, i32)>, x: int)
    requires
        ascending(table),
        table.len() > 0,
    ensures
        x <= table[0].0 ==> lookup_value(table, x) == table[0].1,
        x > table[table.len() - 1].0 ==> lookup_value(table, x) == table[table.len() - 1].1,
{
    if x <= table[0].0 {
        lemma_bracket_is_unique(table, x, 0);
    }
    if x > table[table.len() - 1].0 {
        lemma_bracket_is_unique(table, x, table.len() as int);
    }
}

/// The lookup never leaves the range of the table's CSS values.
pub proof fn lemma_lookup_within(table: Seq<(i32, i32)>, x: int, low: int, high: int)
    requires
        table.len() > 0,
        forall|i: int| 0 <= i < table.len() ==> low <= (#[trigger] table[i]).1 <= high,
    ensures
        low <= lookup_value(table, x) <= high,
{
    lemma_first_reaching(table, x, 0);
    let upper = first_reaching(table, x, 0);
    if 0 < upper < table.len() {
        let (lo, hi) = (table[upper - 1], table[upper]);
        lemma_portion_bounds(x - lo.0, hi.0 - lo.0, hi.1 - lo.1);
    }
}

/// The place that `index_value` gives lies within the table.
pub proof fn lemma_index_within(table: Seq<(i32, i32)>, x: int)
    requires
        table.len() > 0,
    ensures
        0 <= index_value(table, x) <= (table.len() - 1) * UNIT,
{
    lemma_first_reaching(table, x, 0);
    let upper = first_reaching(table, x, 0);
    if 0 < upper < table.len() {
        let (lo, hi) = (table[upper - 1], table[upper]);
        lemma_portion_bounds(x - lo.0, hi.0 - lo.0, UNIT as int);
        assert((upper - 1) * UNIT + UNIT <= (table.len() - 1) * UNIT) by (nonlinear_arith)
            requires
                upper < table.len(),
        ;
    }
}

/// The place of an entry's native value is that entry's index, in a table
/// whose native values rise strictly.
pub proof fn lemma_index_at_entry(table: Seq<(i32, i32)>, k: int)
    requires
        strictly_ascending(table),
        0 <= k < table.len(),
    ensures
        index_value(table, table[k].0 as int) == k * UNIT,
{
    let x = table[k].0 as int;
    if k > 0 {
        assert(table[k - 1].0 < table[k].0);
    }
    lemma_bracket_is_unique(table, x, k);
    if k > 0 {
        lemma_portion_bounds(x - table[k - 1].0, x - table[k - 1].0, UNIT as int);
    }
}

/// The part `num / den` of `span`, rounded down, for a part of the whole.
fn portion_of(num: u32, den: u32, span: i64) -> (r: i64)
    requires
        0 <= num <= den,
        den > 0,
        -0x1_0000_0000 < span < 0x1_0000_0000,
    ensures
        r as int == portion(num as int, den as int, span as int),
{
    proof {
        lemma_portion_bounds(num as int, den as int, span as int);
    }
    if span >= 0 {
        assert(0 <= num as int * span as int <= 0xFFFF_FFFF * 0x1_0000_0000) by (nonlinear_arith)
            requires
                0 <= num <= 0xFFFF_FFFF,
                0 <= span < 0x1_0000_0000,
        ;
        let wide: u128 = (num as u128) * (span as u128);
        let quotient: u128 = wide / (den as u128);
        assert(quotient <= wide) by (nonlinear_arith)
            requires
                den >= 1,
                quotient == wide / (den as u128),
        ;
        quotient as i64
    } else {
        assert(0 <= num as int * (-span) as int <= 0xFFFF_FFFF * 0x1_0000_0000)
            by (nonlinear_arith)
            requires
                0 <= num <= 0xFFFF_FFFF,
                0 < -span < 0x1_0000_0000,
        ;
        let wide: u128 = (num as u128) * ((-span) as u128);
        let raised: u128 = wide + (den as u128 - 1);
        let quotient: u128 = raised / (den as u128);
        let rest: u128 = raised % (den as u128);
        proof {
            let (n, d, e) = (num as int, den as int, span as int);
            assert(raised == d * quotient + rest) by (nonlinear_arith)
                requires
                    d > 0,
                    quotient == raised as int / d,
                    rest == raised as int % d,
            ;
            assert(n * e == (-(quotient as int)) * d + (d - 1 - rest)) by (nonlinear_arith)
                requires
                    raised == d * quotient + rest,
                    raised == n * (-e) + (d - 1),
            ;
            lemma_fundamental_div_mod_converse(n * e, d, -(quotient as int), d - 1 - rest);
        }
        -(quotient as i64)
    }
}

/// The bracket of `x`: the first index whose native value reaches `x`.
fn find_bracket(x: i64, table: &[(i32, i32)]) -> (upper: usize)
    ensures
        upper as int == first_reaching(table@, x as int, 0),
        upper <= table@.len(),
        upper < table@.len() ==> table@[upper as int].0 >= x,
        upper > 0 ==> table@[upper - 1].0 < x,
{
    let mut upper: usize = 0;
    while upper < table.len() && (table[upper].0 as i64) < x
        invariant
            upper <= table@.len(),
            first_reaching(table@, x as int, 0) == first_reaching(table@, x as int, upper as int),
            upper > 0 ==> table@[upper - 1].0 < x,
        decreases table@.len() - upper,
    {
        upper = upper + 1;
    }
    upper
}

/// Looks `x` up in the table: the CSS value of the entry that `x` hits, the
/// linear blend between the two entries that it falls between, and the
/// nearest end's value outside the table's range.
pub fn piecewise_linear_lookup(x: i64, table: &[(i32, i32)]) -> (r: i32)
    requires
        table@.len() > 0,
    ensures
        r as int == lookup_value(table@, x as int),
{
    let upper: usize = find_bracket(x, table);
    if upper == 0 {
        table[0].1
    } else if upper == table.len() {
        table[table.len() - 1].1
    } else {
        let (x0, y0) = table[upper - 1];
        let (x1, y1) = table[upper];
        let num: u32 = (x - x0 as i64) as u32;
        let den: u32 = (x1 as i64 - x0 as i64) as u32;
        let span: i64 = y1 as i64 - y0 as i64;
        proof {
            lemma_portion_bounds(num as int, den as int, span as int);
        }
        let part: i64 = portion_of(num, den, span);
        (y0 as i64 + part) as i32
    }
}

/// Finds the place of `x` in the table, in thousandths of an index: the
/// index of the entry that `x` hits, a fractional index between the two
/// entries that it falls between, and the first or last index outside the
/// table's range.
pub fn piecewise_linear_find_index(x: i64, table: &[(i32, i32)]) -> (r: u64)
    requires
        table@.len() > 0,
        table@.len() * UNIT <= u64::MAX,
    ensures
        r as int == index_value(table@, x as int),
{
    let upper: usize = find_bracket(x, table);
    proof {
        lemma_index_within(table@, x as int);
        assert((upper - 1) * UNIT <= (table@.len() - 1) * UNIT) by (nonlinear_arith)
            requires
                upper <= table@.len(),
        ;
    }
    if upper == 0 {
        0
    } else if upper == table.len() {
        (table.len() as u64 - 1) * (UNIT as u64)
    } else {
        let x0: i32 = table[upper - 1].0;
        let x1: i32 = table[upper].0;
        let num: u32 = (x - x0 as i64) as u32;
        let den: u32 = (x1 as i64 - x0 as i64) as u32;
        proof {
            lemma_portion_bounds(num as int, den as int, UNIT as int);
        }
        let part: i64 = portion_of(num, den, UNIT as i64);
        (upper as u64 - 1) * (UNIT as u64) + part as u64
    }
}

} // verus!
