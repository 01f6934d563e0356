//! Critical values for one-sided tests, read from the tables by linear
//! interpolation along the tail probability.

use vstd::prelude::*;
use vstd::arithmetic::div_mod::{lemma_div_is_ordered, lemma_hoist_over_denominator};
use crate::numeric::{div_floor, lemma_floor_div_bounds};
use crate::tables::{
    dominates, is_descending, lemma_normal_descending, lemma_student_descending,
    lemma_student_dominates_next, lemma_student_dominates_normal, student_row, student_table,
    GRID_LEN, NORMAL, ROWS, STUDENT_DF, TAIL_GRID,
};

verus! {

/// A tail probability of one: probabilities are counted in millionths.
pub const TAIL_SCALE: u32 = 1_000_000;

/// A critical value of one: critical values are counted in millionths.
pub const CRITICAL_SCALE: i64 = 1_000_000;

/// The tail probability at position `k` of the grid.
pub open spec fn grid(k: int) -> int {
    TAIL_GRID@[k] as int
}

/// Whether `p` lies in the grid interval that starts at position `k`.
pub open spec fn is_segment(p: int, k: int) -> bool {
    &&& 0 <= k < GRID_LEN - 1
    &&& grid(k) <= p < grid(k + 1)
}

/// The position of the grid interval that holds `p`.
pub open spec fn segment_of(p: int) -> int {
    choose|k: int| is_segment(p, k)
}

/// The value at `p` on the line through the two table entries that
/// enclose it; outside the grid, the nearest entry.
pub open spec fn interpolate(table: Seq<i64>, p: int) -> int {
    if p <= grid(0) {
        table[0] as int
    } else if p >= grid(GRID_LEN - 1) {
        table[GRID_LEN - 1] as int
    } else {
        let k = segment_of(p);
        table[k] - ((table[k] - table[k + 1]) * (p - grid(k))) / (grid(k + 1) - grid(k))
    }
}

/// The value that a symmetric distribution exceeds with probability `p`,
/// where `table` holds its upper half.
pub open spec fn upper_tail(table: Seq<i64>, p: int) -> int {
    if 2 * p <= TAIL_SCALE {
        interpolate(table, p)
    } else {
        -interpolate(table, TAIL_SCALE - p)
    }
}

/// The grid ascends strictly and ends at one half.
pub proof fn lemma_grid_ascending()
    ensures
        forall|i: int, j: int| 0 <= i < j < GRID_LEN ==> grid(i) < grid(j),
        grid(0) > 0,
        2 * grid(GRID_LEN - 1) == TAIL_SCALE,
{
    assert forall|i: int| 0 <= i < GRID_LEN - 1 implies grid(i) < #[trigger] grid(i + 1) by {}
    assert forall|i: int, j: int| 0 <= i < j < GRID_LEN implies grid(i) < grid(j) by {
        lemma_grid_ascending_from(i, j);
    }
}

proof fn lemma_grid_ascending_from(i: int, j: int)
    requires
        0 <= i < j < GRID_LEN,
        forall|i: int| 0 <= i < GRID_LEN - 1 ==> grid(i) < #[trigger] grid(i + 1),
    ensures
        grid(i) < grid(j),
    decreases j - i,
{
    if i + 1 < j {
        lemma_grid_ascending_from(i, j - 1);
    }
}

/// A probability inside the grid lies in exactly one of its intervals.
pub proof fn lemma_segment_unique(p: int, k: int)
    requires
        is_segment(p, k),
    ensures
        segment_of(p) == k,
{
    lemma_grid_ascending();
    let s = segment_of(p);
    assert(is_segment(p, s));
    if s < k {
        assert(s + 1 <= k);
        assert(grid(s + 1) <= grid(k)) by {
            if s + 1 < k {
            }
        }
    } else if k < s {
        assert(grid(k + 1) <= grid(s)) by {
            if k + 1 < s {
            }
        }
    }
}

/// Finds the grid interval that holds `p`.
fn find_segment(p: u32) -> (k: usize)
    requires
        grid(0) <= p < grid(GRID_LEN - 1),
    ensures
        is_segment(p as int, k as int),
        segment_of(p as int) == k,
{
    let mut k: usize = 0;
    while TAIL_GRID[k + 1] <= p
        invariant
            0 <= k < GRID_LEN - 1,
            grid(k as int) <= p < grid(GRID_LEN - 1),
        decreases GRID_LEN - k,
    {
        k = k + 1;
    }
    proof {
        lemma_segment_unique(p as int, k as int);
    }
    k
}

/// Between two neighbouring grid points an interpolated value lies between
/// the two table entries.
pub proof fn lemma_interpolate_within(table: Seq<i64>, p: int, k: int)
    requires
        is_descending(table),
        is_segment(p, k),
    ensures
        table[k + 1] <= interpolate(table, p) <= table[k],
        interpolate(table, p) == table[k] - ((table[k] - table[k + 1]) * (p - grid(k))) / (grid(
            k + 1,
        ) - grid(k)),
{
    lemma_grid_ascending();
    lemma_segment_unique(p, k);
    let drop = table[k] - table[k + 1];
    let width = grid(k + 1) - grid(k);
    let offset = p - grid(k);
    assert(0 <= drop * offset <= drop * width) by (nonlinear_arith)
        requires
            0 <= drop,
            0 <= offset < width,
    ;
    lemma_floor_div_bounds(drop * offset, width);
    lemma_div_is_ordered(drop * offset, drop * width, width);
    assert((drop * width) / width == drop) by (nonlinear_arith)
        requires
            width > 0,
    ;
    if p <= grid(0) {
        assert(k == 0) by {
            if 0 < k {
            }
        }
        assert(drop * offset == 0) by (nonlinear_arith)
            requires
                offset == 0,
        ;
    }
}

/// Every entry of a descending table is at least every later entry, and
/// none is negative.
pub proof fn lemma_descending_pairs(table: Seq<i64>, i: int, j: int)
    requires
        is_descending(table),
        0 <= i <= j < GRID_LEN,
    ensures
        table[i] >= table[j] >= 0,
    decreases GRID_LEN - i,
{
    if i < GRID_LEN - 1 {
        if i < j {
            lemma_descending_pairs(table, i + 1, j);
        } else {
            lemma_descending_pairs(table, i + 1, j + 1);
        }
    }
}

/// An interpolated value lies between the first entry of the table and
/// zero.
pub proof fn lemma_interpolate_bounds(table: Seq<i64>, p: int)
    requires
        is_descending(table),
    ensures
        0 <= interpolate(table, p) <= table[0],
{
    lemma_grid_ascending();
    lemma_descending_pairs(table, 0, GRID_LEN - 1);
    if grid(0) < p < grid(GRID_LEN - 1) {
        let k = lemma_segment_exists(p);
        lemma_interpolate_within(table, p, k);
        lemma_descending_pairs(table, 0, k);
        lemma_descending_pairs(table, k + 1, GRID_LEN - 1);
    }
}

/// Every probability inside the grid lies in one of its intervals.
pub proof fn lemma_segment_exists(p: int) -> (k: int)
    requires
        grid(0) <= p < grid(GRID_LEN - 1),
    ensures
        is_segment(p, k),
        segment_of(p) == k,
{
    let k = lemma_segment_search(p, 0);
    lemma_segment_unique(p, k);
    k
}

proof fn lemma_segment_search(p: int, from: int) -> (k: int)
    requires
        0 <= from < GRID_LEN - 1,
        grid(from) <= p < grid(GRID_LEN - 1),
    ensures
        is_segment(p, k),
    decreases GRID_LEN - from,
{
    if p < grid(from + 1) {
        from
    } else {
        lemma_segment_search(p, from + 1)
    }
}

/// Interpolation along a descending table never rises with the tail
/// probability.
pub proof fn lemma_interpolate_monotone(table: Seq<i64>, p: int, q: int)
    requires
        is_descending(table),
        p <= q,
    ensures
        interpolate(table, p) >= interpolate(table, q),
{
    lemma_grid_ascending();
    lemma_interpolate_bounds(table, p);
    lemma_interpolate_bounds(table, q);
    if p <= grid(0) || q >= grid(GRID_LEN - 1) {
    } else {
        let i = lemma_segment_exists(p);
        let j = lemma_segment_exists(q);
        lemma_interpolate_within(table, p, i);
        lemma_interpolate_within(table, q, j);
        if i == j {
            let drop = table[i] - table[i + 1];
            let width = grid(i + 1) - grid(i);
            assert(drop * (p - grid(i)) <= drop * (q - grid(i))) by (nonlinear_arith)
                requires
                    0 <= drop,
                    p <= q,
            ;
            lemma_div_is_ordered(drop * (p - grid(i)), drop * (q - grid(i)), width);
        } else if i < j {
            lemma_descending_pairs(table, i + 1, j);
        } else {
            assert(grid(j + 1) <= grid(i)) by {
                if j + 1 < i {
                }
            }
        }
    }
}

/// The critical value read from a descending table never rises with the
/// tail probability.
pub proof fn lemma_upper_tail_monotone(table: Seq<i64>, p: int, q: int)
    requires
        is_descending(table),
        p <= q,
    ensures
        upper_tail(table, p) >= upper_tail(table, q),
{
    lemma_interpolate_bounds(table, p);
    lemma_interpolate_bounds(table, TAIL_SCALE - q);
    if 2 * q <= TAIL_SCALE {
        lemma_interpolate_monotone(table, p, q);
    } else if 2 * p > TAIL_SCALE {
        lemma_interpolate_monotone(table, TAIL_SCALE - q, TAIL_SCALE - p);
    }
}

/// Reads a table at `p`, interpolating between the enclosing entries.
fn interpolate_in(table: &[i64; 78], p: u32) -> (value: i64)
    requires
        is_descending(table@),
    ensures
        value == interpolate(table@, p as int),
{
    proof {
        lemma_grid_ascending();
    }
    if p <= TAIL_GRID[0] {
        table[0]
    } else if p >= TAIL_GRID[GRID_LEN - 1] {
        table[GRID_LEN - 1]
    } else {
        let k: usize = find_segment(p);
        proof {
            lemma_interpolate_within(table@, p as int, k as int);
            lemma_descending_pairs(table@, k as int, k as int + 1);
            lemma_descending_pairs(table@, 0, k as int);
            lemma_descending_pairs(table@, k as int + 1, GRID_LEN - 1);
        }
        let high: i64 = table[k];
        let low: i64 = table[k + 1];
        let drop: i128 = (high - low) as i128;
        let offset: i128 = (p - TAIL_GRID[k]) as i128;
        let width: i128 = (TAIL_GRID[k + 1] - TAIL_GRID[k]) as i128;
        proof {
            assert(0 <= drop * offset <= 0x7fff_ffff_ffff_ffff * 0xffff_ffff) by (nonlinear_arith)
                requires
                    0 <= drop <= 0x7fff_ffff_ffff_ffff,
                    0 <= offset <= 0xffff_ffff,
            ;
        }
        let fall: i128 = div_floor(drop * offset, width);
        (high as i128 - fall) as i64
    }
}

/// Whether row `r` is the one to read for `df` degrees of freedom: the
/// row of the largest tabulated number that does not exceed `df`, and the
/// first row where `df` is zero.
pub open spec fn is_row(df: int, r: int) -> bool {
    &&& 0 <= r < ROWS
    &&& r > 0 ==> STUDENT_DF@[r] <= df
    &&& r + 1 < ROWS ==> df < STUDENT_DF@[r + 1]
}

/// The position of the row to read for `df` degrees of freedom.
pub open spec fn row_of(df: int) -> int {
    choose|r: int| is_row(df, r)
}

/// The value that a standard normal variable exceeds with probability
/// `p`, both in millionths.
pub open spec fn spec_z_critical(p: int) -> int {
    upper_tail(NORMAL@, p)
}

/// The value that a Student's t variable with `df` degrees of freedom
/// exceeds with probability `p`, both in millionths.
pub open spec fn spec_t_critical(p: int, df: int) -> int {
    upper_tail(student_table(row_of(df)), p)
}

/// The tabulated degrees of freedom ascend strictly.
pub proof fn lemma_rows_ascending()
    ensures
        forall|i: int| 0 <= i < ROWS - 1 ==> STUDENT_DF@[i] < #[trigger] STUDENT_DF@[i + 1],
        STUDENT_DF@[0] == 1,
{
}

proof fn lemma_rows_ascending_from(i: int, j: int)
    requires
        0 <= i <= j < ROWS,
    ensures
        STUDENT_DF@[i] <= STUDENT_DF@[j],
    decreases j - i,
{
    lemma_rows_ascending();
    if i < j {
        lemma_rows_ascending_from(i, j - 1);
    }
}

/// Exactly one row is read for any number of degrees of freedom.
pub proof fn lemma_row_unique(df: int, r: int)
    requires
        is_row(df, r),
    ensures
        row_of(df) == r,
{
    let s = row_of(df);
    assert(is_row(df, s));
    if s < r {
        lemma_rows_ascending_from(s + 1, r);
    } else if r < s {
        lemma_rows_ascending_from(r + 1, s);
    }
}

/// Finds the row to read for `df` degrees of freedom.
fn find_row(df: u32) -> (r: usize)
    ensures
        is_row(df as int, r as int),
        row_of(df as int) == r,
{
    let mut r: usize = ROWS - 1;
    while r > 0 && STUDENT_DF[r] > df
        invariant
            0 <= r < ROWS,
            r + 1 < ROWS ==> df < STUDENT_DF@[r + 1],
        decreases r,
    {
        r = r - 1;
    }
    proof {
        lemma_row_unique(df as int, r as int);
    }
    r
}

/// Reads the upper half of a symmetric distribution at any tail
/// probability.
fn upper_tail_in(table: &[i64; 78], p: u32) -> (value: i64)
    requires
        is_descending(table@),
        0 < p < TAIL_SCALE,
    ensures
        value == upper_tail(table@, p as int),
{
    proof {
        lemma_interpolate_bounds(table@, TAIL_SCALE - p);
    }
    if p <= TAIL_SCALE / 2 {
        interpolate_in(table, p)
    } else {
        -interpolate_in(table, TAIL_SCALE - p)
    }
}

/// The critical value of the standard normal distribution for the upper
/// tail probability `p`: the value that a standard normal variable exceeds
/// with probability `p`, both counted in millionths.
pub fn z_critical(p: u32) -> (z: i64)
    requires
        0 < p < TAIL_SCALE,
    ensures
        z == spec_z_critical(p as int),
{
    proof {
        lemma_normal_descending();
    }
    upper_tail_in(&NORMAL, p)
}

/// The critical value of Student's t distribution with `df` degrees of
/// freedom for the upper tail probability `p`, both counted in millionths.
///
/// Degrees of freedom between two tabulated numbers read the row of the
/// smaller one, which errs toward the larger critical value.
pub fn t_critical(p: u32, df: u32) -> (t: i64)
    requires
        0 < p < TAIL_SCALE,
    ensures
        t == spec_t_critical(p as int, df as int),
{
    let r: usize = find_row(df);
    proof {
        lemma_student_descending(r as int);
    }
    upper_tail_in(student_row(r), p)
}

/// Lowering the tail probability never lowers the critical value of the
/// normal distribution.
pub proof fn lemma_z_critical_monotone(p: int, q: int)
    requires
        p <= q,
    ensures
        spec_z_critical(p) >= spec_z_critical(q),
{
    lemma_normal_descending();
    lemma_upper_tail_monotone(NORMAL@, p, q);
}

/// The critical values of the two tails mirror each other: the value that
/// is exceeded with probability `p` is the negative of the value that is
/// exceeded with the remaining probability.
pub proof fn lemma_critical_symmetric(p: int, df: int)
    requires
        0 <= df,
    ensures
        spec_z_critical(TAIL_SCALE - p) == -spec_z_critical(p),
        spec_t_critical(TAIL_SCALE - p, df) == -spec_t_critical(p, df),
{
    lemma_normal_descending();
    let r = lemma_row_exists(df);
    lemma_student_descending(r);
    lemma_grid_ascending();
}

/// Lowering the tail probability never lowers the critical value of
/// Student's t distribution, whatever the degrees of freedom.
pub proof fn lemma_t_critical_monotone(p: int, q: int, df: int)
    requires
        p <= q,
        0 <= df,
    ensures
        spec_t_critical(p, df) >= spec_t_critical(q, df),
{
    let r = lemma_row_exists(df);
    lemma_student_descending(r);
    lemma_upper_tail_monotone(student_table(r), p, q);
}

/// Between two neighbouring grid points, interpolation along a table that
/// dominates another yields at least what it yields along the other.
proof fn lemma_interpolate_dominates_within(high: Seq<i64>, low: Seq<i64>, p: int, k: int)
    requires
        is_descending(high),
        is_descending(low),
        dominates(high, low),
        is_segment(p, k),
    ensures
        interpolate(high, p) >= interpolate(low, p),
{
    lemma_grid_ascending();
    lemma_interpolate_within(high, p, k);
    lemma_interpolate_within(low, p, k);
    let width = grid(k + 1) - grid(k);
    let offset = p - grid(k);
    let fall_high = (high[k] - high[k + 1]) * offset;
    let fall_low = (low[k] - low[k + 1]) * offset;
    // Each value is the table entry less the quotient of the fall; with the
    // entry taken into the numerator the two quotients can be compared.
    lemma_hoist_over_denominator(fall_high, -high[k], width as nat);
    lemma_hoist_over_denominator(fall_low, -low[k], width as nat);
    assert(fall_high + (-high[k]) * width <= fall_low + (-low[k]) * width) by (nonlinear_arith)
        requires
            fall_high == (high[k] - high[k + 1]) * offset,
            fall_low == (low[k] - low[k + 1]) * offset,
            0 <= offset < width,
            high[k] >= low[k],
            high[k + 1] >= low[k + 1],
    ;
    lemma_div_is_ordered(
        fall_high + (-high[k]) * width,
        fall_low + (-low[k]) * width,
        width,
    );
}

/// Interpolation along a table that dominates another yields at least what
/// it yields along the other.
pub proof fn lemma_interpolate_dominates(high: Seq<i64>, low: Seq<i64>, p: int)
    requires
        is_descending(high),
        is_descending(low),
        dominates(high, low),
    ensures
        interpolate(high, p) >= interpolate(low, p),
{
    lemma_grid_ascending();
    if grid(0) < p < grid(GRID_LEN - 1) {
        let k = lemma_segment_exists(p);
        lemma_interpolate_dominates_within(high, low, p, k);
    }
}

/// The critical values of Student's t distribution do not rise from a row
/// of the table to a later one.
pub proof fn lemma_rows_dominate(r: int, s: int)
    requires
        0 <= r <= s < ROWS,
    ensures
        dominates(student_table(r), student_table(s)),
    decreases s - r,
{
    lemma_student_descending(r);
    if r < s {
        lemma_rows_dominate(r, s - 1);
        lemma_student_dominates_next(s - 1);
        let high = student_table(r);
        let middle = student_table(s - 1);
        let low = student_table(s);
        assert forall|k: int| 0 <= k < GRID_LEN implies #[trigger] high[k] >= low[k] by {
            assert(high[k] >= middle[k]);
            assert(middle[k] >= low[k]);
        }
    }
}

/// More degrees of freedom never read an earlier row.
pub proof fn lemma_row_monotone(df: int, more: int)
    requires
        0 <= df <= more,
    ensures
        0 <= row_of(df) <= row_of(more) < ROWS,
{
    let r = lemma_row_exists(df);
    let s = lemma_row_exists(more);
    if s < r {
        lemma_rows_ascending_from(s + 1, r);
    }
}

/// For a tail probability of at most one half, more degrees of freedom
/// never raise the critical value of Student's t distribution.
pub proof fn lemma_t_critical_monotone_df(p: int, df: int, more: int)
    requires
        2 * p <= TAIL_SCALE,
        0 <= df <= more,
    ensures
        spec_t_critical(p, df) >= spec_t_critical(p, more),
{
    lemma_row_monotone(df, more);
    let r = row_of(df);
    let s = row_of(more);
    lemma_rows_dominate(r, s);
    lemma_student_descending(r);
    lemma_student_descending(s);
    lemma_interpolate_dominates(student_table(r), student_table(s), p);
}

/// For a tail probability of at most one half, the critical value of
/// Student's t distribution is at least that of the normal distribution,
/// whatever the degrees of freedom.
pub proof fn lemma_t_critical_at_least_z(p: int, df: int)
    requires
        2 * p <= TAIL_SCALE,
        0 <= df,
    ensures
        spec_t_critical(p, df) >= spec_z_critical(p),
{
    let r = lemma_row_exists(df);
    lemma_rows_dominate(r, ROWS - 1);
    lemma_student_dominates_normal();
    lemma_student_descending(r);
    lemma_student_descending(ROWS - 1);
    lemma_normal_descending();
    let high = student_table(r);
    let middle = student_table(ROWS - 1);
    lemma_interpolate_dominates(high, middle, p);
    lemma_interpolate_dominates(middle, NORMAL@, p);
}

/// Some row is read for any number of degrees of freedom.
pub proof fn lemma_row_exists(df: int) -> (r: int)
    requires
        0 <= df,
    ensures
        is_row(df, r),
        row_of(df) == r,
{
    let r = lemma_row_search(df, ROWS - 1);
    lemma_row_unique(df, r);
    r
}

proof fn lemma_row_search(df: int, from: int) -> (r: int)
    requires
        0 <= from < ROWS,
        from + 1 < ROWS ==> df < STUDENT_DF@[from + 1],
    ensures
        is_row(df, r),
    decreases from,
{
    if from > 0 && STUDENT_DF@[from] > df {
        lemma_row_search(df, from - 1)
    } else {
        from
    }
}

} // verus!
