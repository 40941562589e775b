//! Integer lookup tables with integer interpolation, as used for sensor
//! conversion tables.
use vstd::prelude::*;
use crate::maths::{trunc_div, first_window, table_xs, between};

verus! {

/// The input clamped into `[in_min, in_max]`: `max(in_min, min(raw, in_max))`.
pub open spec fn clamp_input(raw: int, in_min: int, in_max: int) -> int {
    let lowered = if raw < in_max { raw } else { in_max };
    if in_min > lowered { in_min } else { lowered }
}

/// The value of the integer interpolation:
/// `((out_max - out_min) * (clamped - in_min)) / (in_max - in_min) + out_min`
/// with the division rounding toward zero.
pub open spec fn interp_int_spec(raw: int, out_min: int, out_max: int, in_min: int, in_max: int) -> int {
    let c = clamp_input(raw, in_min, in_max);
    trunc_div((out_max - out_min) * (c - in_min), in_max - in_min) + out_min
}

/// Whether a value fits in `i32`.
pub open spec fn fits_i32(v: int) -> bool {
    i32::MIN <= v <= i32::MAX
}

/// The inputs on which every step of the integer interpolation stays in
/// `i32` and the divisor is not zero.
pub open spec fn interp_int_ok(raw: int, out_min: int, out_max: int, in_min: int, in_max: int) -> bool {
    let c = clamp_input(raw, in_min, in_max);
    let p = (out_max - out_min) * (c - in_min);
    &&& fits_i32(out_max - out_min)
    &&& fits_i32(c - in_min)
    &&& fits_i32(p)
    &&& fits_i32(in_max - in_min)
    &&& in_max - in_min != 0
    &&& !(p == i32::MIN && in_max - in_min == -1)
    &&& fits_i32(trunc_div(p, in_max - in_min) + out_min)
}

fn trunc_div_i64(n: i64, m: i64) -> (r: i64)
    requires
        m != 0,
        fits_i32(n as int),
        fits_i32(m as int),
    ensures
        r == trunc_div(n as int, m as int),
{
    if n >= 0 {
        if m >= 0 {
            n / m
        } else {
            -(n / (-m))
        }
    } else {
        if m >= 0 {
            -((-n) / m)
        } else {
            (-n) / (-m)
        }
    }
}

/// Maps `raw` from the input range `[in_min, in_max]` onto the output range
/// `[out_min, out_max]`, clamping it to the input range first.
pub fn interp_int(raw: i32, out_min: i32, out_max: i32, in_min: i32, in_max: i32) -> (r: i32)
    requires
        interp_int_ok(raw as int, out_min as int, out_max as int, in_min as int, in_max as int),
    ensures
        r as int == interp_int_spec(raw as int, out_min as int, out_max as int, in_min as int, in_max as int),
{
    let clamped: i32 = if in_min > (if raw < in_max { raw } else { in_max }) {
        in_min
    } else {
        if raw < in_max { raw } else { in_max }
    };
    let d_out = out_max - out_min;
    let d_in = clamped - in_min;
    let p = d_out as i64 * d_in as i64;
    assert(p == (out_max - out_min) * (clamped - in_min));
    let q = trunc_div_i64(p, (in_max - in_min) as i64);
    (q + out_min as i64) as i32
}

/// On an ordered input range the result lies between the two outputs,
/// and the ends of the input range map onto the ends of the output range.
pub proof fn lemma_interp_int_range(raw: int, out_min: int, out_max: int, in_min: int, in_max: int)
    requires
        in_min < in_max,
    ensures
        between(interp_int_spec(raw, out_min, out_max, in_min, in_max), out_min, out_max),
        raw <= in_min ==> interp_int_spec(raw, out_min, out_max, in_min, in_max) == out_min,
        raw >= in_max ==> interp_int_spec(raw, out_min, out_max, in_min, in_max) == out_max,
{
    let c = clamp_input(raw, in_min, in_max);
    let w = in_max - in_min;
    let dv = c - in_min;
    let dy = out_max - out_min;
    assert(0 <= dv <= w);
    let t = trunc_div(dy * dv, w);
    if dy >= 0 {
        assert(0 <= (dy * dv) / w <= dy) by (nonlinear_arith)
            requires
                dy >= 0,
                0 <= dv <= w,
                w > 0,
        ;
        assert(dy * w / w == dy) by (nonlinear_arith)
            requires
                w > 0,
        ;
    } else {
        assert(0 <= ((-dy) * dv) / w <= -dy) by (nonlinear_arith)
            requires
                dy < 0,
                0 <= dv <= w,
                w > 0,
        ;
        assert(dy * dv == -((-dy) * dv)) by (nonlinear_arith);
        assert((-dy) * w / w == -dy) by (nonlinear_arith)
            requires
                w > 0,
        ;
        assert(dy * w == -((-dy) * w)) by (nonlinear_arith);
        if dv == 0 {
            assert(dy * dv == 0) by (nonlinear_arith)
                requires
                    dv == 0,
            ;
        }
    }
    if raw <= in_min {
        assert(dy * 0 == 0) by (nonlinear_arith);
    }
}

/// The value that [`interp`] computes: the first or last output beyond the
/// table ends, else the integer interpolation over the first window that
/// holds `raw`, and the first output when no window holds it.
pub open spec fn int_table_spec(raw: int, tab: Seq<(i32, i32)>) -> int {
    let last = tab.len() - 1;
    if raw <= tab[0].0 {
        tab[0].1 as int
    } else if raw >= tab[last].0 {
        tab[last].1 as int
    } else {
        let w = first_window(raw, table_xs(tab), 0);
        if w == -1 {
            tab[0].1 as int
        } else {
            interp_int_spec(raw, tab[w].1 as int, tab[w + 1].1 as int, tab[w].0 as int, tab[w + 1].0 as int)
        }
    }
}

/// The tables on which [`interp`] runs without an arithmetic fault for
/// `raw`: the window it picks passes [`interp_int_ok`].
pub open spec fn int_table_ok(raw: int, tab: Seq<(i32, i32)>) -> bool {
    let last = tab.len() - 1;
    let w = first_window(raw, table_xs(tab), 0);
    &&& tab.len() >= 1
    &&& (tab[0].0 < raw < tab[last].0 && w != -1) ==> interp_int_ok(
        raw,
        tab[w].1 as int,
        tab[w + 1].1 as int,
        tab[w].0 as int,
        tab[w + 1].0 as int,
    )
}

/// Table lookup with integer interpolation between the table points.
pub fn interp(raw: i32, tab: &[(i32, i32)]) -> (r: i32)
    requires
        int_table_ok(raw as int, tab@),
    ensures
        r as int == int_table_spec(raw as int, tab@),
{
    let last = tab.len() - 1;
    if raw <= tab[0].0 {
        tab[0].1
    } else if raw >= tab[last].0 {
        tab[last].1
    } else {
        let ghost xs = table_xs(tab@);
        let mut ret = tab[0].1;
        let mut i: usize = 0;
        while i < last
            invariant_except_break
                ret == tab@[0].1,
            invariant
                i <= last,
                last + 1 == tab@.len(),
                xs == table_xs(tab@),
                tab@[0].0 < raw < tab@[last as int].0,
                int_table_ok(raw as int, tab@),
                first_window(raw as int, xs, 0) == first_window(raw as int, xs, i as int),
            ensures
                ret as int == (if first_window(raw as int, xs, 0) == -1 {
                    tab@[0].1 as int
                } else {
                    let w = first_window(raw as int, xs, 0);
                    interp_int_spec(
                        raw as int,
                        tab@[w].1 as int,
                        tab@[w + 1].1 as int,
                        tab@[w].0 as int,
                        tab@[w + 1].0 as int,
                    )
                }),
            decreases tab@.len() - i,
        {
            let (min_x, min_y) = tab[i];
            let (max_x, max_y) = tab[i + 1];
            if min_x <= raw && raw <= max_x {
                ret = interp_int(raw, min_y, max_y, min_x, max_x);
                break;
            }
            i = i + 1;
        }
        ret
    }
}

} // verus!
