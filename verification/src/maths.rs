//! Lookup-table search and interpolation over calibration maps.
use vstd::prelude::*;

verus! {

/// A number type that calibration map axes and values may be made of.
///
/// Every implementor is an integer of at most 32 bits, so its value fits in
/// `i64` and differences of two values fit in 33 bits.
pub trait MapNum: Copy {
    /// The mathematical value of the number.
    spec fn spec_value(&self) -> int;

    /// Every map number lies in `[i32::MIN, u32::MAX]`.
    proof fn lemma_value_range(&self)
        ensures
            i32::MIN <= self.spec_value() <= u32::MAX,
    ;

    /// The value, widened to `i64`.
    fn value(&self) -> (r: i64)
        ensures
            r == self.spec_value(),
    ;
}

impl MapNum for i32 {
    open spec fn spec_value(&self) -> int {
        *self as int
    }

    proof fn lemma_value_range(&self) {
    }

    fn value(&self) -> (r: i64) {
        *self as i64
    }
}

impl MapNum for u32 {
    open spec fn spec_value(&self) -> int {
        *self as int
    }

    proof fn lemma_value_range(&self) {
    }

    fn value(&self) -> (r: i64) {
        *self as i64
    }
}

impl MapNum for i16 {
    open spec fn spec_value(&self) -> int {
        *self as int
    }

    proof fn lemma_value_range(&self) {
    }

    fn value(&self) -> (r: i64) {
        *self as i64
    }
}

impl MapNum for u16 {
    open spec fn spec_value(&self) -> int {
        *self as int
    }

    proof fn lemma_value_range(&self) {
    }

    fn value(&self) -> (r: i64) {
        *self as i64
    }
}

impl MapNum for i8 {
    open spec fn spec_value(&self) -> int {
        *self as int
    }

    proof fn lemma_value_range(&self) {
    }

    fn value(&self) -> (r: i64) {
        *self as i64
    }
}

impl MapNum for u8 {
    open spec fn spec_value(&self) -> int {
        *self as int
    }

    proof fn lemma_value_range(&self) {
    }

    fn value(&self) -> (r: i64) {
        *self as i64
    }
}

/// The values of an axis as integers.
pub open spec fn axis_values<T: MapNum>(s: Seq<T>) -> Seq<int> {
    s.map_values(|t: T| t.spec_value())
}

/// Whether window `idx` (the pair `s[idx]`, `s[idx + 1]`) stops the search for `v`.
pub open spec fn window_hit(v: int, s: Seq<int>, idx: int) -> bool {
    let lb = s[idx];
    let ub = s[idx + 1];
    (v > lb && v < ub) || (v > ub && v < lb) || v == lb || v == ub
}

/// The bracket that window `idx` yields for `v`, when it stops the search.
pub open spec fn window_bracket(v: int, s: Seq<int>, idx: int) -> (int, int) {
    let lb = s[idx];
    let ub = s[idx + 1];
    if (v > lb && v < ub) || (v > ub && v < lb) {
        (idx, idx + 1)
    } else if v == lb {
        (idx, idx)
    } else {
        (idx + 1, idx + 1)
    }
}

/// Scans the windows from `idx` on; when no window stops the search the
/// bracket spans the whole axis.
pub open spec fn scan_windows(v: int, s: Seq<int>, idx: int) -> (int, int)
    decreases s.len() - idx,
{
    if idx < 0 || idx + 1 >= s.len() {
        (0, s.len() - 1)
    } else if window_hit(v, s, idx) {
        window_bracket(v, s, idx)
    } else {
        scan_windows(v, s, idx + 1)
    }
}

/// The pair of axis indices between which `v` lies: both the last index when
/// `v` is above the last value, both `0` when it is below the first, else the
/// bracket of the first window that holds `v`.
pub open spec fn search_spec(v: int, s: Seq<int>) -> (int, int) {
    if v > s[s.len() - 1] {
        (s.len() - 1, s.len() - 1)
    } else if v < s[0] {
        (0, 0)
    } else {
        scan_windows(v, s, 0)
    }
}

/// The scan always yields indices of the axis.
pub proof fn lemma_scan_in_range(v: int, s: Seq<int>, idx: int)
    requires
        s.len() >= 2,
    ensures
        0 <= scan_windows(v, s, idx).0 < s.len(),
        0 <= scan_windows(v, s, idx).1 < s.len(),
    decreases s.len() - idx,
{
    if idx < 0 || idx + 1 >= s.len() {
    } else if window_hit(v, s, idx) {
    } else {
        lemma_scan_in_range(v, s, idx + 1);
    }
}

/// Whether `v` lies between `a` and `b`, both included, in either order.
pub open spec fn between(v: int, a: int, b: int) -> bool {
    (a <= v && v <= b) || (b <= v && v <= a)
}

proof fn lemma_scan_brackets(v: int, s: Seq<int>, idx: int)
    requires
        s.len() >= 2,
        0 <= idx < s.len() - 1,
        s[idx] <= v <= s[s.len() - 1],
    ensures
        ({
            let (a, b) = scan_windows(v, s, idx);
            &&& idx <= a <= b <= a + 1
            &&& b < s.len()
            &&& between(v, s[a], s[b])
            &&& (a == b ==> v == s[a])
        }),
    decreases s.len() - idx,
{
    if !window_hit(v, s, idx) {
        assert(s[idx + 1] < v);
        if idx + 1 < s.len() - 1 {
            lemma_scan_brackets(v, s, idx + 1);
        }
    }
}

/// When `v` lies within the first and last value of the axis, the
/// search yields two neighbouring indices (or one index twice) whose values
/// enclose `v`; one index twice only when `v` is that value.
pub proof fn lemma_search_brackets(v: int, s: Seq<int>)
    requires
        s.len() >= 2,
        s[0] <= v <= s[s.len() - 1],
    ensures
        ({
            let (a, b) = search_spec(v, s);
            &&& 0 <= a <= b <= a + 1
            &&& b < s.len()
            &&& between(v, s[a], s[b])
            &&& (a == b ==> v == s[a])
        }),
{
    lemma_scan_brackets(v, s, 0);
}

/// Values beyond the ends of the axis are clamped to the end indices.
pub proof fn lemma_search_clamps(v: int, s: Seq<int>)
    requires
        s.len() >= 2,
    ensures
        v > s[s.len() - 1] ==> search_spec(v, s) == (s.len() - 1, s.len() - 1),
        v <= s[s.len() - 1] && v < s[0] ==> search_spec(v, s) == (0int, 0int),
{
}

/// Finds the pair of indices of `values` between which `value` lies.
pub fn search_value<const N: usize, T: MapNum>(value: T, values: &[T; N]) -> (r: (usize, usize))
    requires
        N >= 2,
    ensures
        r.0 as int == search_spec(value.spec_value(), axis_values(values@)).0,
        r.1 as int == search_spec(value.spec_value(), axis_values(values@)).1,
        r.0 < N,
        r.1 < N,
{
    let ghost s = axis_values(values@);
    let v = value.value();
    let mut min: usize = 0;
    let mut max: usize = N - 1;
    if v > values[N - 1].value() {
        min = N - 1;
    } else if v < values[0].value() {
        max = 0;
    } else {
        let mut idx: usize = 0;
        while idx + 1 < N
            invariant_except_break
                min == 0,
                max == N - 1,
            invariant
                N >= 2,
                idx + 1 <= N,
                s == axis_values(values@),
                s.len() == N,
                v == value.spec_value(),
                scan_windows(v as int, s, 0) == scan_windows(v as int, s, idx as int),
            ensures
                (min as int, max as int) == scan_windows(v as int, s, 0),
            decreases N - idx,
        {
            let lb = values[idx].value();
            let ub = values[idx + 1].value();
            assert(lb == s[idx as int] && ub == s[idx + 1]);
            if v > lb && v < ub || v > ub && v < lb {
                min = idx;
                max = idx + 1;
                break;
            } else if v == lb {
                min = idx;
                max = idx;
                break;
            } else if v == ub {
                min = idx + 1;
                max = idx + 1;
                break;
            }
            idx = idx + 1;
        }
    }
    proof {
        lemma_scan_in_range(v as int, s, 0);
    }
    (min, max)
}

/// An exact rational number `num / den`, with `den > 0` for every value
/// this module hands out.
#[derive(Clone, Copy, Debug)]
pub struct Ratio {
    pub num: i128,
    pub den: i128,
}

impl Ratio {
    /// The pair `(num, den)`.
    pub open spec fn pair(self) -> (int, int) {
        (self.num as int, self.den as int)
    }

    /// The whole number `n`.
    pub fn from_int(n: i64) -> (r: Ratio)
        ensures
            r.pair() == (n as int, 1int),
    {
        Ratio { num: n as i128, den: 1 }
    }

    /// The numerator.
    pub fn numerator(&self) -> (r: i128)
        ensures
            r == self.num,
    {
        self.num
    }

    /// The denominator.
    pub fn denominator(&self) -> (r: i128)
        ensures
            r == self.den,
    {
        self.den
    }
}

/// Linear interpolation of `v` between the points `(x1, y1 / d)` and
/// `(x2, y2 / d)`, as the pair `(numerator, denominator)`.
///
/// When `x1 == x2` the result is `y1 / d`. Otherwise the points are ordered by
/// their x value; below the lower x the lower point's value is returned, above
/// the upper x the upper point's value, and in between
/// `ymin + (ymax - ymin) / (xmax - xmin) * (v - xmin)`.
pub open spec fn lerp(v: int, x1: int, x2: int, y1: int, y2: int, d: int) -> (int, int) {
    if x1 == x2 {
        (y1, d)
    } else {
        let xmin = if x1 > x2 { x2 } else { x1 };
        let xmax = if x1 > x2 { x1 } else { x2 };
        let ymin = if x1 > x2 { y2 } else { y1 };
        let ymax = if x1 > x2 { y1 } else { y2 };
        if v < xmin {
            (ymin, d)
        } else if v > xmax {
            (ymax, d)
        } else {
            (ymin * (xmax - xmin) + (ymax - ymin) * (v - xmin), d * (xmax - xmin))
        }
    }
}

/// Whether the fraction `n / m` (with `m > 0`) lies between `y1 / d` and
/// `y2 / d` (with `d > 0`), both included.
pub open spec fn ratio_between(n: int, m: int, y1: int, y2: int, d: int) -> bool {
    (y1 * m <= n * d && n * d <= y2 * m) || (y2 * m <= n * d && n * d <= y1 * m)
}

/// Whether the fractions `n1 / m1` and `n2 / m2` are equal.
pub open spec fn ratio_eq(n1: int, m1: int, n2: int, m2: int) -> bool {
    n1 * m2 == n2 * m1
}

/// Bound on the axis values handed to the exact interpolation.
pub open spec fn x_ok(x: int) -> bool {
    -0x2_0000_0000 <= x <= 0x2_0000_0000
}

/// Bound on the numerators handed to the exact interpolation.
pub open spec fn y_ok(y: int) -> bool {
    -0x40_0000_0000_0000_0000 <= y <= 0x40_0000_0000_0000_0000
}

/// Bound on the denominators handed to the exact interpolation.
pub open spec fn d_ok(d: int) -> bool {
    1 <= d <= 0x100_0000_0000
}

proof fn lemma_lerp_bounds(v: int, xmin: int, xmax: int, ymin: int, ymax: int, d: int)
    requires
        x_ok(v),
        x_ok(xmin),
        x_ok(xmax),
        y_ok(ymin),
        y_ok(ymax),
        d_ok(d),
        xmin < xmax,
        xmin <= v <= xmax,
    ensures
        -0x1_0000_0000_0000_0000_0000_0000_0000 <= ymin * (xmax - xmin) <= 0x1_0000_0000_0000_0000_0000_0000_0000,
        -0x1_0000_0000_0000_0000_0000_0000_0000 <= (ymax - ymin) * (v - xmin) <= 0x1_0000_0000_0000_0000_0000_0000_0000,
        1 <= d * (xmax - xmin) <= 0x1000_0000_0000_0000_0000,
{
    let w = xmax - xmin;
    let dv = v - xmin;
    let dy = ymax - ymin;
    assert(0 < w <= 0x4_0000_0000);
    assert(0 <= dv <= 0x4_0000_0000);
    assert(-0x80_0000_0000_0000_0000 <= dy <= 0x80_0000_0000_0000_0000);
    assert(-0x1_0000_0000_0000_0000_0000_0000_0000 <= ymin * w <= 0x1_0000_0000_0000_0000_0000_0000_0000) by (nonlinear_arith)
        requires
            0 < w <= 0x4_0000_0000,
            -0x40_0000_0000_0000_0000 <= ymin <= 0x40_0000_0000_0000_0000,
    ;
    assert(-0x1_0000_0000_0000_0000_0000_0000_0000 <= dy * dv <= 0x1_0000_0000_0000_0000_0000_0000_0000) by (nonlinear_arith)
        requires
            0 <= dv <= 0x4_0000_0000,
            -0x80_0000_0000_0000_0000 <= dy <= 0x80_0000_0000_0000_0000,
    ;
    assert(1 <= d * w <= 0x1000_0000_0000_0000_0000) by (nonlinear_arith)
        requires
            0 < w <= 0x4_0000_0000,
            1 <= d <= 0x100_0000_0000,
    ;
}

/// Exact linear interpolation on integers; see [`lerp`].
fn lerp_exact(v: i64, x1: i64, x2: i64, y1: i128, y2: i128, d: i128) -> (r: (i128, i128))
    requires
        x_ok(v as int),
        x_ok(x1 as int),
        x_ok(x2 as int),
        y_ok(y1 as int),
        y_ok(y2 as int),
        d_ok(d as int),
    ensures
        (r.0 as int, r.1 as int) == lerp(v as int, x1 as int, x2 as int, y1 as int, y2 as int, d as int),
{
    if x1 == x2 {
        return (y1, d);
    }
    let (x_min, x_max, y_min, y_max) = if x1 > x2 {
        (x2, x1, y2, y1)
    } else {
        (x1, x2, y1, y2)
    };
    if v < x_min {
        (y_min, d)
    } else if v > x_max {
        (y_max, d)
    } else {
        proof {
            lemma_lerp_bounds(v as int, x_min as int, x_max as int, y_min as int, y_max as int, d as int);
        }
        let w = (x_max - x_min) as i128;
        let dv = (v - x_min) as i128;
        (y_min * w + (y_max - y_min) * dv, d * w)
    }
}

/// Interpolates `val` between `(x1, y1)` and `(x2, y2)`, where `val` lies
/// somewhere on the X axis (between `x1` and `x2`) and the output between
/// `y1` and `y2`; the result is exact.
///
/// If `val` exceeds the bounds of `x1` or `x2`, the limits `y1` or `y2` are
/// returned.
pub fn interp_linear<X: MapNum, Y: MapNum>(val: X, x1: X, x2: X, y1: Y, y2: Y) -> (r: Ratio)
    ensures
        r.pair() == lerp(
            val.spec_value(),
            x1.spec_value(),
            x2.spec_value(),
            y1.spec_value(),
            y2.spec_value(),
            1,
        ),
        r.den > 0,
        y_ok(r.num as int),
        d_ok(r.den as int),
{
    proof {
        val.lemma_value_range();
        x1.lemma_value_range();
        x2.lemma_value_range();
        y1.lemma_value_range();
        y2.lemma_value_range();
    }
    let (n, m) = lerp_exact(
        val.value(),
        x1.value(),
        x2.value(),
        y1.value() as i128,
        y2.value() as i128,
        1,
    );
    proof {
        lemma_lerp_den_pos(val.spec_value(), x1.spec_value(), x2.spec_value(), y1.spec_value(), y2.spec_value(), 1);
        lemma_stage_one_bounds(val.spec_value(), x1.spec_value(), x2.spec_value(), y1.spec_value(), y2.spec_value());
    }
    Ratio { num: n, den: m }
}

/// Interpolates `val` between `(x1, y1)` and `(x2, y2)` where the outputs are
/// themselves exact fractions over one denominator.
pub fn interp_linear_ratio<X: MapNum>(val: X, x1: X, x2: X, y1: Ratio, y2: Ratio) -> (r: Ratio)
    requires
        y1.den == y2.den,
        d_ok(y1.den as int),
        y_ok(y1.num as int),
        y_ok(y2.num as int),
    ensures
        r.pair() == lerp(
            val.spec_value(),
            x1.spec_value(),
            x2.spec_value(),
            y1.num as int,
            y2.num as int,
            y1.den as int,
        ),
        r.den > 0,
{
    proof {
        val.lemma_value_range();
        x1.lemma_value_range();
        x2.lemma_value_range();
    }
    let (n, m) = lerp_exact(val.value(), x1.value(), x2.value(), y1.num, y2.num, y1.den);
    proof {
        lemma_lerp_den_pos(val.spec_value(), x1.spec_value(), x2.spec_value(), y1.num as int, y2.num as int, y1.den as int);
    }
    Ratio { num: n, den: m }
}

/// The denominator of an interpolation is positive.
pub proof fn lemma_lerp_den_pos(v: int, x1: int, x2: int, y1: int, y2: int, d: int)
    requires
        d > 0,
    ensures
        lerp(v, x1, x2, y1, y2, d).1 > 0,
{
    if x1 != x2 {
        let w = if x1 > x2 { x1 - x2 } else { x2 - x1 };
        assert(d * w > 0) by (nonlinear_arith)
            requires
                d > 0,
                w > 0,
        ;
    }
}

/// The denominator of an interpolation does not depend on the output
/// values, so two interpolations over one X segment share it.
pub proof fn lemma_lerp_den_shared(v: int, x1: int, x2: int, y1: int, y2: int, y3: int, y4: int, d: int)
    ensures
        lerp(v, x1, x2, y1, y2, d).1 == lerp(v, x1, x2, y3, y4, d).1,
{
}

/// The interpolated value always lies between the two output values.
pub proof fn lemma_lerp_between(v: int, x1: int, x2: int, y1: int, y2: int, d: int)
    requires
        d > 0,
    ensures
        ratio_between(lerp(v, x1, x2, y1, y2, d).0, lerp(v, x1, x2, y1, y2, d).1, y1, y2, d),
{
    let (n, m) = lerp(v, x1, x2, y1, y2, d);
    if x1 == x2 {
        assert(y1 * d <= y1 * d);
    } else {
        let xmin = if x1 > x2 { x2 } else { x1 };
        let xmax = if x1 > x2 { x1 } else { x2 };
        let ymin = if x1 > x2 { y2 } else { y1 };
        let ymax = if x1 > x2 { y1 } else { y2 };
        if v < xmin || v > xmax {
            assert(y1 * d <= y2 * d || y2 * d <= y1 * d) by (nonlinear_arith)
                requires
                    d > 0,
            ;
        } else {
            let w = xmax - xmin;
            let dv = v - xmin;
            assert(n * d - ymin * m == d * (ymax - ymin) * dv) by (nonlinear_arith)
                requires
                    n == ymin * w + (ymax - ymin) * dv,
                    m == d * w,
            ;
            assert(ymax * m - n * d == d * (ymax - ymin) * (w - dv)) by (nonlinear_arith)
                requires
                    n == ymin * w + (ymax - ymin) * dv,
                    m == d * w,
            ;
            assert(0 <= dv <= w);
            if ymin <= ymax {
                assert(d * (ymax - ymin) * dv >= 0) by (nonlinear_arith)
                    requires
                        d > 0,
                        ymax - ymin >= 0,
                        dv >= 0,
                ;
                assert(d * (ymax - ymin) * (w - dv) >= 0) by (nonlinear_arith)
                    requires
                        d > 0,
                        ymax - ymin >= 0,
                        w - dv >= 0,
                ;
            } else {
                assert(d * (ymax - ymin) * dv <= 0) by (nonlinear_arith)
                    requires
                        d > 0,
                        ymax - ymin <= 0,
                        dv >= 0,
                ;
                assert(d * (ymax - ymin) * (w - dv) <= 0) by (nonlinear_arith)
                    requires
                        d > 0,
                        ymax - ymin <= 0,
                        w - dv >= 0,
                ;
            }
        }
    }
}

/// At either end of the segment the interpolation gives exactly that
/// end's output value, and beyond an end it gives that end's value.
pub proof fn lemma_lerp_endpoints(v: int, x1: int, x2: int, y1: int, y2: int, d: int)
    requires
        d > 0,
    ensures
        v == x1 ==> ratio_eq(lerp(v, x1, x2, y1, y2, d).0, lerp(v, x1, x2, y1, y2, d).1, y1, d),
        v == x2 && x1 != x2 ==> ratio_eq(lerp(v, x1, x2, y1, y2, d).0, lerp(v, x1, x2, y1, y2, d).1, y2, d),
        x1 < x2 && v < x1 ==> lerp(v, x1, x2, y1, y2, d) == (y1, d),
        x1 < x2 && v > x2 ==> lerp(v, x1, x2, y1, y2, d) == (y2, d),
        x1 > x2 && v > x1 ==> lerp(v, x1, x2, y1, y2, d) == (y1, d),
        x1 > x2 && v < x2 ==> lerp(v, x1, x2, y1, y2, d) == (y2, d),
{
    let (n, m) = lerp(v, x1, x2, y1, y2, d);
    if x1 < x2 {
        let w = x2 - x1;
        if v == x1 {
            assert(n * d == y1 * m) by (nonlinear_arith)
                requires
                    n == y1 * w + (y2 - y1) * 0,
                    m == d * w,
            ;
        }
        if v == x2 {
            assert(n * d == y2 * m) by (nonlinear_arith)
                requires
                    n == y1 * w + (y2 - y1) * w,
                    m == d * w,
            ;
        }
    } else if x1 > x2 {
        let w = x1 - x2;
        if v == x2 {
            assert(n * d == y2 * m) by (nonlinear_arith)
                requires
                    n == y2 * w + (y1 - y2) * 0,
                    m == d * w,
            ;
        }
        if v == x1 {
            assert(n * d == y1 * m) by (nonlinear_arith)
                requires
                    n == y2 * w + (y1 - y2) * w,
                    m == d * w,
            ;
        }
    }
}

/// The value that a 1D map gives for `raw`, over axis values `xs` and
/// outputs `zs`.
pub open spec fn map1d_spec(raw: int, xs: Seq<int>, zs: Seq<int>) -> (int, int) {
    let (a, b) = search_spec(raw, xs);
    if a != b {
        lerp(raw, xs[a], xs[b], zs[a], zs[b], 1)
    } else {
        (zs[a], 1)
    }
}

/// The value that a 2D map gives for `(xv, yv)`: a bilinear interpolation of
/// the four outputs around the point, first along X, then along Y. The
/// outputs are laid out row by row, `zs[y_index * xs.len() + x_index]`.
pub open spec fn map2d_spec(xv: int, yv: int, xs: Seq<int>, ys: Seq<int>, zs: Seq<int>) -> (int, int) {
    let (xa, xb) = search_spec(xv, xs);
    let (ya, yb) = search_spec(yv, ys);
    let n = xs.len() as int;
    let f11 = zs[ya * n + xa];
    let f12 = zs[ya * n + xb];
    let f21 = zs[yb * n + xa];
    let f22 = zs[yb * n + xb];
    let r1 = lerp(xv, xs[xa], xs[xb], f11, f12, 1);
    let r2 = lerp(xv, xs[xa], xs[xb], f21, f22, 1);
    lerp(yv, ys[ya], ys[yb], r1.0, r2.0, r1.1)
}

/// Whether the values of an axis rise strictly.
pub open spec fn strictly_ascending(s: Seq<int>) -> bool {
    forall|i: int, j: int| 0 <= i < j < s.len() ==> s[i] < s[j]
}

proof fn lemma_scan_skips_to_node(s: Seq<int>, k: int, i: int)
    requires
        strictly_ascending(s),
        0 <= k <= i - 1,
        i < s.len(),
    ensures
        scan_windows(s[i], s, k) == (i, i),
    decreases i - k,
{
    if k < i - 1 {
        assert(s[k] < s[i] && s[k + 1] < s[i]);
        lemma_scan_skips_to_node(s, k + 1, i);
    } else {
        assert(s[k] < s[i]);
    }
}

/// On a strictly rising axis, looking up one of the axis values yields
/// its own index twice.
pub proof fn lemma_search_at_node(s: Seq<int>, i: int)
    requires
        s.len() >= 2,
        strictly_ascending(s),
        0 <= i < s.len(),
    ensures
        search_spec(s[i], s) == (i, i),
{
    if i < s.len() - 1 {
        assert(s[i] < s[s.len() - 1]);
    }
    if i > 0 {
        assert(s[0] < s[i]);
        lemma_scan_skips_to_node(s, 0, i);
    } else {
        assert(s[0] < s[1]);
    }
}

/// A 1D map over a strictly rising axis reproduces its calibration
/// points, and clamps lookups beyond either end to the end's output.
pub proof fn lemma_map1d_nodes_and_clamps(xs: Seq<int>, zs: Seq<int>, raw: int, i: int)
    requires
        xs.len() >= 2,
        zs.len() == xs.len(),
        strictly_ascending(xs),
        0 <= i < xs.len(),
    ensures
        map1d_spec(xs[i], xs, zs) == (zs[i], 1int),
        raw > xs[xs.len() - 1] ==> map1d_spec(raw, xs, zs) == (zs[xs.len() - 1], 1int),
        raw < xs[0] ==> map1d_spec(raw, xs, zs) == (zs[0], 1int),
{
    lemma_search_at_node(xs, i);
    assert(xs[0] < xs[xs.len() - 1]);
}

/// A 2D map over strictly rising axes reproduces the output stored for
/// each grid point.
pub proof fn lemma_map2d_nodes(xs: Seq<int>, ys: Seq<int>, zs: Seq<int>, i: int, j: int)
    requires
        xs.len() >= 2,
        ys.len() >= 2,
        strictly_ascending(xs),
        strictly_ascending(ys),
        0 <= i < xs.len(),
        0 <= j < ys.len(),
    ensures
        map2d_spec(xs[i], ys[j], xs, ys, zs) == (zs[j * xs.len() + i], 1int),
{
    lemma_search_at_node(xs, i);
    lemma_search_at_node(ys, j);
}

/// A 2D map over strictly rising axes clamps a point beyond both upper
/// ends to the last output, and one below both lower ends to the first.
pub proof fn lemma_map2d_clamps(xs: Seq<int>, ys: Seq<int>, zs: Seq<int>, xv: int, yv: int)
    requires
        xs.len() >= 2,
        ys.len() >= 2,
        zs.len() == xs.len() * ys.len(),
        strictly_ascending(xs),
        strictly_ascending(ys),
    ensures
        xv > xs[xs.len() - 1] && yv > ys[ys.len() - 1] ==> map2d_spec(xv, yv, xs, ys, zs) == (
            zs[zs.len() - 1],
            1int,
        ),
        xv < xs[0] && yv < ys[0] ==> map2d_spec(xv, yv, xs, ys, zs) == (zs[0], 1int),
{
    assert(xs[0] < xs[xs.len() - 1]);
    assert(ys[0] < ys[ys.len() - 1]);
    assert((ys.len() - 1) * xs.len() + (xs.len() - 1) == xs.len() * ys.len() - 1) by (nonlinear_arith);
    assert(0 * (xs.len() as int) + 0 == 0) by (nonlinear_arith);
}

/// Division rounding toward zero, as integer division does in Rust.
pub open spec fn trunc_div(n: int, m: int) -> int {
    if (n >= 0) == (m >= 0) {
        if n >= 0 {
            n / m
        } else {
            (-n) / (-m)
        }
    } else {
        if n >= 0 {
            -(n / (-m))
        } else {
            -((-n) / m)
        }
    }
}

/// Rounds `n / m` (with `m > 0`) toward zero.
fn trunc_ratio(n: i128, m: i128) -> (r: i128)
    requires
        m > 0,
        y_ok(n as int),
    ensures
        r == trunc_div(n as int, m as int),
{
    if n >= 0 {
        n / m
    } else {
        -((-n) / m)
    }
}

proof fn lemma_trunc_between(n: int, m: int, y1: int, y2: int)
    requires
        m > 0,
        ratio_between(n, m, y1, y2, 1),
    ensures
        between(trunc_div(n, m), y1, y2),
{
    let lo = if y1 <= y2 { y1 } else { y2 };
    let hi = if y1 <= y2 { y2 } else { y1 };
    assert(lo * m <= n && n <= hi * m) by (nonlinear_arith)
        requires
            m > 0,
            ratio_between(n, m, y1, y2, 1),
            lo == (if y1 <= y2 { y1 } else { y2 }),
            hi == (if y1 <= y2 { y2 } else { y1 }),
    ;
    let t = trunc_div(n, m);
    if n >= 0 {
        assert(lo <= n / m <= hi) by (nonlinear_arith)
            requires
                m > 0,
                n >= 0,
                lo * m <= n <= hi * m,
        ;
    } else {
        assert(lo <= -((-n) / m) <= hi) by (nonlinear_arith)
            requires
                m > 0,
                n < 0,
                lo * m <= n <= hi * m,
        ;
    }
}

/// The index of the first window `(tab[i], tab[i + 1])` whose X values hold
/// `raw` (both included), scanning from `i`; `-1` when there is none.
pub open spec fn first_window(raw: int, xs: Seq<int>, i: int) -> int
    decreases xs.len() - i,
{
    if i < 0 || i + 1 >= xs.len() {
        -1
    } else if xs[i] <= raw <= xs[i + 1] {
        i
    } else {
        first_window(raw, xs, i + 1)
    }
}

proof fn lemma_first_window_range(raw: int, xs: Seq<int>, i: int)
    requires
        i >= 0,
    ensures
        first_window(raw, xs, i) == -1 || (i <= first_window(raw, xs, i) && first_window(raw, xs, i) + 1 < xs.len()),
        first_window(raw, xs, i) != -1 ==> xs[first_window(raw, xs, i)] <= raw <= xs[first_window(raw, xs, i) + 1],
    decreases xs.len() - i,
{
    if i + 1 < xs.len() && !(xs[i] <= raw <= xs[i + 1]) {
        lemma_first_window_range(raw, xs, i + 1);
    }
}

/// The X values of a table of `(x, y)` points.
pub open spec fn table_xs(tab: Seq<(i32, i32)>) -> Seq<int> {
    tab.map_values(|p: (i32, i32)| p.0 as int)
}

/// The value that [`interp`] computes: the first or last output beyond the
/// table ends, else the value of the interpolation over the first window that
/// holds `raw`, between its points `(min_x, min_y)` and `(max_x, max_y)`,
/// rounded toward zero, and the first output when no window holds it.
pub open spec fn table_interp_spec(raw: int, tab: Seq<(i32, i32)>) -> int {
    let last = tab.len() - 1;
    if raw <= tab[0].0 {
        tab[0].1 as int
    } else if raw >= tab[last].0 {
        tab[last].1 as int
    } else {
        let w = first_window(raw, table_xs(tab), 0);
        if w == -1 {
            tab[0].1 as int
        } else {
            let (min_x, min_y) = tab[w];
            let (max_x, max_y) = tab[w + 1];
            let r = lerp(raw, min_x as int, max_x as int, min_y as int, max_y as int, 1);
            trunc_div(r.0, r.1)
        }
    }
}

/// A table lookup never leaves the range of the table's output
/// values.
pub proof fn lemma_table_interp_bounds(raw: int, tab: Seq<(i32, i32)>, lo: int, hi: int)
    requires
        tab.len() >= 1,
        forall|i: int| 0 <= i < tab.len() ==> lo <= #[trigger] tab[i].1 <= hi,
    ensures
        lo <= table_interp_spec(raw, tab) <= hi,
{
    let last = tab.len() - 1;
    assert(lo <= tab[0].1 <= hi);
    assert(lo <= tab[last].1 <= hi);
    if tab[0].0 < raw && raw < tab[last].0 {
        let xs = table_xs(tab);
        lemma_first_window_range(raw, xs, 0);
        let w = first_window(raw, xs, 0);
        if w != -1 {
            let (min_x, min_y) = tab[w];
            let (max_x, max_y) = tab[w + 1];
            assert(lo <= tab[w].1 <= hi);
            assert(lo <= tab[w + 1].1 <= hi);
            lemma_lerp_between(raw, min_x as int, max_x as int, min_y as int, max_y as int, 1);
            lemma_lerp_den_pos(raw, min_x as int, max_x as int, min_y as int, max_y as int, 1);
            let r = lerp(raw, min_x as int, max_x as int, min_y as int, max_y as int, 1);
            lemma_trunc_between(r.0, r.1, min_y as int, max_y as int);
        }
    }
}

/// Table lookup with linear interpolation between the table points; the
/// interpolation is computed exactly and rounded toward zero.
pub fn interp(raw: i32, tab: &[(i32, i32)]) -> (r: i32)
    requires
        tab@.len() >= 1,
    ensures
        r as int == table_interp_spec(raw as int, tab@),
{
    let last = tab.len() - 1;
    if raw <= tab[0].0 {
        tab[0].1
    } else if raw >= tab[last].0 {
        tab[last].1
    } else {
        let ghost xs = table_xs(tab@);
        let mut ret = tab[0].1;
        let mut i: usize = 0;
        while i < last
            invariant_except_break
                ret == tab@[0].1,
            invariant
                i <= last,
                last + 1 == tab@.len(),
                xs == table_xs(tab@),
                first_window(raw as int, xs, 0) == first_window(raw as int, xs, i as int),
            ensures
                ret as int == (if first_window(raw as int, xs, 0) == -1 {
                    tab@[0].1 as int
                } else {
                    let w = first_window(raw as int, xs, 0);
                    let r = lerp(
                        raw as int,
                        tab@[w].0 as int,
                        tab@[w + 1].0 as int,
                        tab@[w].1 as int,
                        tab@[w + 1].1 as int,
                        1,
                    );
                    trunc_div(r.0, r.1)
                }),
            decreases tab@.len() - i,
        {
            let (min_x, min_y) = tab[i];
            let (max_x, max_y) = tab[i + 1];
            if min_x <= raw && raw <= max_x {
                let v = interp_linear(raw, min_x, max_x, min_y, max_y);
                proof {
                    lemma_lerp_between(raw as int, min_x as int, max_x as int, min_y as int, max_y as int, 1);
                    lemma_trunc_between(v.num as int, v.den as int, min_y as int, max_y as int);
                }
                ret = trunc_ratio(v.num, v.den) as i32;
                break;
            }
            i = i + 1;
        }
        ret
    }
}

/// A one dimensional calibration map axis.
pub struct Map1d<'a, T: MapNum, const N: usize>(pub &'a [T; N]);

impl<'a, T: MapNum, const N: usize> From<&'a [T; N]> for Map1d<'a, T, N> {
    fn from(value: &'a [T; N]) -> (r: Self) {
        Map1d(value)
    }
}

impl<'a, T: MapNum, const N: usize> vstd::std_specs::convert::FromSpecImpl<&'a [T; N]> for Map1d<'a, T, N> {
    open spec fn obeys_from_spec() -> bool {
        true
    }

    open spec fn from_spec(v: &'a [T; N]) -> Self {
        Map1d(v)
    }
}

impl<'a, T: MapNum, const N: usize> Map1d<'a, T, N> {
    /// The axis values.
    pub open spec fn axis(&self) -> Seq<int> {
        axis_values(self.0@)
    }

    /// Looks `raw` up on the axis and interpolates between the matching
    /// entries of `z`.
    pub fn interp_1d<V: MapNum, const VS: usize>(&self, raw: T, z: &[V; VS]) -> (r: Ratio)
        requires
            N == VS,
            N >= 2,
        ensures
            r.pair() == map1d_spec(raw.spec_value(), self.axis(), axis_values(z@)),
            r.den > 0,
    {
        let (min_idx, max_idx) = search_value(raw, self.0);
        if min_idx != max_idx {
            interp_linear(raw, self.0[min_idx], self.0[max_idx], z[min_idx], z[max_idx])
        } else {
            Ratio::from_int(z[min_idx].value())
        }
    }
}

/// A two dimensional calibration map: an X axis, a Y axis and (for each
/// lookup) a row-major table of outputs.
pub struct Map2d<'a, const XS: usize, const YS: usize, X: MapNum, Y: MapNum> {
    x: Map1d<'a, X, XS>,
    y: Map1d<'a, Y, YS>,
}

proof fn lemma_grid_index(ya: int, xa: int, xs: int, ys: int)
    requires
        0 <= ya < ys,
        0 <= xa < xs,
    ensures
        0 <= ya * xs + xa < xs * ys,
{
    assert(0 <= ya * xs + xa < xs * ys) by (nonlinear_arith)
        requires
            0 <= ya < ys,
            0 <= xa < xs,
    ;
}

impl<'a, const XS: usize, const YS: usize, X: MapNum, Y: MapNum> Map2d<'a, XS, YS, X, Y> {
    /// The X axis values.
    pub closed spec fn x_axis(&self) -> Seq<int> {
        axis_values(self.x.0@)
    }

    /// The Y axis values.
    pub closed spec fn y_axis(&self) -> Seq<int> {
        axis_values(self.y.0@)
    }

    /// Creates a map over the given axes.
    pub fn new(x_axis: &'a [X; XS], y_axis: &'a [Y; YS]) -> (r: Self)
        ensures
            r.x_axis() == axis_values(x_axis@),
            r.y_axis() == axis_values(y_axis@),
    {
        Self { x: Map1d::from(x_axis), y: Map1d::from(y_axis) }
    }

    /// Bilinear interpolation of `z` at `(x_val, y_val)`.
    pub fn interp<const ZS: usize, Z: MapNum>(&self, x_val: X, y_val: Y, z: &[Z; ZS]) -> (r: Ratio)
        requires
            ZS == XS * YS,
            XS >= 2,
            YS >= 2,
        ensures
            r.pair() == map2d_spec(
                x_val.spec_value(),
                y_val.spec_value(),
                self.x_axis(),
                self.y_axis(),
                axis_values(z@),
            ),
            r.den > 0,
    {
        let (x_min_idx, x_max_idx) = search_value(x_val, self.x.0);
        let (y_min_idx, y_max_idx) = search_value(y_val, self.y.0);
        proof {
            lemma_grid_index(y_min_idx as int, x_min_idx as int, XS as int, YS as int);
            lemma_grid_index(y_min_idx as int, x_max_idx as int, XS as int, YS as int);
            lemma_grid_index(y_max_idx as int, x_min_idx as int, XS as int, YS as int);
            lemma_grid_index(y_max_idx as int, x_max_idx as int, XS as int, YS as int);
        }
        let f_11 = z[(y_min_idx * XS) + x_min_idx];
        let f_12 = z[(y_min_idx * XS) + x_max_idx];
        let f_21 = z[(y_max_idx * XS) + x_min_idx];
        let f_22 = z[(y_max_idx * XS) + x_max_idx];
        let r1 = interp_linear(x_val, self.x.0[x_min_idx], self.x.0[x_max_idx], f_11, f_12);
        let r2 = interp_linear(x_val, self.x.0[x_min_idx], self.x.0[x_max_idx], f_21, f_22);
        proof {
            let xv = x_val.spec_value();
            let x1 = self.x.0[x_min_idx as int].spec_value();
            let x2 = self.x.0[x_max_idx as int].spec_value();
            x_val.lemma_value_range();
            self.x.0[x_min_idx as int].lemma_value_range();
            self.x.0[x_max_idx as int].lemma_value_range();
            f_11.lemma_value_range();
            f_12.lemma_value_range();
            f_21.lemma_value_range();
            f_22.lemma_value_range();
            lemma_lerp_den_shared(xv, x1, x2, f_11.spec_value(), f_12.spec_value(), f_21.spec_value(), f_22.spec_value(), 1);
            lemma_stage_one_bounds(xv, x1, x2, f_11.spec_value(), f_12.spec_value());
            lemma_stage_one_bounds(xv, x1, x2, f_21.spec_value(), f_22.spec_value());
        }
        interp_linear_ratio(y_val, self.y.0[y_min_idx], self.y.0[y_max_idx], r1, r2)
    }
}

proof fn lemma_stage_one_bounds(v: int, x1: int, x2: int, y1: int, y2: int)
    requires
        i32::MIN <= v <= u32::MAX,
        i32::MIN <= x1 <= u32::MAX,
        i32::MIN <= x2 <= u32::MAX,
        i32::MIN <= y1 <= u32::MAX,
        i32::MIN <= y2 <= u32::MAX,
    ensures
        y_ok(lerp(v, x1, x2, y1, y2, 1).0),
        d_ok(lerp(v, x1, x2, y1, y2, 1).1),
{
    if x1 != x2 {
        let xmin = if x1 > x2 { x2 } else { x1 };
        let xmax = if x1 > x2 { x1 } else { x2 };
        let ymin = if x1 > x2 { y2 } else { y1 };
        let ymax = if x1 > x2 { y1 } else { y2 };
        if xmin <= v <= xmax {
            let w = xmax - xmin;
            let dv = v - xmin;
            assert(-0x2_0000_0000_0000_0000 <= ymin * w <= 0x2_0000_0000_0000_0000) by (nonlinear_arith)
                requires
                    0 < w <= 0x2_0000_0000,
                    -0x8000_0000 <= ymin <= 0xFFFF_FFFF,
            ;
            assert(-0x4_0000_0000_0000_0000 <= (ymax - ymin) * dv <= 0x4_0000_0000_0000_0000) by (nonlinear_arith)
                requires
                    0 <= dv <= 0x2_0000_0000,
                    -0x2_0000_0000 <= ymax - ymin <= 0x2_0000_0000,
            ;
        }
    }
}

} // verus!
