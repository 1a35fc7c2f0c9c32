//! Bar-plot geometry.
//!
//! The renderer deterministically maps the latest buffer of fixed-point
//! amplitudes to one vertical bar per sample.  Every coordinate is an
//! exact rational, reported as a numerator/denominator pair: for a canvas
//! of `width x height`, `n` samples and vertical divisor `m` (the
//! buffer's maximum when positive, else one full scale), bar `i` has its
//! center at `x = width*(2i+1) / 2n`, runs from the baseline `height` up
//! to `y = height*(m - v_i) / m`, and is `max(1, width/n - gap)` thick.
//! A value above the divisor never arises, and a negative value yields a
//! top below the baseline — reproduced, not clamped.  The host shell
//! divides the pairs out in floating point when it draws.

use vstd::prelude::*;

verus! {

/// One vertical bar: its center's horizontal position, the vertical
/// position of its top (measured from the canvas top; the bottom is the
/// baseline `height`), and its stroke thickness, each as an exact
/// rational `num / den`.
#[derive(Clone, Copy, PartialEq, Eq, Structural, Debug)]
pub struct Bar {
    pub x_num: u64,
    pub x_den: u64,
    pub top_num: u64,
    pub top_den: u64,
    pub thick_num: u64,
    pub thick_den: u64,
}

/// The largest value in a nonempty amplitude sequence.
pub open spec fn seq_max(s: Seq<i64>) -> int
    decreases s.len(),
{
    if s.len() <= 1 {
        s[0] as int
    } else if s.last() > seq_max(s.drop_last()) {
        s.last() as int
    } else {
        seq_max(s.drop_last())
    }
}

/// The vertical divisor: the buffer's maximum amplitude when that is
/// positive, else one full scale — so the vertical axis is never divided
/// by a non-positive quantity.
pub open spec fn divisor(s: Seq<i64>, scale: u64) -> int {
    if s.len() > 0 && seq_max(s) > 0 {
        seq_max(s)
    } else {
        scale as int
    }
}

/// Numerator of the stroke thickness over the denominator `n`:
/// `max(1, width/n - gap)` as a rational with denominator `n`.
pub open spec fn thickness_num(width: u64, gap: u64, n: int) -> int {
    if width >= gap * n + n {
        width - gap * n
    } else {
        n
    }
}

/// No element of a nonempty sequence exceeds its maximum.
proof fn lemma_seq_max_ge(s: Seq<i64>)
    requires
        s.len() > 0,
    ensures
        forall|i: int| 0 <= i < s.len() ==> s[i] <= seq_max(s),
    decreases s.len(),
{
    if s.len() > 1 {
        lemma_seq_max_ge(s.drop_last());
        assert forall|i: int| 0 <= i < s.len() implies s[i] <= seq_max(s) by {
            if i < s.len() - 1 {
                assert(s[i] == s.drop_last()[i]);
            }
        }
    }
}

/// Maps a buffer of fixed-point amplitudes (numerators over `scale`) to
/// one bar per sample on a `width x height` canvas with the given
/// inter-bar gap.  An empty buffer yields no bars.  Every coordinate of
/// every bar is pinned exactly: with `n` samples and divisor `m`, bar `i`
/// is centered at `width*(2i+1) / 2n`, its top sits at
/// `height*(m - v_i) / m`, and its thickness is
/// `max(n, width - gap*n) / n`.
pub fn render(values: &Vec<i64>, scale: u64, width: u64, height: u64, gap: u64) -> (bars: Vec<
    Bar,
>)
    requires
        1 <= scale <= 0x8000_0000u64,
        width <= 0x8000_0000u64,
        height <= 0x8000_0000u64,
        gap <= 0x8000_0000u64,
        values@.len() <= 0x8000_0000,
        forall|i: int| 0 <= i < values@.len() ==> -0x8000_0000 <= #[trigger] values@[i] <= 0x8000_0000,
    ensures
        bars@.len() == values@.len(),
        forall|i: int|
            #![trigger bars@[i]]
            0 <= i < values@.len() ==> {
                &&& bars@[i].x_num == width * (2 * i + 1)
                &&& bars@[i].x_den == 2 * values@.len()
                &&& bars@[i].top_num == height * (divisor(values@, scale) - values@[i])
                &&& bars@[i].top_den == divisor(values@, scale)
                &&& bars@[i].thick_num == thickness_num(width, gap, values@.len() as int)
                &&& bars@[i].thick_den == values@.len()
            },
{
    let n = values.len();
    let mut bars: Vec<Bar> = Vec::new();
    if n == 0 {
        return bars;
    }
    let mut mx: i64 = values[0];
    let mut k: usize = 1;
    while k < n
        invariant
            1 <= k <= n,
            n == values@.len(),
            forall|i: int| 0 <= i < values@.len() ==> -0x8000_0000 <= #[trigger] values@[i] <= 0x8000_0000,
            -0x8000_0000 <= mx <= 0x8000_0000,
            mx == seq_max(values@.take(k as int)),
        decreases n - k,
    {
        proof {
            assert(values@.take(k as int + 1).drop_last() =~= values@.take(k as int));
            assert(values@.take(k as int + 1).last() == values@[k as int]);
        }
        if values[k] > mx {
            mx = values[k];
        }
        k = k + 1;
    }
    proof {
        assert(values@.take(n as int) =~= values@);
        lemma_seq_max_ge(values@);
    }
    let m: u64 = if mx > 0 {
        mx as u64
    } else {
        scale
    };
    proof {
        assert((gap as int) * (n as int) <= 0x4000_0000_0000_0000int) by (nonlinear_arith)
            requires
                0 <= gap as int <= 0x8000_0000,
                0 <= n as int <= 0x8000_0000;
    }
    let gn: u64 = gap * (n as u64);
    let thick: u64 = if width >= gn + (n as u64) {
        width - gn
    } else {
        n as u64
    };
    let mut i: usize = 0;
    while i < n
        invariant
            i <= n,
            n == values@.len(),
            1 <= n <= 0x8000_0000,
            width <= 0x8000_0000u64,
            height <= 0x8000_0000u64,
            forall|j: int| 0 <= j < values@.len() ==> -0x8000_0000 <= #[trigger] values@[j] <= 0x8000_0000,
            1 <= m <= 0x8000_0000u64,
            m == divisor(values@, scale),
            forall|j: int| 0 <= j < values@.len() ==> #[trigger] values@[j] <= m,
            thick == thickness_num(width, gap, n as int),
            bars@.len() == i,
            forall|j: int|
                #![trigger bars@[j]]
                0 <= j < i ==> {
                    &&& bars@[j].x_num == width * (2 * j + 1)
                    &&& bars@[j].x_den == 2 * values@.len()
                    &&& bars@[j].top_num == height * (divisor(values@, scale) - values@[j])
                    &&& bars@[j].top_den == divisor(values@, scale)
                    &&& bars@[j].thick_num == thickness_num(width, gap, values@.len() as int)
                    &&& bars@[j].thick_den == values@.len()
                },
        decreases n - i,
    {
        let v = values[i];
        let diff: u64 = ((m as i64) - v) as u64;
        proof {
            assert((height as int) * (diff as int) <= 0x8000_0000_0000_0000int) by (nonlinear_arith)
                requires
                    0 <= height as int <= 0x8000_0000,
                    0 <= diff as int <= 0x1_0000_0000;
            assert((width as int) * (2 * (i as int) + 1) < 0x8000_0000_0000_0000int)
                by (nonlinear_arith)
                requires
                    0 <= width as int <= 0x8000_0000,
                    0 <= i as int,
                    (i as int) < 0x8000_0000;
        }
        bars.push(
            Bar {
                x_num: width * (2 * (i as u64) + 1),
                x_den: 2 * (n as u64),
                top_num: height * diff,
                top_den: m,
                thick_num: thick,
                thick_den: n as u64,
            },
        );
        i = i + 1;
    }
    bars
}

} // verus!
