//! The sample window of the local fits behind the impedance derivative.
//!
//! Around each point the fit uses the samples whose log-time lies within
//! the window length; the window is then widened to hold at least the
//! minimum number of samples and shifted to lie inside the data.
use vstd::prelude::*;

verus! {

/// How many samples the window grows by on each side so that its size
/// reaches `minimum` (it grows one sample on each side at a time).
pub open spec fn window_growth(span: int, minimum: int) -> int {
    if span >= minimum {
        0
    } else {
        (minimum - span + 1) / 2
    }
}

/// The window `[low, up)` after growing it to at least `minimum` samples,
/// shifting it right until it starts at or after zero, then shifting it
/// left until it ends at or before `len`.
pub open spec fn fit_window_spec(low: int, up: int, minimum: int, len: int) -> (int, int) {
    let k = window_growth(up - low, minimum);
    let low1 = low - k;
    let up1 = up + k;
    let s = if low1 < 0 {
        -low1
    } else {
        0
    };
    let low2 = low1 + s;
    let up2 = up1 + s;
    let t = if up2 > len {
        up2 - len
    } else {
        0
    };
    (low2 - t, up2 - t)
}

/// How the window of a local fit is placed, for every window that the data
/// can hold once grown: it lies inside the data; it is the window itself when
/// that already holds `minimum` samples; otherwise it grows by as many samples
/// below as above, to `minimum` samples or one more (so it keeps the parity
/// of its size); and it stays centred on the window it grew from unless it
/// had to be moved to touch an end of the data.
pub proof fn lemma_fit_window_grows_evenly(low: int, up: int, minimum: int, len: int)
    requires
        0 <= low < up <= len + 1,
        (up - low) + 2 * window_growth(up - low, minimum) <= len,
    ensures
        ({
            let (a, b) = fit_window_spec(low, up, minimum, len);
            &&& 0 <= a <= b <= len
            &&& up - low >= minimum ==> b - a == up - low
            &&& up - low < minimum ==> b - a >= minimum && b - a <= minimum + 1 && (b - a - (
                up - low)) % 2 == 0
            &&& a + b == low + up || a == 0 || b == len
            &&& up <= len && up - low >= minimum ==> a == low && b == up
        }),
{
}

/// Grows and shifts the window `[low, up)` of a local fit over `len`
/// samples; see [`fit_window_spec`]. The grown window must fit in the data.
pub fn fit_window(low: usize, up: usize, minimum_window_size: usize, len: usize) -> (r: (
    usize,
    usize,
))
    requires
        low < up <= len + 1,
        (up - low) + 2 * window_growth(up - low, minimum_window_size as int) <= len,
        2 * len + 2 <= isize::MAX,
    ensures
        (r.0 as int, r.1 as int) == fit_window_spec(
            low as int,
            up as int,
            minimum_window_size as int,
            len as int,
        ),
        r.0 <= r.1 <= len,
        r.1 - r.0 >= minimum_window_size,
        r.1 - r.0 == (up - low) + 2 * window_growth(up - low, minimum_window_size as int),
{
    let ghost k = window_growth(up - low, minimum_window_size as int);
    let mut up_bound: isize = up as isize;
    let mut low_bound: isize = low as isize;
    let min_size: isize = minimum_window_size as isize;
    let lent: isize = len as isize;
    let ghost mut j: int = 0;
    while up_bound - low_bound < min_size
        invariant
            0 <= j <= k,
            low < up <= len + 1,
            low_bound == low - j,
            up_bound == up + j,
            min_size == minimum_window_size,
            (up - low) + 2 * k <= len,
            2 * len + 2 <= isize::MAX,
            k == window_growth(up - low, minimum_window_size as int),
        decreases k - j,
    {
        up_bound = up_bound + 1;
        low_bound = low_bound - 1;
        proof {
            j = j + 1;
        }
    }
    assert(j == k);
    let ghost low1 = low - k;
    let ghost up1 = up + k;
    let ghost s = if low1 < 0 {
        -low1
    } else {
        0
    };
    while low_bound < 0
        invariant
            low1 <= low_bound <= low1 + s,
            up_bound - low_bound == up1 - low1,
            low_bound < 0 ==> low_bound < low1 + s,
            low_bound >= 0 ==> low_bound == low1 + s,
            s == (if low1 < 0 {
                -low1
            } else {
                0
            }),
            up1 - low1 <= len,
            -(len as int) <= low1 <= len,
            2 * len + 2 <= isize::MAX,
        decreases 0 - low_bound,
    {
        up_bound = up_bound + 1;
        low_bound = low_bound + 1;
    }
    let ghost up2 = up1 + s;
    let ghost t = if up2 > len {
        up2 - len
    } else {
        0
    };
    while up_bound > lent
        invariant
            lent == len,
            up_bound - low_bound == up2 - (low1 + s),
            up2 - t <= up_bound <= up2,
            up_bound > lent ==> up_bound > up2 - t,
            up_bound <= lent ==> up_bound == up2 - t,
            t == (if up2 > len {
                up2 - len
            } else {
                0
            }),
            0 <= low1 + s,
            up2 - (low1 + s) <= len,
            up2 <= 2 * len + 1,
            2 * len + 2 <= isize::MAX,
        decreases up_bound - lent,
    {
        up_bound = up_bound - 1;
        low_bound = low_bound - 1;
    }
    (low_bound as usize, up_bound as usize)
}

} // verus!
