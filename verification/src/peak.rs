//! Locating the hottest cell of a temperature grid.

use vstd::prelude::*;

use crate::error::PipelineError;
use crate::thermal::TemperatureGrid;

verus! {

/// The hottest cell of a temperature grid: its column `x`, row `y`, and
/// temperature in temperature units.
#[derive(Clone, Copy, Debug, PartialEq, Eq, Structural)]
pub struct PeakPoint {
    /// Column of the peak, `0 <= x < grid width`.
    pub x: usize,
    /// Row of the peak, `0 <= y < grid height`.
    pub y: usize,
    /// Temperature of the peak, in temperature units.
    pub temp: i32,
}

/// `k` is the index the peak search selects in `s`: it holds the maximum,
/// and every earlier cell is strictly smaller, so the first cell of a
/// row-major scan wins ties (a stable arg-max).
pub open spec fn is_peak_index(s: Seq<i32>, k: int) -> bool {
    &&& 0 <= k < s.len()
    &&& forall|j: int| 0 <= j < s.len() ==> s[j] <= s[k]
    &&& forall|j: int| 0 <= j < k ==> s[j] < s[k]
}

/// Scans the grid in row-major order for its maximum temperature.
///
/// Fails with `PipelineError::EmptyGrid` exactly when the grid has no cells;
/// otherwise it returns the first cell holding the maximum. The grid's cells
/// are exact fixed-point integers, so every pair of cells is comparable and
/// no not-a-number handling arises.
pub fn find_peak(grid: &TemperatureGrid) -> (r: Result<PeakPoint, PipelineError>)
    requires
        grid.wf(),
    ensures
        r is Ok <==> grid.temps@.len() > 0,
        r matches Err(e) ==> e == PipelineError::EmptyGrid,
        r matches Ok(p) ==> {
            &&& p.x < grid.width
            &&& p.y < grid.height
            &&& p.y * grid.width + p.x < grid.temps@.len()
            &&& is_peak_index(grid.temps@, p.y * grid.width + p.x)
            &&& p.temp == grid.temps@[p.y * grid.width + p.x]
        },
{
    let len = grid.temps.len();
    if len == 0 {
        return Err(PipelineError::EmptyGrid);
    }
    let mut best: usize = 0;
    let mut best_temp: i32 = grid.temps[0];
    let mut i: usize = 1;
    while i < len
        invariant
            1 <= i <= len,
            best < i,
            best_temp == grid.temps@[best as int],
            forall|j: int| 0 <= j < i ==> grid.temps@[j] <= best_temp,
            forall|j: int| 0 <= j < best ==> grid.temps@[j] < best_temp,
        decreases len - i,
    {
        let t = grid.temps[i];
        if t > best_temp {
            best = i;
            best_temp = t;
        }
        i += 1;
    }
    let w = grid.width;
    proof {
        assert(grid.width > 0 && grid.height > 0) by (nonlinear_arith)
            requires
                grid.temps@.len() == grid.width * grid.height,
                grid.temps@.len() > 0,
        ;
    }
    let x = best % w;
    let y = best / w;
    proof {
        assert(x < w);
        assert((best as int) / (w as int) < grid.height && (best as int) % (w as int) + ((best as int) / (w as int)) * (w as int) == best as int) by (nonlinear_arith)
            requires
                w > 0,
                0 <= best < grid.temps@.len(),
                grid.temps@.len() == grid.width * grid.height,
                w == grid.width,
        ;
    }
    Ok(PeakPoint { x, y, temp: best_temp })
}

/// A grid with a single strict maximum: the peak search selects that cell,
/// whatever its position in the scan order.
pub proof fn lemma_strict_max_is_peak(s: Seq<i32>, k: int, i: int)
    requires
        0 <= k < s.len(),
        forall|j: int| 0 <= j < s.len() && j != k ==> s[j] < s[k],
        is_peak_index(s, i),
    ensures
        i == k,
{
    if i != k {
        assert(s[i] < s[k]);
        assert(s[k] <= s[i]);
    }
}

/// On a uniform grid the peak search selects the first cell of the scan,
/// the one at column 0, row 0.
pub proof fn lemma_uniform_grid_peak_is_first(s: Seq<i32>, i: int)
    requires
        s.len() > 0,
        forall|j: int| 0 <= j < s.len() ==> #[trigger] s[j] == s[0],
        is_peak_index(s, i),
    ensures
        i == 0,
{
    if i != 0 {
        assert(s[0] < s[i]);
        assert(s[i] == s[0]);
    }
}

} // verus!
