//! Decoding raw thermal samples into exact fixed-point Celsius values.

use vstd::prelude::*;

use crate::error::PipelineError;
use crate::frame::{byte_len_matches, ThermalRegion};

verus! {

/// Number of temperature units per degree Celsius.
///
/// The device's calibration formula, `raw / 64 - 273.15` degrees Celsius, is
/// for every raw sample a rational number with denominator 6400, so the
/// library stores temperatures exactly, in units of 1/6400 degree:
/// `raw / 64 - 273.15 == (raw * 100 - 1748160) / 6400`.
pub const UNITS_PER_CELSIUS: i32 = 6400;

/// Temperature units contributed by one raw count: 6400 / 64.
pub const UNITS_PER_RAW: i32 = 100;

/// The calibration offset, 273.15 degrees Celsius, in temperature units.
pub const OFFSET_UNITS: i32 = 1748160;

/// The raw magnitude encoded by a two-byte sample: `b1` in the second-lowest
/// byte position and `b0` in the lowest of an otherwise zero value.
pub open spec fn raw_of(b0: u8, b1: u8) -> int {
    b1 * 256 + b0
}

/// The calibrated temperature of a raw magnitude, in temperature units: the
/// exact value of `raw / 64 - 273.15` degrees Celsius.
pub open spec fn temp_units_of(raw: int) -> int {
    raw * UNITS_PER_RAW - OFFSET_UNITS
}

/// Decodes one two-byte thermal sample into temperature units.
pub fn decode_sample(b0: u8, b1: u8) -> (t: i32)
    ensures
        t == temp_units_of(raw_of(b0, b1)),
{
    let raw: i32 = (b1 as i32) * 256 + (b0 as i32);
    raw * UNITS_PER_RAW - OFFSET_UNITS
}

/// The grid of calibrated temperatures decoded from a thermal region, one
/// cell per sample, in the region's row/column order.
///
/// Cells hold exact fixed-point values in units of 1/6400 degree Celsius
/// (see [`UNITS_PER_CELSIUS`]), so every cell is an ordinary integer: the
/// grid can never hold a not-a-number value, and comparisons between cells
/// are always defined.
pub struct TemperatureGrid {
    /// Width of the grid, in cells.
    pub width: usize,
    /// Height of the grid, in cells.
    pub height: usize,
    /// The cells, row-major, in temperature units.
    pub temps: Vec<i32>,
}

impl TemperatureGrid {
    /// The cell count matches the grid's geometry.
    pub open spec fn wf(&self) -> bool {
        self.temps@.len() == self.width * self.height
    }
}

/// The sequence of temperatures (in temperature units) encoded by a thermal
/// byte sequence, one per two-byte sample.
pub open spec fn decoded_temps(bytes: Seq<u8>) -> Seq<int> {
    Seq::new((bytes.len() / 2) as nat, |i: int| temp_units_of(raw_of(bytes[2 * i], bytes[2 * i + 1])))
}

/// Decodes a thermal region into its temperature grid.
///
/// Fails with `PipelineError::Decode` exactly when the region's byte length
/// is not two bytes per sample; otherwise every cell equals the calibrated
/// temperature of its source sample.
pub fn decode_thermal(region: &ThermalRegion) -> (r: Result<TemperatureGrid, PipelineError>)
    ensures
        r is Ok <==> region.wf(),
        r matches Err(e) ==> e == PipelineError::Decode,
        r matches Ok(g) ==> {
            &&& g.wf()
            &&& g.width == region.width
            &&& g.height == region.height
            &&& forall|i: int|
                0 <= i < g.temps@.len() ==> g.temps@[i] == decoded_temps(region.bytes@)[i]
        },
{
    if !byte_len_matches(region.bytes.len(), region.width, region.height) {
        return Err(PipelineError::Decode);
    }
    let samples: usize = region.bytes.len() / 2;
    let mut temps: Vec<i32> = Vec::new();
    let mut i: usize = 0;
    while i < samples
        invariant
            i <= samples,
            temps@.len() == i,
            forall|j: int| 0 <= j < i ==> temps@[j] == decoded_temps(region.bytes@)[j],
        decreases samples - i,
    {
        let b0 = region.bytes[2 * i];
        let b1 = region.bytes[2 * i + 1];
        temps.push(decode_sample(b0, b1));
        i += 1;
    }
    proof {
        assert(2 * (region.width * region.height) == 2 * region.width * region.height)
            by (nonlinear_arith);
        assert(samples == region.width * region.height);
    }
    Ok(TemperatureGrid { width: region.width, height: region.height, temps })
}

/// An all-zero thermal byte buffer decodes to absolute zero everywhere:
/// every decoded cell is exactly -273.15 degrees Celsius, which the grid
/// stores as `-OFFSET_UNITS` temperature units.
pub proof fn lemma_all_zero_decodes_to_absolute_zero(bytes: Seq<u8>, i: int)
    requires
        forall|j: int| 0 <= j < bytes.len() ==> bytes[j] == 0,
        0 <= i < decoded_temps(bytes).len(),
    ensures
        decoded_temps(bytes)[i] == -(OFFSET_UNITS as int),
{
    assert(0 <= 2 * i < bytes.len());
    assert(0 <= 2 * i + 1 < bytes.len());
    assert(bytes[2 * i] == 0);
    assert(bytes[2 * i + 1] == 0);
}

} // verus!
