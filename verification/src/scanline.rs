use crate::trig::sin_milli;
use crate::trig::sin_milli_spec;
use vstd::prelude::*;

verus! {

/// Per-mille opacity of the scanline overlay for a row at an elapsed time:
/// even rows carry none; odd rows breathe slowly between 80 and 150.
pub open spec fn scanline_opacity_spec(row: int, elapsed_ms: int) -> int {
    if row % 2 == 0 {
        0
    } else {
        let phase = (elapsed_ms / 2 + row * 100) % 6284;
        let s = sin_milli_spec(phase);
        let a = if s >= 0 {
            s
        } else {
            -s
        };
        80 + a * 70 / 1000
    }
}

/// Determine the scanline overlay opacity (per mille) for a row at a given
/// elapsed time in milliseconds.
pub fn scanline_opacity(row: u16, elapsed_ms: u64) -> (r: u32)
    ensures
        r == scanline_opacity_spec(row as int, elapsed_ms as int),
        row % 2 == 0 ==> r == 0,
        row % 2 == 1 ==> 0 < r < 500,
{
    if row % 2 == 0 {
        return 0;
    }
    let phase: u32 = ((elapsed_ms / 2 + (row as u64) * 100) % 6284) as u32;
    let s = sin_milli(phase);
    let a: u32 = if s >= 0 {
        s as u32
    } else {
        (-s) as u32
    };
    80 + a * 70 / 1000
}

} // verus!
