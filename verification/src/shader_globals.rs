//! The globals uniform: the small per-frame record (elapsed time and cursor
//! position in normalized device coordinates) that every shader stage of
//! every pass reads.
//!
//! The GPU-side record holds 32-bit scalars; here each field is kept as a
//! plain integer value. Time is milliseconds since the start of the run, and
//! a cursor coordinate is the exact rational `num / den` produced by the
//! pixel-to-NDC mapping. The shell divides these out into the float record it
//! uploads, so every property proved here is about the exact values.

use vstd::prelude::*;

verus! {

/// Byte size of the GPU-side globals record: four 32-bit scalars (time,
/// cursor x, cursor y, and one padding scalar). The padding exists solely so
/// that the record meets the 16-byte uniform-buffer alignment rule.
pub const GLOBALS_BYTE_SIZE: u64 = 16;

/// A normalized device coordinate, kept as the exact rational `num / den`.
///
/// The pixel-to-NDC mapping produces `2 * p / extent - 1`, which is the
/// rational `(2 * p - extent) / extent`; keeping numerator and denominator
/// avoids rounding and makes the mapping exactly checkable.
#[derive(Clone, Copy, Debug, PartialEq, Eq, Structural)]
pub struct NdcCoord {
    pub num: i64,
    pub den: u32,
}

impl NdcCoord {
    /// A coordinate is well formed when its denominator is positive.
    pub open spec fn wf(self) -> bool {
        self.den > 0
    }
}

/// The NDC coordinate of pixel position `p` on an axis of `extent` pixels:
/// the exact value `2 * p / extent - 1`.
pub open spec fn ndc_of_pixel(p: int, extent: int) -> NdcCoord {
    NdcCoord { num: (2 * p - extent) as i64, den: extent as u32 }
}

/// Largest pixel magnitude the mapping accepts; keeps `2 * p - extent`
/// within `i64`. Far beyond any real screen coordinate.
pub const MAX_PIXEL_COORD: i64 = 0x2000_0000_0000_0000;

/// Map a pixel position to its normalized device coordinate.
///
/// The position may lie outside `0..extent` (a drag that leaves the window);
/// the result is then outside `[-1, 1]`, deliberately unclamped.
pub fn cursor_from_pixel(p: i64, extent: u32) -> (r: NdcCoord)
    requires
        extent > 0,
        -MAX_PIXEL_COORD <= p <= MAX_PIXEL_COORD,
    ensures
        r == ndc_of_pixel(p as int, extent as int),
        r.num == 2 * p - extent,
        r.den == extent,
        r.wf(),
{
    NdcCoord { num: 2 * p - (extent as i64), den: extent }
}

/// The per-frame globals record, shared read-only by all shader stages.
#[derive(Clone, Copy, Debug, PartialEq, Eq, Structural)]
pub struct Globals {
    /// Milliseconds since the start of the run.
    pub time_millis: u64,
    /// Cursor x in normalized device coordinates.
    pub cursor_x: NdcCoord,
    /// Cursor y in normalized device coordinates.
    pub cursor_y: NdcCoord,
}

/// `g` with its time replaced and both cursor fields kept.
pub open spec fn with_time(g: Globals, time_millis: u64) -> Globals {
    Globals { time_millis, cursor_x: g.cursor_x, cursor_y: g.cursor_y }
}

/// `g` with both cursor fields replaced and its time kept.
pub open spec fn with_cursor(g: Globals, x: NdcCoord, y: NdcCoord) -> Globals {
    Globals { time_millis: g.time_millis, cursor_x: x, cursor_y: y }
}

/// The startup record: all scalars zero (a zero coordinate is the rational
/// `0 / 1`).
pub open spec fn initial_globals() -> Globals {
    Globals {
        time_millis: 0,
        cursor_x: NdcCoord { num: 0, den: 1 },
        cursor_y: NdcCoord { num: 0, den: 1 },
    }
}

impl Globals {
    pub open spec fn wf(self) -> bool {
        self.cursor_x.wf() && self.cursor_y.wf()
    }

    /// The startup record: all scalars zero (a zero coordinate is the
    /// rational `0 / 1`).
    pub fn new() -> (r: Globals)
        ensures
            r == initial_globals(),
            r.time_millis == 0,
            r.cursor_x == (NdcCoord { num: 0, den: 1 }),
            r.cursor_y == (NdcCoord { num: 0, den: 1 }),
            r.wf(),
    {
        Globals {
            time_millis: 0,
            cursor_x: NdcCoord { num: 0, den: 1 },
            cursor_y: NdcCoord { num: 0, den: 1 },
        }
    }

    /// Replace the time field; the cursor fields are untouched.
    pub fn set_time(&mut self, time_millis: u64)
        ensures
            *final(self) == with_time(*old(self), time_millis),
    {
        self.time_millis = time_millis;
    }

    /// Replace both cursor fields with the NDC image of pixel position
    /// `(x, y)` on a surface of `width` by `height` pixels; the time field
    /// is untouched. No clamping: positions outside the surface yield
    /// coordinates outside `[-1, 1]`.
    pub fn set_cursor(&mut self, x: i64, y: i64, width: u32, height: u32)
        requires
            width > 0,
            height > 0,
            -MAX_PIXEL_COORD <= x <= MAX_PIXEL_COORD,
            -MAX_PIXEL_COORD <= y <= MAX_PIXEL_COORD,
        ensures
            *final(self) == with_cursor(
                *old(self),
                ndc_of_pixel(x as int, width as int),
                ndc_of_pixel(y as int, height as int),
            ),
            final(self).cursor_x.num == 2 * x - width,
            final(self).cursor_x.den == width,
            final(self).cursor_y.num == 2 * y - height,
            final(self).cursor_y.den == height,
    {
        self.cursor_x = cursor_from_pixel(x, width);
        self.cursor_y = cursor_from_pixel(y, height);
    }
}

/// The time field never decreases across consecutive updates: when the
/// elapsed-time readings handed to two successive `set_time` calls are in
/// order (as readings of a clock measuring one run are), so are the stored
/// times. Each update replaces the full record, so the cursor fields carry
/// over unchanged from the latest cursor write and nothing stale leaks in.
pub proof fn lemma_time_monotone(g: Globals, t1: u64, t2: u64)
    requires
        t1 <= t2,
    ensures
        with_time(with_time(g, t1), t2).time_millis >= with_time(g, t1).time_millis,
        with_time(with_time(g, t1), t2).cursor_x == g.cursor_x,
        with_time(with_time(g, t1), t2).cursor_y == g.cursor_y,
{
}

/// The GPU-side globals record meets the 16-byte uniform-buffer alignment
/// rule.
pub proof fn lemma_globals_size_aligned()
    ensures
        GLOBALS_BYTE_SIZE % 16 == 0,
{
}

} // verus!
