//! Display geometry and the fixed layout of the memory regions.

use vstd::prelude::*;

verus! {

/// Width of the display in pixels.
pub const WIDTH: usize = 320;

/// Height of the display in pixels.
pub const HEIGHT: usize = 240;

/// Bytes in one display frame: one byte per pixel, row-major.
pub const FRAME_SIZE: usize = 76800;

/// Capacity of the data segment in bytes.
pub const DATA_SIZE: usize = 128;

/// Offset of frame slot 0 within the display region.
pub const FRAME_0: usize = 0;

/// Offset of frame slot 1 within the display region.
pub const FRAME_1: usize = 0x10_0000;

/// Offset of the frame-select control word within the display region.
pub const FRAME_SELECT: usize = 0x20_0604;

/// Bytes reserved for the control area that starts at `FRAME_SELECT`.
pub const CONTROL_SIZE: usize = 4;

/// Total size of the display region: both frame slots, the gap between
/// them and the control area.
pub const MMIO_SIZE: usize = 0x20_0608;

/// Number of registers in each of the integer and floating-point banks.
pub const REGISTER_COUNT: usize = 32;

/// The layout is self-consistent: a frame is `WIDTH * HEIGHT` bytes, the two
/// slots do not overlap, and the control area lies behind both slots and
/// inside the region.
pub proof fn lemma_layout_consistent()
    ensures
        FRAME_SIZE == WIDTH * HEIGHT,
        FRAME_0 + FRAME_SIZE <= FRAME_1,
        FRAME_1 + FRAME_SIZE <= FRAME_SELECT,
        FRAME_SELECT + CONTROL_SIZE == MMIO_SIZE,
        MMIO_SIZE >= 2 * FRAME_SIZE + CONTROL_SIZE,
{
}

} // verus!
