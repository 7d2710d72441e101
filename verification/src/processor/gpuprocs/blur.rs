//! The sizes that a Gaussian blur on a graphics device works with. The
//! picture goes to the device as four bytes a pixel, in a buffer of rows of
//! an aligned length; a compute pass fills a second picture of the same size,
//! which is copied into such a buffer again, and that the host reads back.

use vstd::prelude::*;

use crate::processor::procs::blur::Blur;

verus! {

/// The number of bytes that a pixel takes on the device.
pub const BYTES_PER_PIXEL: u32 = 4;

/// The number that the bytes of a row must be a multiple of, where a picture
/// is copied between a texture and a buffer.
pub const ROW_ALIGNMENT: u32 = 256;

/// The side, in pixels, of the square that one work group of the compute
/// pass fills.
pub const WORKGROUP_SIDE: u32 = 8;

/// The number of bytes that come before the weights in the kernel buffer:
/// the sum of the weights, then the side of the kernel.
pub const KERNEL_HEADER_BYTES: u64 = 8;

/// The least multiple of `step` that is not less than `n`.
pub open spec fn rounded_up(n: nat, step: nat) -> nat {
    (((n + step - 1) / step as int) * step) as nat
}

/// The least number of pieces of `step` that cover `n`.
pub open spec fn pieces(n: nat, step: nat) -> nat {
    ((n + step - 1) / step as int) as nat
}

/// The sizes that a blur of a picture is laid out with.
#[derive(Debug, PartialEq, Eq, Clone, Copy, Structural)]
pub struct Layout {
    /// The side of the square kernel.
    pub kernel_size: u32,
    /// The number of bytes of the kernel buffer: its header and one weight
    /// of four bytes for each cell of the kernel.
    pub kernel_bytes: u64,
    /// The number of bytes of the picture at four bytes a pixel, before its
    /// rows are laid out.
    pub input_bytes: u64,
    /// The number of bytes from one row to the next in the buffers that the
    /// picture is copied through.
    pub bytes_per_row: u32,
    /// The number of bytes of a buffer that holds the rows of the picture:
    /// of the one that the picture goes to the device in, and of the one that
    /// the host reads back.
    pub readback_bytes: u64,
    /// The number of work groups across.
    pub workgroups_x: u32,
    /// The number of work groups down.
    pub workgroups_y: u32,
}

impl Layout {
    /// The layout of a blur of the given radius on a picture of the given
    /// size.
    pub open spec fn of(radius: u16, width: u32, height: u32) -> Layout {
        let side = 2 * radius + 1;
        let row = rounded_up((BYTES_PER_PIXEL * width) as nat, ROW_ALIGNMENT as nat);
        Layout {
            kernel_size: side as u32,
            kernel_bytes: (KERNEL_HEADER_BYTES + 4 * side * side) as u64,
            input_bytes: (BYTES_PER_PIXEL * width * height) as u64,
            bytes_per_row: row as u32,
            readback_bytes: (row * height) as u64,
            workgroups_x: pieces(width as nat, WORKGROUP_SIDE as nat) as u32,
            workgroups_y: pieces(height as nat, WORKGROUP_SIDE as nat) as u32,
        }
    }

    /// Whether a row of a picture of the given width, brought to the
    /// alignment, has a number of bytes that fits in 32 bits.
    pub open spec fn fits(width: u32) -> bool {
        rounded_up((BYTES_PER_PIXEL * width) as nat, ROW_ALIGNMENT as nat) <= u32::MAX
    }

    /// Whether a row of a picture of the given width can be laid out.
    pub fn can_lay_out(width: u32) -> (can: bool)
        ensures
            can == Layout::fits(width),
    {
        let row: u64 = aligned_row(width);
        row <= 0xFFFF_FFFF
    }
}

/// The number of bytes of a row of the given width, brought to the alignment.
fn aligned_row(width: u32) -> (row: u64)
    ensures
        row == rounded_up((BYTES_PER_PIXEL * width) as nat, ROW_ALIGNMENT as nat),
        row >= BYTES_PER_PIXEL * width,
        row % 256 == 0,
        row < BYTES_PER_PIXEL * width + ROW_ALIGNMENT,
{
    let bytes: u64 = 4 * (width as u64);
    let row: u64 = ((bytes + 255) / 256) * 256;
    row
}

impl Blur {
    /// The side of the square kernel that the blur is carried out with: the
    /// radius, on either side of the pixel in the middle.
    pub fn kernel_size(&self) -> (side: u32)
        ensures
            side == 2 * self.spec_clamped_radius() + 1,
    {
        2 * (self.clamped_radius() as u32) + 1
    }

    /// The layout of the blur on a picture of the given size.
    pub fn layout(&self, width: u32, height: u32) -> (layout: Layout)
        requires
            Layout::fits(width),
        ensures
            layout == Layout::of(self.spec_clamped_radius(), width, height),
            layout.bytes_per_row % ROW_ALIGNMENT == 0,
            BYTES_PER_PIXEL * width <= layout.bytes_per_row,
            layout.bytes_per_row < BYTES_PER_PIXEL * width + ROW_ALIGNMENT,
            WORKGROUP_SIDE * layout.workgroups_x >= width,
            WORKGROUP_SIDE * layout.workgroups_y >= height,
    {
        let side: u64 = self.kernel_size() as u64;
        let row: u64 = aligned_row(width);
        assert(side * side <= 4001 * 4001) by (nonlinear_arith)
            requires
                side <= 4001,
        ;
        let cells: u64 = side * side;
        assert(row * height <= 0xFFFF_FFFF * 0xFFFF_FFFF && 4 * width * height <= row * height)
            by (nonlinear_arith)
            requires
                4 * width <= row <= 0xFFFF_FFFF,
                0 <= height <= 0xFFFF_FFFF,
                0 <= width,
        ;
        let readback_bytes: u64 = row * (height as u64);
        assert(4 * (width * height) == 4 * width * height) by (nonlinear_arith);
        let pixels: u64 = (width as u64) * (height as u64);
        assert(4 * cells == 4 * side * side) by (nonlinear_arith)
            requires
                cells == side * side,
        ;
        Layout {
            kernel_size: side as u32,
            kernel_bytes: 8 + 4 * cells,
            input_bytes: 4 * pixels,
            bytes_per_row: row as u32,
            readback_bytes,
            workgroups_x: (((width as u64) + 7) / 8) as u32,
            workgroups_y: (((height as u64) + 7) / 8) as u32,
        }
    }
}

} // verus!
