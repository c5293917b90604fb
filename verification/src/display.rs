use vstd::prelude::*;
use crate::error::BootError;

verus! {

/// Layout of one pixel in framebuffer memory.
#[derive(Clone, Copy, Debug, PartialEq, Eq, Structural)]
pub enum PixelFormat {
    /// 32 bits per pixel: red, green, blue, reserved.
    Rgb,
    /// 32 bits per pixel: blue, green, red, reserved.
    Bgr,
    /// A custom layout given by bit masks.
    Bitmask,
    /// No direct framebuffer access; only block transfers are possible.
    BltOnly,
}

/// What the firmware reports of the active graphics mode.
#[derive(Clone, Copy, Debug, PartialEq, Eq, Structural)]
pub struct GraphicsMode {
    /// Horizontal resolution in pixels.
    pub width: usize,
    /// Vertical resolution in pixels.
    pub height: usize,
    /// Number of pixels from the start of one scanline to the start of the next;
    /// at least `width`, and more where the scanlines are padded.
    pub pixels_per_scanline: usize,
    /// Number of bytes that one pixel takes in the framebuffer.
    pub bytes_per_pixel: usize,
    /// Physical address of the first pixel.
    pub framebuffer: u64,
    /// Layout of one pixel.
    pub pixel_format: PixelFormat,
}

/// The values of the display descriptor handed to the kernel.
///
/// This type fixes what the descriptor says, not how it lies in memory: the
/// program that jumps to the kernel copies these values, in this order, into a
/// structure of fixed layout.
#[derive(Clone, Copy, Debug, PartialEq, Eq, Structural)]
pub struct VBE {
    /// Width of the screen in pixels.
    pub width: usize,
    /// Height of the screen in pixels.
    pub height: usize,
    /// Number of bytes from the start of one scanline to the start of the next.
    pub pitch: usize,
    /// Physical address of the first pixel.
    pub framebuffer: u64,
    /// Layout of one pixel.
    pub pixel_format: PixelFormat,
}

impl VBE {
    /// The descriptor that follows from the firmware's answer to the query for
    /// the active graphics mode.
    ///
    /// The pitch is the scanline's length in bytes: its pixels times the bytes of
    /// one pixel. Where the firmware refused, its status code is handed on; where
    /// the pitch does not fit a `usize`, there is no descriptor.
    pub open spec fn describe(mode: Result<GraphicsMode, usize>) -> Result<VBE, BootError> {
        match mode {
            Ok(m) => if m.pixels_per_scanline * m.bytes_per_pixel <= usize::MAX {
                Ok(
                    VBE {
                        width: m.width,
                        height: m.height,
                        pitch: (m.pixels_per_scanline * m.bytes_per_pixel) as usize,
                        framebuffer: m.framebuffer,
                        pixel_format: m.pixel_format,
                    },
                )
            } else {
                Err(BootError::PitchOverflow)
            },
            Err(status) => Err(BootError::GraphicsUnavailable { status }),
        }
    }

    /// Builds the display descriptor from the firmware's answer to the query for
    /// the active graphics mode: the mode, or the status code of the refusal.
    ///
    /// Fails with `GraphicsUnavailable` and the firmware's status code exactly
    /// when the firmware refused, and with `PitchOverflow` exactly when the
    /// scanline's length in bytes does not fit a `usize`.
    pub fn new(mode: Result<GraphicsMode, usize>) -> (r: Result<VBE, BootError>)
        ensures
            r == VBE::describe(mode),
    {
        match mode {
            Ok(m) => match m.pixels_per_scanline.checked_mul(m.bytes_per_pixel) {
                Some(pitch) => Ok(
                    VBE {
                        width: m.width,
                        height: m.height,
                        pitch,
                        framebuffer: m.framebuffer,
                        pixel_format: m.pixel_format,
                    },
                ),
                None => Err(BootError::PitchOverflow),
            },
            Err(status) => Err(BootError::GraphicsUnavailable { status }),
        }
    }
}

} // verus!
