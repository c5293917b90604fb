use vstd::prelude::*;

verus! {

/// Why a kernel path cannot be handed to the firmware as a UCS-2 string.
#[derive(Clone, Copy, Debug, PartialEq, Eq, Structural)]
pub enum PathError {
    /// A character lies outside the Basic Multilingual Plane.
    InvalidChar,
    /// The path holds a NUL character.
    InteriorNul,
}

/// Why the firmware's file system did not hand out the kernel file.
#[derive(Clone, Copy, Debug, PartialEq, Eq, Structural)]
pub enum ReadError {
    /// The firmware refused an operation on the file, with this status code.
    Io { status: usize },
    /// The file system does not take the path.
    Path,
    /// The contents could not be decoded.
    Utf8Encoding,
}

/// The fatal conditions that end a boot attempt.
#[derive(Clone, Copy, Debug, PartialEq, Eq, Structural)]
pub enum BootError {
    /// The firmware exposes no graphics capability; `status` is the status code
    /// with which it refused.
    GraphicsUnavailable { status: usize },
    /// One scanline of the reported mode has more bytes than can be counted.
    PitchOverflow,
    /// The kernel path has no UCS-2 form.
    InvalidKernelPath(PathError),
    /// The kernel path did not resolve, or the read failed.
    KernelUnreadable(ReadError),
    /// The firmware refused the fixed address range; `status` is the status code
    /// with which it refused.
    AllocationConflict { status: usize },
    /// The firmware granted pages at another address than the one asked for.
    AddressSubstituted { granted: u64 },
    /// The firmware refused to terminate its boot services.
    TerminationFailed,
    /// Something was asked of the boot sequence after firmware services ended.
    ServicesTerminated,
    /// An event arrived that does not answer the action last handed out.
    OutOfOrder,
}

} // verus!
