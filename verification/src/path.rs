use vstd::prelude::*;
use crate::error::{BootError, PathError};
use uefi::data_types::FromStrError;
use uefi::CString16;

verus! {

/// The UCS-2 form of a path: one unit per character and a closing NUL.
///
/// The first character that is NUL or lies outside the Basic Multilingual Plane
/// decides the error.
pub open spec fn ucs2_encode(path: Seq<char>) -> Result<Seq<u16>, PathError>
    decreases path.len(),
{
    if path.len() == 0 {
        Ok(seq![0u16])
    } else if path[0] as u32 > 0xFFFF {
        Err(PathError::InvalidChar)
    } else if path[0] == '\0' {
        Err(PathError::InteriorNul)
    } else {
        match ucs2_encode(path.skip(1)) {
            Ok(rest) => Ok(seq![path[0] as u32 as u16] + rest),
            Err(e) => Err(e),
        }
    }
}

/// What `firmware_path` returns for a path.
pub open spec fn firmware_path_spec(path: Seq<char>) -> Result<Seq<u16>, BootError> {
    match ucs2_encode(path) {
        Ok(units) => Ok(units),
        Err(e) => Err(BootError::InvalidKernelPath(e)),
    }
}

/// Calls `uefi::CString16::try_from(&str)` and hands out the units of the string
/// it built, closing NUL included.
///
/// Trusted: that conversion walks the UTF-16 units of the path, gives
/// `InvalidChar` at the first surrogate and `InteriorNul` at the first zero unit,
/// and otherwise keeps every unit and appends one NUL.
#[verifier::external_body]
fn encode_ucs2(path: &str) -> (r: Result<Vec<u16>, PathError>)
    ensures
        match r {
            Ok(units) => ucs2_encode(path@) == Ok::<Seq<u16>, PathError>(units@),
            Err(e) => ucs2_encode(path@) == Err::<Seq<u16>, PathError>(e),
        },
{
    match CString16::try_from(path) {
        Ok(s) => Ok(s.to_u16_slice_with_nul().to_vec()),
        Err(FromStrError::InvalidChar) => Err(PathError::InvalidChar),
        Err(FromStrError::InteriorNul) => Err(PathError::InteriorNul),
    }
}

/// Turns a kernel path into the NUL-terminated UCS-2 string that the firmware's
/// file system takes.
///
/// Fails with `InvalidKernelPath` exactly when the path has no such form.
pub fn firmware_path(path: &str) -> (r: Result<Vec<u16>, BootError>)
    ensures
        match r {
            Ok(units) => firmware_path_spec(path@) == Ok::<Seq<u16>, BootError>(units@),
            Err(e) => firmware_path_spec(path@) == Err::<Seq<u16>, BootError>(e),
        },
{
    match encode_ucs2(path) {
        Ok(units) => Ok(units),
        Err(e) => Err(BootError::InvalidKernelPath(e)),
    }
}

} // verus!
