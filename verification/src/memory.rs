use vstd::prelude::*;
use crate::error::BootError;

verus! {

/// Size in bytes of one page of physical memory.
pub const PAGE_SIZE: usize = 4096;

/// How a range of physical memory is classified in the firmware's memory map.
#[derive(Clone, Copy, Debug, PartialEq, Eq, Structural)]
pub enum MemoryType {
    /// Code of the loaded image.
    LoaderCode,
    /// Data of the loaded image.
    LoaderData,
}

/// Number of whole pages needed to hold `len` bytes: `len / 4096`, rounded up.
pub open spec fn pages_for(len: nat) -> nat {
    ((len + 4095) / 4096) as nat
}

/// `pages_for(len)` pages hold `len` bytes, and no smaller number of pages does.
pub proof fn lemma_pages_for_is_ceiling(len: nat, n: nat)
    ensures
        pages_for(len) * 4096 >= len,
        n * 4096 >= len ==> n >= pages_for(len),
        len > 0 ==> (pages_for(len) - 1) * 4096 < len,
        len == 0 ==> pages_for(len) == 0,
{
}

/// Computes the number of pages that hold an image of `len` bytes.
pub fn page_count(len: usize) -> (count: usize)
    ensures
        count == pages_for(len as nat),
{
    let whole: usize = len / PAGE_SIZE;
    if len % PAGE_SIZE == 0 {
        whole
    } else {
        whole + 1
    }
}

/// An exclusive claim on a range of physical memory that starts at a fixed address.
#[derive(Clone, Copy, Debug, PartialEq, Eq, Structural)]
pub struct PhysicalReservation {
    /// Physical address of the first byte.
    pub base: u64,
    /// Number of pages claimed.
    pub page_count: usize,
    /// Classification under which the firmware records the range.
    pub memory_type: MemoryType,
}

impl PhysicalReservation {
    /// The reservation is sized for an image of `image_len` bytes.
    pub open spec fn holds(self, image_len: nat) -> bool {
        self.page_count == pages_for(image_len)
    }

    /// The reservation that follows from what the firmware answered to a request
    /// for `pages_for(image_len)` pages at `base`: the claim on exactly that range
    /// where the firmware granted `base`, and no reservation in every other case.
    pub open spec fn granted(
        base: u64,
        image_len: nat,
        memory_type: MemoryType,
        answer: Result<u64, usize>,
    ) -> Result<PhysicalReservation, BootError> {
        match answer {
            Ok(address) => if address == base {
                Ok(
                    PhysicalReservation {
                        base,
                        page_count: pages_for(image_len) as usize,
                        memory_type,
                    },
                )
            } else {
                Err(BootError::AddressSubstituted { granted: address })
            },
            Err(status) => Err(BootError::AllocationConflict { status }),
        }
    }

    /// Judges the firmware's answer to a request for the pages of an image of
    /// `image_len` bytes at the fixed address `base`.
    ///
    /// `answer` is the address that the firmware granted, or the status code with
    /// which it refused. The reservation is made only at `base` itself: a refusal
    /// is an `AllocationConflict` with the firmware's status code, and any other
    /// address is an `AddressSubstituted`.
    pub fn reserve(
        base: u64,
        image_len: usize,
        memory_type: MemoryType,
        answer: Result<u64, usize>,
    ) -> (r: Result<PhysicalReservation, BootError>)
        ensures
            r == PhysicalReservation::granted(base, image_len as nat, memory_type, answer),
            r is Ok <==> answer == Ok::<u64, usize>(base),
            r is Ok ==> r->Ok_0.base == base,
            r is Ok ==> r->Ok_0.holds(image_len as nat),
    {
        match answer {
            Ok(address) => {
                if address == base {
                    Ok(PhysicalReservation { base, page_count: page_count(image_len), memory_type })
                } else {
                    Err(BootError::AddressSubstituted { granted: address })
                }
            },
            Err(status) => Err(BootError::AllocationConflict { status }),
        }
    }
}

/// Copies the image to the start of the reserved memory.
///
/// Afterwards the first `image.len()` bytes of `region` are those of the image,
/// in order, and the bytes behind them are as they were.
pub fn place_image(image: &[u8], region: &mut [u8])
    requires
        image@.len() <= old(region)@.len(),
    ensures
        final(region)@.len() == old(region)@.len(),
        final(region)@.subrange(0, image@.len() as int) == image@,
        final(region)@.subrange(image@.len() as int, old(region)@.len() as int) == old(
            region,
        )@.subrange(image@.len() as int, old(region)@.len() as int),
{
    let mut i: usize = 0;
    while i < image.len()
        invariant
            i <= image@.len() <= region@.len(),
            region@.len() == old(region)@.len(),
            region@.subrange(0, i as int) == image@.subrange(0, i as int),
            region@.subrange(image@.len() as int, region@.len() as int) == old(region)@.subrange(
                image@.len() as int,
                old(region)@.len() as int,
            ),
        decreases image@.len() - i,
    {
        region[i] = image[i];
        i += 1;
    }
}

} // verus!
