use bootloader::error::{BootError, PathError};
use bootloader::path::firmware_path;

#[test]
fn kernel_path_is_encoded_with_closing_nul() {
    let units = firmware_path("\\kernel.bin").unwrap();
    let expected: Vec<u16> = vec![
        0x5C, 0x6B, 0x65, 0x72, 0x6E, 0x65, 0x6C, 0x2E, 0x62, 0x69, 0x6E, 0,
    ];
    assert_eq!(units, expected);
}

#[test]
fn empty_path_is_a_single_nul() {
    assert_eq!(firmware_path(""), Ok(vec![0u16]));
}

#[test]
fn path_outside_ascii_keeps_its_code_points() {
    assert_eq!(firmware_path("\u{E9}\u{20AC}"), Ok(vec![0x00E9u16, 0x20AC, 0]));
    assert_eq!(firmware_path("\u{FFFF}"), Ok(vec![0xFFFFu16, 0]));
}

#[test]
fn path_with_nul_is_refused() {
    assert_eq!(
        firmware_path("a\0b"),
        Err(BootError::InvalidKernelPath(PathError::InteriorNul))
    );
    assert_eq!(
        firmware_path("\0"),
        Err(BootError::InvalidKernelPath(PathError::InteriorNul))
    );
}

#[test]
fn path_beyond_ucs2_is_refused() {
    assert_eq!(
        firmware_path("a\u{1F600}"),
        Err(BootError::InvalidKernelPath(PathError::InvalidChar))
    );
    assert_eq!(
        firmware_path("\u{10000}"),
        Err(BootError::InvalidKernelPath(PathError::InvalidChar))
    );
}

#[test]
fn first_offending_character_decides_the_error() {
    assert_eq!(
        firmware_path("x\u{1F600}\0"),
        Err(BootError::InvalidKernelPath(PathError::InvalidChar))
    );
    assert_eq!(
        firmware_path("x\0\u{1F600}"),
        Err(BootError::InvalidKernelPath(PathError::InteriorNul))
    );
}
