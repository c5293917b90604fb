use bootloader::display::{GraphicsMode, PixelFormat, VBE};
use bootloader::error::BootError;

#[test]
fn descriptor_of_640_by_480_has_pitch_in_bytes() {
    let mode = GraphicsMode {
        width: 640,
        height: 480,
        pixels_per_scanline: 640,
        bytes_per_pixel: 4,
        framebuffer: 0x8000_0000,
        pixel_format: PixelFormat::Rgb,
    };
    assert_eq!(
        VBE::new(Ok(mode)),
        Ok(VBE {
            width: 640,
            height: 480,
            pitch: 2560,
            framebuffer: 0x8000_0000,
            pixel_format: PixelFormat::Rgb,
        })
    );
}

#[test]
fn descriptor_of_padded_scanline_counts_the_padding() {
    let mode = GraphicsMode {
        width: 800,
        height: 600,
        pixels_per_scanline: 832,
        bytes_per_pixel: 4,
        framebuffer: 0xC000_0000,
        pixel_format: PixelFormat::Bgr,
    };
    assert_eq!(
        VBE::new(Ok(mode)),
        Ok(VBE {
            width: 800,
            height: 600,
            pitch: 3328,
            framebuffer: 0xC000_0000,
            pixel_format: PixelFormat::Bgr,
        })
    );
}

#[test]
fn descriptor_does_not_mix_up_its_fields() {
    let mode = GraphicsMode {
        width: 1,
        height: 2,
        pixels_per_scanline: 3,
        bytes_per_pixel: 5,
        framebuffer: 7,
        pixel_format: PixelFormat::BltOnly,
    };
    let vbe = VBE::new(Ok(mode)).unwrap();
    assert_eq!(vbe.width, 1);
    assert_eq!(vbe.height, 2);
    assert_eq!(vbe.pitch, 15);
    assert_eq!(vbe.framebuffer, 7);
    assert_eq!(vbe.pixel_format, PixelFormat::BltOnly);
}

#[test]
fn descriptor_pitch_follows_the_pixel_size() {
    for (bytes_per_pixel, pitch) in [(0usize, 0usize), (1, 1024), (2, 2048), (3, 3072), (4, 4096)] {
        let mode = GraphicsMode {
            width: 1024,
            height: 768,
            pixels_per_scanline: 1024,
            bytes_per_pixel,
            framebuffer: 0xE000_0000,
            pixel_format: PixelFormat::Bitmask,
        };
        assert_eq!(VBE::new(Ok(mode)).unwrap().pitch, pitch);
    }
}

#[test]
fn descriptor_fails_with_the_status_of_the_firmware() {
    assert_eq!(
        VBE::new(Err(14)),
        Err(BootError::GraphicsUnavailable { status: 14 })
    );
    assert_eq!(
        VBE::new(Err(usize::MAX)),
        Err(BootError::GraphicsUnavailable { status: usize::MAX })
    );
}

#[test]
fn descriptor_fails_when_the_pitch_does_not_fit() {
    let mode = GraphicsMode {
        width: 640,
        height: 480,
        pixels_per_scanline: usize::MAX / 4 + 1,
        bytes_per_pixel: 4,
        framebuffer: 0x8000_0000,
        pixel_format: PixelFormat::Rgb,
    };
    assert_eq!(VBE::new(Ok(mode)), Err(BootError::PitchOverflow));

    let largest = GraphicsMode {
        pixels_per_scanline: usize::MAX / 4,
        ..mode
    };
    assert_eq!(
        VBE::new(Ok(largest)).unwrap().pitch,
        usize::MAX / 4 * 4
    );
}

#[test]
fn descriptor_keeps_each_pixel_format() {
    for format in [
        PixelFormat::Rgb,
        PixelFormat::Bgr,
        PixelFormat::Bitmask,
        PixelFormat::BltOnly,
    ] {
        let mode = GraphicsMode {
            width: 1920,
            height: 1080,
            pixels_per_scanline: 1920,
            bytes_per_pixel: 4,
            framebuffer: 0xC000_0000,
            pixel_format: format,
        };
        let vbe = VBE::new(Ok(mode)).unwrap();
        assert_eq!(vbe.pixel_format, format);
        assert_eq!(vbe.pitch, 7680);
    }
}
