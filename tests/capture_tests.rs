use base64::Engine;
use game_companion::capture::{bgra_to_rgba, encode_capture, release_plan, scaled_size, GdiRelease, GdiStage};

fn png_size(b64: &str) -> (u32, u32) {
    let bytes = base64::engine::general_purpose::STANDARD.decode(b64).unwrap();
    assert_eq!(&bytes[..8], &[0x89, b'P', b'N', b'G', 0x0D, 0x0A, 0x1A, 0x0A]);
    let w = u32::from_be_bytes([bytes[16], bytes[17], bytes[18], bytes[19]]);
    let h = u32::from_be_bytes([bytes[20], bytes[21], bytes[22], bytes[23]]);
    (w, h)
}

#[test]
fn channels_swap_in_whole_pixels() {
    let mut px = vec![1, 2, 3, 4, 5, 6, 7, 8, 9, 10];
    bgra_to_rgba(&mut px);
    assert_eq!(px, vec![3, 2, 1, 4, 7, 6, 5, 8, 9, 10]);
}

#[test]
fn downscale_keeps_aspect_ratio() {
    assert_eq!(scaled_size(3840, 2160, 1920), (1920, 1080));
    assert_eq!(scaled_size(1920, 1080, 1920), (1920, 1080));
    assert_eq!(scaled_size(1000, 333, 500), (500, 166));
}

#[test]
fn capture_encodes_png_as_base64() {
    let bgra = vec![0u8, 0, 255, 255, 255, 0, 0, 255];
    let text = encode_capture(2, 1, bgra, 1920).expect("encoded");
    assert!(text.starts_with("iVBORw0KGgo"));
    assert_eq!(png_size(&text), (2, 1));
}

#[test]
fn wide_capture_is_downscaled() {
    let bgra = vec![128u8; 8 * 4 * 4];
    let text = encode_capture(8, 4, bgra, 4).expect("encoded");
    assert_eq!(png_size(&text), (4, 2));
}

#[test]
fn short_buffer_gives_no_screenshot() {
    assert_eq!(encode_capture(4, 4, vec![0u8; 10], 1920), None);
}

#[test]
fn every_acquired_handle_is_released() {
    assert!(release_plan(GdiStage::Nothing).is_empty());
    assert_eq!(release_plan(GdiStage::ScreenDc), vec![GdiRelease::ReleaseScreenDc]);
    assert_eq!(release_plan(GdiStage::MemoryDc), vec![GdiRelease::DeleteMemoryDc, GdiRelease::ReleaseScreenDc]);
    assert_eq!(
        release_plan(GdiStage::Bitmap),
        vec![GdiRelease::DeleteMemoryDc, GdiRelease::ReleaseScreenDc, GdiRelease::DeleteBitmap]
    );
    assert_eq!(
        release_plan(GdiStage::Selected),
        vec![GdiRelease::Deselect, GdiRelease::DeleteMemoryDc, GdiRelease::ReleaseScreenDc, GdiRelease::DeleteBitmap]
    );
}
