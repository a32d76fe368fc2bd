use vstd::prelude::*;

verus! {

/// The RGBA byte at `i` of a 32-bit BGRA buffer: in each whole 4-byte pixel
/// the first and third bytes trade places; a trailing partial pixel stays.
pub open spec fn rgba_byte(px: Seq<u8>, i: int) -> u8 {
    let base = i - i % 4;
    if base + 4 <= px.len() {
        if i % 4 == 0 {
            px[i + 2]
        } else if i % 4 == 2 {
            px[i - 2]
        } else {
            px[i]
        }
    } else {
        px[i]
    }
}

pub open spec fn rgba_of(px: Seq<u8>) -> Seq<u8> {
    Seq::new(px.len(), |i: int| rgba_byte(px, i))
}

/// Reorders 32-bit pixels from blue-green-red-alpha to red-green-blue-alpha.
pub fn bgra_to_rgba(pixels: &mut Vec<u8>)
    ensures
        final(pixels)@ == rgba_of(old(pixels)@),
{
    let ghost orig = pixels@;
    let n = pixels.len();
    let mut i: usize = 0;
    while n - i >= 4
        invariant
            n == pixels@.len(),
            orig.len() == n,
            i % 4 == 0,
            i <= n,
            forall|j: int| 0 <= j < i ==> #[trigger] pixels@[j] == rgba_byte(orig, j),
            forall|j: int| i <= j < n ==> #[trigger] pixels@[j] == orig[j],
        decreases n - i,
    {
        let b = pixels[i];
        let r = pixels[i + 2];
        pixels.set(i, r);
        pixels.set(i + 2, b);
        proof {
            assert forall|j: int| i <= j < i + 4 implies #[trigger] pixels@[j] == rgba_byte(orig, j) by {
                assert(j - j % 4 == i);
            }
        }
        i = i + 4;
    }
    proof {
        assert forall|j: int| i <= j < n implies #[trigger] pixels@[j] == rgba_byte(orig, j) by {
            assert(j - j % 4 >= i);
        }
    }
    assert(pixels@ =~= rgba_of(orig));
}

/// Size after downscaling to at most `max_width` pixels wide, keeping the
/// aspect ratio (the height rounds down).
pub open spec fn scaled_size_of(width: u32, height: u32, max_width: u32) -> (u32, u32) {
    if width > max_width {
        (max_width, ((height as int * max_width as int) / width as int) as u32)
    } else {
        (width, height)
    }
}

/// The capture's size after downscaling.
pub fn scaled_size(width: u32, height: u32, max_width: u32) -> (r: (u32, u32))
    ensures
        r == scaled_size_of(width, height, max_width),
        r.0 <= width,
        r.1 <= height,
{
    if width > max_width {
        proof {
            assert((height as int) * (max_width as int) <= u64::MAX) by (nonlinear_arith)
                requires
                    height <= u32::MAX,
                    max_width <= u32::MAX,
            ;
        }
        let h = (height as u64) * (max_width as u64) / (width as u64);
        proof {
            assert(height as int * max_width as int <= height as int * width as int) by (nonlinear_arith)
                requires
                    max_width < width,
            ;
            assert((height as int * max_width as int) / width as int <= height as int) by (nonlinear_arith)
                requires
                    height as int * max_width as int <= height as int * width as int,
                    width > 0,
            ;
        }
        (max_width, h as u32)
    } else {
        (width, height)
    }
}

/// An RGBA buffer of `width` by `height` pixels fits in `len` bytes.
pub open spec fn image_fits(width: u32, height: u32, len: nat) -> bool {
    4 * width as int * height as int <= len
}

/// What `image::imageops::resize` with the triangle filter gives for an RGBA
/// image and a target size, as raw bytes.
pub uninterp spec fn resized_of(
    width: u32,
    height: u32,
    pixels: Seq<u8>,
    new_width: u32,
    new_height: u32,
) -> Seq<u8>;

/// What `ImageBuffer::write_to` in PNG format gives for an RGBA image; `None`
/// when the encoder fails.
pub uninterp spec fn png_of(width: u32, height: u32, pixels: Seq<u8>) -> Option<Seq<u8>>;

/// What the standard padded base-64 engine gives for some bytes.
pub uninterp spec fn base64_of(bytes: Seq<u8>) -> Seq<char>;

/// Relies on `ImageBuffer::from_raw` (which refuses a buffer smaller than
/// the image) and `image::imageops::resize` with `FilterType::Triangle`,
/// which allocates a `width` by `new_height` intermediate and a `new_width`
/// by `new_height` RGBA image; neither is larger than the source when the
/// target is no larger, so neither allocation overflows.
#[verifier::external_body]
fn resize_rgba(width: u32, height: u32, pixels: Vec<u8>, new_width: u32, new_height: u32) -> (r:
    Option<Vec<u8>>)
    requires
        new_width <= width,
        new_height <= height,
    ensures
        r.is_some() <==> image_fits(width, height, pixels@.len()),
        r matches Some(v) ==> v@ == resized_of(width, height, pixels@, new_width, new_height)
            && v@.len() == 4 * new_width as int * new_height as int,
{
    let img = image::RgbaImage::from_raw(width, height, pixels)?;
    let out = image::imageops::resize(&img, new_width, new_height, image::imageops::FilterType::Triangle);
    Some(out.into_raw())
}

/// Relies on `ImageBuffer::from_raw` and `ImageBuffer::write_to` with
/// `ImageFormat::Png`, writing into memory.
#[verifier::external_body]
fn encode_png(width: u32, height: u32, pixels: Vec<u8>) -> (r: Option<Vec<u8>>)
    ensures
        !image_fits(width, height, pixels@.len()) ==> r.is_none(),
        image_fits(width, height, pixels@.len()) ==> match r {
            Some(v) => png_of(width, height, pixels@) == Some(v@),
            None => png_of(width, height, pixels@).is_none(),
        },
{
    let img = image::RgbaImage::from_raw(width, height, pixels)?;
    let mut out = std::io::Cursor::new(Vec::new());
    match img.write_to(&mut out, image::ImageFormat::Png) {
        Ok(()) => Some(out.into_inner()),
        Err(_) => None,
    }
}

/// Relies on `base64::engine::general_purpose::STANDARD.encode`.
#[verifier::external_body]
fn encode_base64(bytes: &Vec<u8>) -> (r: String)
    ensures
        r@ == base64_of(bytes@),
{
    base64::Engine::encode(&base64::engine::general_purpose::STANDARD, bytes)
}

/// The screenshot text for a captured BGRA buffer: reordered to RGBA,
/// downscaled when wider than `max_width`, encoded as PNG, then as base 64.
/// `None` when any step fails.
pub open spec fn capture_text_of(width: u32, height: u32, bgra: Seq<u8>, max_width: u32) -> Option<
    Seq<char>,
> {
    let rgba = rgba_of(bgra);
    let size = scaled_size_of(width, height, max_width);
    if !image_fits(width, height, rgba.len()) || size.0 == 0 || size.1 == 0 {
        None
    } else {
        let pixels = if width > max_width {
            resized_of(width, height, rgba, size.0, size.1)
        } else {
            rgba
        };
        match png_of(size.0, size.1, pixels) {
            Some(png) => Some(base64_of(png)),
            None => None,
        }
    }
}

/// Turns a captured 32-bit top-down BGRA buffer into the base-64 PNG sent
/// with a request.
pub fn encode_capture(width: u32, height: u32, bgra: Vec<u8>, max_width: u32) -> (r: Option<
    String,
>)
    ensures
        crate::config::opt_text(r) == capture_text_of(width, height, bgra@, max_width),
{
    let mut pixels = bgra;
    let ghost orig = pixels@;
    bgra_to_rgba(&mut pixels);
    let (w, h) = scaled_size(width, height, max_width);
    if !fits_rgba(width, height, pixels.len()) || w == 0 || h == 0 {
        return None;
    }
    let scaled = if width > max_width {
        match resize_rgba(width, height, pixels, w, h) {
            Some(v) => v,
            None => {
                return None;
            },
        }
    } else {
        pixels
    };
    let png = match encode_png(w, h, scaled) {
        Some(p) => p,
        None => {
            return None;
        },
    };
    Some(encode_base64(&png))
}

fn fits_rgba(width: u32, height: u32, len: usize) -> (r: bool)
    ensures
        r == image_fits(width, height, len as nat),
{
    proof {
        assert(4 * (width as int) * (height as int) <= u128::MAX) by (nonlinear_arith)
            requires
                width <= u32::MAX,
                height <= u32::MAX,
        ;
    }
    let need: u128 = 4 * (width as u128) * (height as u128);
    need <= len as u128
}

/// How far the capture got in acquiring its native handles, in order: the
/// screen device context, a memory device context, a bitmap, and the bitmap
/// selected into the memory context.
#[derive(Clone, Copy, PartialEq, Eq, Debug, Structural)]
pub enum GdiStage {
    Nothing,
    ScreenDc,
    MemoryDc,
    Bitmap,
    Selected,
}

/// One release of a native handle.
#[derive(Clone, Copy, PartialEq, Eq, Debug, Structural)]
pub enum GdiRelease {
    /// Select the previous object back into the memory context.
    Deselect,
    DeleteMemoryDc,
    ReleaseScreenDc,
    DeleteBitmap,
}

pub open spec fn stage_rank(s: GdiStage) -> int {
    match s {
        GdiStage::Nothing => 0,
        GdiStage::ScreenDc => 1,
        GdiStage::MemoryDc => 2,
        GdiStage::Bitmap => 3,
        GdiStage::Selected => 4,
    }
}

/// The handle a release gives back was acquired by stage `s`.
pub open spec fn holds(s: GdiStage, r: GdiRelease) -> bool {
    match r {
        GdiRelease::ReleaseScreenDc => stage_rank(s) >= 1,
        GdiRelease::DeleteMemoryDc => stage_rank(s) >= 2,
        GdiRelease::DeleteBitmap => stage_rank(s) >= 3,
        GdiRelease::Deselect => stage_rank(s) >= 4,
    }
}

/// The releases for a stage, in the order deselect, delete the memory
/// context, release the screen context, delete the bitmap, keeping only
/// those whose handle was acquired.
pub open spec fn release_plan_of(s: GdiStage) -> Seq<GdiRelease> {
    match s {
        GdiStage::Nothing => seq![],
        GdiStage::ScreenDc => seq![GdiRelease::ReleaseScreenDc],
        GdiStage::MemoryDc => seq![GdiRelease::DeleteMemoryDc, GdiRelease::ReleaseScreenDc],
        GdiStage::Bitmap => seq![
            GdiRelease::DeleteMemoryDc,
            GdiRelease::ReleaseScreenDc,
            GdiRelease::DeleteBitmap,
        ],
        GdiStage::Selected => seq![
            GdiRelease::Deselect,
            GdiRelease::DeleteMemoryDc,
            GdiRelease::ReleaseScreenDc,
            GdiRelease::DeleteBitmap,
        ],
    }
}

/// The releases to perform when the capture stops after `stage`, whether
/// it failed there or finished.
pub fn release_plan(stage: GdiStage) -> (r: Vec<GdiRelease>)
    ensures
        r@ == release_plan_of(stage),
{
    let mut r: Vec<GdiRelease> = Vec::new();
    if stage == GdiStage::Selected {
        r.push(GdiRelease::Deselect);
    }
    if stage == GdiStage::MemoryDc || stage == GdiStage::Bitmap || stage == GdiStage::Selected {
        r.push(GdiRelease::DeleteMemoryDc);
    }
    if stage != GdiStage::Nothing {
        r.push(GdiRelease::ReleaseScreenDc);
    }
    if stage == GdiStage::Bitmap || stage == GdiStage::Selected {
        r.push(GdiRelease::DeleteBitmap);
    }
    assert(r@ =~= release_plan_of(stage));
    r
}

/// Whatever stage the capture stops at, its plan releases every handle
/// acquired so far exactly once, and nothing else.
pub proof fn lemma_release_plan_complete(stage: GdiStage)
    ensures
        forall|r: GdiRelease| holds(stage, r) <==> release_plan_of(stage).contains(r),
        release_plan_of(stage).no_duplicates(),
{
    let p = release_plan_of(stage);
    assert forall|r: GdiRelease| holds(stage, r) <==> p.contains(r) by {
        if holds(stage, r) {
            match stage {
                GdiStage::Nothing => {},
                GdiStage::ScreenDc => assert(p[0] == r),
                GdiStage::MemoryDc => {
                    if r == GdiRelease::DeleteMemoryDc { assert(p[0] == r); } else { assert(p[1] == r); }
                },
                GdiStage::Bitmap => {
                    if r == GdiRelease::DeleteMemoryDc {
                        assert(p[0] == r);
                    } else if r == GdiRelease::ReleaseScreenDc {
                        assert(p[1] == r);
                    } else {
                        assert(p[2] == r);
                    }
                },
                GdiStage::Selected => {
                    if r == GdiRelease::Deselect {
                        assert(p[0] == r);
                    } else if r == GdiRelease::DeleteMemoryDc {
                        assert(p[1] == r);
                    } else if r == GdiRelease::ReleaseScreenDc {
                        assert(p[2] == r);
                    } else {
                        assert(p[3] == r);
                    }
                },
            }
        }
    }
}

} // verus!
