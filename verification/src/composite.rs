use vstd::prelude::*;
use crate::codec::{decode_image_result, encode_image_result, lanczos3_resize_of, decode_image,
    encode_image, resize_raster};
use crate::raster::{Raster, pixel_index};

verus! {

/// The blended value of one color channel: the overlay weighted by its
/// alpha, the base by the remainder, over the 0..255 scale, rounded down.
pub open spec fn blend_channel(o: int, b: int, a: int) -> int {
    (o * a + b * (255 - a)) / 255
}

fn blend_one(o: u8, b: u8, a: u8) -> (r: u8)
    ensures
        r == blend_channel(o as int, b as int, a as int),
{
    proof {
        assert(o as int * a as int <= 65025 && 0 <= o as int * a as int
            && b as int * (255 - a as int) <= 65025 && 0 <= b as int * (255 - a as int)
            && o as int * a as int + b as int * (255 - a as int) <= 65025) by (nonlinear_arith)
            requires
                o as int <= 255,
                b as int <= 255,
                0 <= a as int <= 255;
    }
    let v: u32 = (o as u32) * (a as u32) + (b as u32) * (255 - a as u32);
    (v / 255) as u8
}

/// Alpha-blend an overlay pixel onto a base pixel: each color channel is
/// blended under the overlay's alpha, and the result's alpha is forced to
/// fully opaque.
pub fn alpha_blend(base: (u8, u8, u8, u8), overlay: (u8, u8, u8, u8)) -> (r: (u8, u8, u8, u8))
    ensures
        r.0 == blend_channel(overlay.0 as int, base.0 as int, overlay.3 as int),
        r.1 == blend_channel(overlay.1 as int, base.1 as int, overlay.3 as int),
        r.2 == blend_channel(overlay.2 as int, base.2 as int, overlay.3 as int),
        r.3 == 255,
{
    (
        blend_one(overlay.0, base.0, overlay.3),
        blend_one(overlay.1, base.1, overlay.3),
        blend_one(overlay.2, base.2, overlay.3),
        255,
    )
}

/// Byte `i` of the buffer that compositing leaves behind, for a base buffer
/// that is `bw` pixels wide: the byte belongs to channel i % 4 of the target
/// pixel at column (i % (4 bw)) / 4, row i / (4 bw).
pub open spec fn blended_byte(
    base: Seq<u8>, bw: int, patch: Seq<u8>, pw: int, ph: int, x: int, y: int, i: int,
) -> u8 {
    let ty = i / (4 * bw);
    let tx = (i % (4 * bw)) / 4;
    let c = i % 4;
    if in_patch_region(pw, ph, x, y, tx, ty) {
        if c == 3 {
            255u8
        } else {
            blend_channel(
                patch[pixel_index(pw, tx - x, ty - y, c)] as int,
                base[i] as int,
                patch[pixel_index(pw, tx - x, ty - y, 3)] as int,
            ) as u8
        }
    } else {
        base[i]
    }
}

/// The whole buffer that compositing a pw x ph patch at offset `(x, y)` onto
/// a base of width `bw` leaves behind.
pub open spec fn blended_buffer(
    base: Seq<u8>, bw: int, patch: Seq<u8>, pw: int, ph: int, x: int, y: int,
) -> Seq<u8> {
    Seq::new(base.len(), |i: int| blended_byte(base, bw, patch, pw, ph, x, y, i))
}

proof fn lemma_index_decompose(bw: int, bh: int, i: int)
    by (nonlinear_arith)
    requires
        bw > 0,
        bh > 0,
        0 <= i < bw * bh * 4,
    ensures
        0 <= (i % (4 * bw)) / 4 < bw,
        0 <= i / (4 * bw) < bh,
        0 <= i % 4 < 4,
        i == pixel_index(bw, (i % (4 * bw)) / 4, i / (4 * bw), i % 4),
{
}

/// The target pixel `(tx, ty)` is covered by a pw x ph patch placed at
/// offset `(x, y)`.
pub open spec fn in_patch_region(pw: int, ph: int, x: int, y: int, tx: int, ty: int) -> bool {
    x <= tx < x + pw && y <= ty < y + ph
}

/// Channel `c` of the target pixel `(tx, ty)` after compositing `patch` onto
/// `base` at offset `(x, y)`: covered pixels are alpha-blended with the
/// output alpha forced to 255, every other pixel keeps its base value.
pub open spec fn composited_channel(
    base: Raster, patch: Raster, x: int, y: int, tx: int, ty: int, c: int,
) -> u8 {
    if in_patch_region(patch.width as int, patch.height as int, x, y, tx, ty) {
        if c == 3 {
            255u8
        } else {
            blend_channel(
                patch.channel(tx - x, ty - y, c) as int,
                base.channel(tx, ty, c) as int,
                patch.channel(tx - x, ty - y, 3) as int,
            ) as u8
        }
    } else {
        base.channel(tx, ty, c)
    }
}

/// Composite `patch` onto `base` at offset `(x, y)`: every patch pixel whose
/// target coordinates fall inside the base is alpha-blended in place with
/// the output alpha forced to fully opaque; patch pixels falling outside the
/// base bounds are silently dropped, and the uncovered base pixels are left
/// untouched.
pub fn composite_rasters(base: &mut Raster, patch: &Raster, x: u32, y: u32)
    requires
        old(base).wf(),
        patch.wf(),
    ensures
        final(base).wf(),
        final(base).width == old(base).width,
        final(base).height == old(base).height,
        forall|tx: int, ty: int, c: int|
            0 <= tx < old(base).width && 0 <= ty < old(base).height && 0 <= c < 4
                ==> #[trigger] final(base).channel(tx, ty, c) == composited_channel(
                *old(base), *patch, x as int, y as int, tx, ty, c,
            ),
        final(base).pixels@ == blended_buffer(
            old(base).pixels@, old(base).width as int, patch.pixels@, patch.width as int,
            patch.height as int, x as int, y as int,
        ),
{
    let bw = base.width;
    let bh = base.height;
    let pw = patch.width;
    let ph = patch.height;
    let mut py: u32 = 0;
    while py < ph
        invariant
            base.wf(),
            base.width == bw,
            base.height == bh,
            bw == old(base).width,
            bh == old(base).height,
            patch.wf(),
            patch.width == pw,
            patch.height == ph,
            0 <= py <= ph,
            forall|tx: int, ty: int, c: int|
                0 <= tx < bw && 0 <= ty < bh && 0 <= c < 4 ==> #[trigger] base.channel(
                    tx, ty, c,
                ) == (
                    if in_patch_region(pw as int, ph as int, x as int, y as int, tx, ty)
                        && ty < y + py {
                        composited_channel(*old(base), *patch, x as int, y as int, tx, ty, c)
                    } else {
                        old(base).channel(tx, ty, c)
                    }
                ),
        decreases ph - py,
    {
        let mut px: u32 = 0;
        while px < pw
            invariant
                base.wf(),
                base.width == bw,
                base.height == bh,
                bw == old(base).width,
                bh == old(base).height,
                patch.wf(),
                patch.width == pw,
                patch.height == ph,
                0 <= px <= pw,
                0 <= py < ph,
                forall|tx: int, ty: int, c: int|
                    0 <= tx < bw && 0 <= ty < bh && 0 <= c < 4 ==> #[trigger] base.channel(
                        tx, ty, c,
                    ) == (
                        if in_patch_region(pw as int, ph as int, x as int, y as int, tx, ty)
                            && (ty < y + py || (ty == y + py && tx < x + px)) {
                            composited_channel(*old(base), *patch, x as int, y as int, tx, ty, c)
                        } else {
                            old(base).channel(tx, ty, c)
                        }
                    ),
            decreases pw - px,
        {
            let tx64 = x as u64 + px as u64;
            let ty64 = y as u64 + py as u64;
            if tx64 < bw as u64 && ty64 < bh as u64 {
                let tx = tx64 as u32;
                let ty = ty64 as u32;
                let p = patch.get_pixel(px, py);
                let b = base.get_pixel(tx, ty);
                let blended = alpha_blend(b, p);
                base.set_pixel(tx, ty, blended);
            }
            px = px + 1;
        }
        py = py + 1;
    }
    proof {
        let ob = old(base).pixels@;
        let nb = base.pixels@;
        let bwi = bw as int;
        let bhi = bh as int;
        let target = blended_buffer(
            ob, bwi, patch.pixels@, pw as int, ph as int, x as int, y as int,
        );
        assert(nb.len() == target.len());
        assert forall|i: int| 0 <= i < nb.len() implies nb[i] == target[i] by {
            assert(bwi * bhi * 4 > 0);
            assert(bwi > 0 && bhi > 0) by (nonlinear_arith)
                requires bwi >= 0 && bhi >= 0 && bwi * bhi * 4 > 0;
            lemma_index_decompose(bwi, bhi, i);
            let ty = i / (4 * bwi);
            let tx = (i % (4 * bwi)) / 4;
            let c = i % 4;
            assert(base.channel(tx, ty, c) == nb[i]);
            assert(old(base).channel(tx, ty, c) == ob[i]);
        }
        assert(nb =~= target);
    }
}

/// Compositing a fully opaque patch writes the patch's own pixel values over
/// every covered base pixel; uncovered pixels keep their base values. (With
/// full alpha the blend returns the overlay channel, and the forced output
/// alpha equals the patch's own.)
pub proof fn lemma_opaque_patch_composite(
    base: Raster, patch: Raster, x: int, y: int, tx: int, ty: int, c: int,
)
    requires
        base.wf(),
        patch.wf(),
        forall|px: int, py: int| 0 <= px < patch.width && 0 <= py < patch.height
            ==> #[trigger] patch.channel(px, py, 3) == 255,
        0 <= tx < base.width,
        0 <= ty < base.height,
        0 <= c < 4,
    ensures
        in_patch_region(patch.width as int, patch.height as int, x, y, tx, ty)
            ==> composited_channel(base, patch, x, y, tx, ty, c) == patch.channel(
            tx - x, ty - y, c,
        ),
        !in_patch_region(patch.width as int, patch.height as int, x, y, tx, ty)
            ==> composited_channel(base, patch, x, y, tx, ty, c) == base.channel(tx, ty, c),
{
    if in_patch_region(patch.width as int, patch.height as int, x, y, tx, ty) {
        assert(patch.channel(tx - x, ty - y, 3) == 255);
        if c != 3 {
            let o = patch.channel(tx - x, ty - y, c) as int;
            let b = base.channel(tx, ty, c) as int;
            assert(blend_channel(o, b, 255) == o) by (nonlinear_arith);
        }
    }
}


/// The inbound compositing request: a base image and a patch as base64, the
/// target offset and size, and the output format token.
pub struct CompositeRequest {
    pub base_image_base64: String,
    pub patch_image_base64: String,
    pub x: u32,
    pub y: u32,
    pub target_width: u32,
    pub target_height: u32,
    pub format: String,
}

/// The outbound compositing response: either the re-encoded image as base64
/// or an error description, never both.
pub struct CompositeResponse {
    pub success: bool,
    pub image_base64: Option<String>,
    pub error: Option<String>,
}

/// What a compositing request resolves to, stated over the named results of
/// the codecs: decode both images, resize the patch to the target size
/// unless a target dimension is zero, blend, re-encode under the format the
/// token selects, and hand the bytes back as base64; or the error message of
/// the first codec step that fails, preserving that codec's own cause.
pub open spec fn composite_output(req: CompositeRequest) -> Result<Seq<char>, Seq<char>> {
    match decode_image_result(req.base_image_base64@) {
        Err(m) => Err(m),
        Ok(base) => match decode_image_result(req.patch_image_base64@) {
            Err(m) => Err(m),
            Ok(patch) => {
                let resize = req.target_width > 0 && req.target_height > 0;
                let rw = if resize { req.target_width as int } else { patch.0 as int };
                let rh = if resize { req.target_height as int } else { patch.1 as int };
                let rp = if resize {
                    lanczos3_resize_of(
                        patch.2, patch.0 as int, patch.1 as int,
                        req.target_width as int, req.target_height as int,
                    )
                } else {
                    patch.2
                };
                let blended = blended_buffer(
                    base.2, base.0 as int, rp, rw, rh, req.x as int, req.y as int,
                );
                encode_image_result(blended, base.0 as int, base.1 as int, req.format@)
            },
        },
    }
}

/// Composite a generated patch onto a base image: decode both, resize the
/// patch to the target size (skipped when a target dimension is zero),
/// alpha-blend it at the offset with clipping to the base bounds, and
/// re-encode under the requested format. Exactly one of the image and the
/// error is set in the response; the response, error message included, is a
/// function of the request value alone.
pub fn composite_patch(request: CompositeRequest) -> (r: CompositeResponse)
    ensures
        r.success <==> composite_output(request) is Ok,
        r.success <==> r.image_base64 is Some,
        r.success <==> r.error is None,
        r.image_base64 matches Some(s) ==> (composite_output(request) matches Ok(o) && o == s@),
        r.error matches Some(m) ==> (composite_output(request) matches Err(c) && c == m@),
{
    let base_img = match decode_image(request.base_image_base64.as_str()) {
        Ok(img) => img,
        Err(e) => {
            return CompositeResponse { success: false, image_base64: None, error: Some(e) };
        },
    };
    let patch_img = match decode_image(request.patch_image_base64.as_str()) {
        Ok(img) => img,
        Err(e) => {
            return CompositeResponse { success: false, image_base64: None, error: Some(e) };
        },
    };
    let resized = if request.target_width > 0 && request.target_height > 0 {
        resize_raster(&patch_img, request.target_width, request.target_height)
    } else {
        patch_img
    };
    let mut result = base_img;
    composite_rasters(&mut result, &resized, request.x, request.y);
    match encode_image(&result, request.format.as_str()) {
        Ok(b64) => CompositeResponse { success: true, image_base64: Some(b64), error: None },
        Err(e) => CompositeResponse { success: false, image_base64: None, error: Some(e) },
    }
}

} // verus!
