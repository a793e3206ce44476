//! The image pipeline: decode, resize by fit strategy, encode; and the recognition of
//! image types by their leading bytes.

use vstd::prelude::*;
use crate::images::{
    ImageConversionFormat, ImageConversionParams, ImageFit, ImageFocus, MAX_PIXELS, any_set,
    compute_cover_size, compute_crop_origin, compute_pad_offsets, cover_size, crop_origin,
    crop_size, min_u32, pad_offsets, resolve_target_size, sat_sub, target_size,
};

verus! {

#[derive(Debug)]
pub enum ImageProxyError {
    NetworkError(String),
    ProxyError(String),
    ImageError(String),
    ConversionError(String),
}

/// The decoded image type of the image crate, carried opaquely.
#[verifier::external_type_specification]
#[verifier::external_body]
pub struct ExDynamicImage(image::DynamicImage);

/// Width and height of an image.
pub uninterp spec fn pixel_size(img: image::DynamicImage) -> (u32, u32);

/// The image that some bytes decode to, if they hold one.
pub uninterp spec fn decoded(data: Seq<u8>) -> Option<image::DynamicImage>;

/// An image resampled to exactly `w` by `h`.
pub uninterp spec fn resampled(img: image::DynamicImage, w: u32, h: u32) -> image::DynamicImage;

/// An image scaled, keeping its aspect ratio, to fit within `w` by `h`.
pub uninterp spec fn fitted(img: image::DynamicImage, w: u32, h: u32) -> image::DynamicImage;

/// The region of an image at (`x`, `y`) of size `w` by `h`, clamped to the image.
pub uninterp spec fn cropped(img: image::DynamicImage, x: u32, y: u32, w: u32, h: u32) -> image::DynamicImage;

/// A fully transparent `w` by `h` canvas.
pub uninterp spec fn blank_canvas(w: u32, h: u32) -> image::DynamicImage;

/// `top` drawn over `bottom` with its corner at (`x`, `y`).
pub uninterp spec fn overlaid(bottom: image::DynamicImage, top: image::DynamicImage, x: u32, y: u32) -> image::DynamicImage;

/// The JPEG encoding of an image at a quality.
pub uninterp spec fn jpeg_encoding(img: image::DynamicImage, quality: u8) -> Seq<u8>;

/// The encoding of an image in a format, if the encoder accepts it.
pub uninterp spec fn encoded_as(img: image::DynamicImage, format: ImageConversionFormat) -> Option<Seq<u8>>;

pub open spec fn fits_budget(w: u32, h: u32) -> bool {
    (w as int) * (h as int) <= MAX_PIXELS as int
}

/// The JPEG encoder takes images whose sides are between 1 and 65535.
pub open spec fn jpeg_size_ok(sz: (u32, u32)) -> bool {
    1 <= sz.0 <= 65535 && 1 <= sz.1 <= 65535
}

/// Relies on `image::load_from_memory`: decodes the bytes in whichever format they hold;
/// the outcome depends on the bytes alone. The error's text otherwise.
#[verifier::external_body]
fn decode(data: &[u8]) -> (r: Result<image::DynamicImage, String>)
    ensures
        r is Ok <==> decoded(data@) is Some,
        r is Ok ==> r->Ok_0 == decoded(data@)->0,
{
    image::load_from_memory(data).map_err(|e| e.to_string())
}

/// Relies on `DynamicImage::dimensions`.
#[verifier::external_body]
fn dimensions(img: &image::DynamicImage) -> (r: (u32, u32))
    ensures
        r == pixel_size(*img),
{
    image::GenericImageView::dimensions(img)
}

/// Relies on `DynamicImage::resize_exact` (Lanczos3): the result is exactly `w` by `h`.
/// The resampler allocates a source-width by `h` intermediate image, hence the bounds.
#[verifier::external_body]
fn resize_exact(img: &image::DynamicImage, w: u32, h: u32) -> (r: image::DynamicImage)
    requires
        fits_budget(w, h),
        fits_budget(pixel_size(*img).0, h),
    ensures
        r == resampled(*img, w, h),
        pixel_size(r) == (w, h),
{
    img.resize_exact(w, h, image::imageops::FilterType::Lanczos3)
}

/// Relies on `DynamicImage::resize` (Lanczos3) and its `resize_dimensions`: an image
/// already of size `w` by `h` comes back as it is; otherwise the ratio is the smaller of
/// `w / W` and `h / H`, so the limiting side becomes exactly `w` (or `h`) and the other
/// is the source's side times that ratio, rounded to the nearest integer and at least 1.
#[verifier::external_body]
fn resize_within(img: &image::DynamicImage, w: u32, h: u32) -> (r: image::DynamicImage)
    requires
        fits_budget(w, h),
        fits_budget(pixel_size(*img).0, h),
        pixel_size(*img).0 > 0,
        pixel_size(*img).1 > 0,
        w > 0,
        h > 0,
    ensures
        r == fitted(*img, w, h),
        pixel_size(*img) == (w, h) ==> pixel_size(r) == (w, h),
        1 <= pixel_size(r).0 <= w,
        1 <= pixel_size(r).1 <= h,
        pixel_size(r).0 == w || pixel_size(r).1 == h,
        fit_side_ok(pixel_size(*img), (w, h), pixel_size(r)),
{
    img.resize(w, h, image::imageops::FilterType::Lanczos3)
}

/// The non-limiting side of an aspect-preserving fit is the source side times the ratio,
/// within one pixel, and exactly that when it is a whole number of at least 1.
pub open spec fn fit_side_ok(cur: (u32, u32), bx: (u32, u32), out: (u32, u32)) -> bool {
    let (sw, sh) = (cur.0 as int, cur.1 as int);
    let (w, h) = (bx.0 as int, bx.1 as int);
    if w * sh <= h * sw {
        out.0 == bx.0 && ((sh * w) % sw == 0 && (sh * w) / sw >= 1 ==> out.1 as int == (sh * w) / sw)
            && (out.1 as int - 1) * sw <= sh * w && sh * w <= (out.1 as int + 1) * sw
    } else {
        out.1 == bx.1 && ((sw * h) % sh == 0 && (sw * h) / sh >= 1 ==> out.0 as int == (sw * h) / sh)
            && (out.0 as int - 1) * sh <= sw * h && sw * h <= (out.0 as int + 1) * sh
    }
}

/// An aspect-preserving fit of a `cur` image into the box `bx`: within the box, one side
/// reaching it, the other following the source's ratio (see `fit_side_ok`).
pub open spec fn fits_box(cur: (u32, u32), bx: (u32, u32), out: (u32, u32)) -> bool {
    &&& 1 <= out.0 <= bx.0
    &&& 1 <= out.1 <= bx.1
    &&& out.0 == bx.0 || out.1 == bx.1
    &&& fit_side_ok(cur, bx, out)
}

/// Relies on `DynamicImage::crop_imm`: the corner is clamped into the image and the size
/// to what remains right of and below it.
#[verifier::external_body]
fn crop(img: &image::DynamicImage, x: u32, y: u32, w: u32, h: u32) -> (r: image::DynamicImage)
    ensures
        r == cropped(*img, x, y, w, h),
        pixel_size(r) == (
            min_u32(w, sat_sub(pixel_size(*img).0, min_u32(x, pixel_size(*img).0))),
            min_u32(h, sat_sub(pixel_size(*img).1, min_u32(y, pixel_size(*img).1))),
        ),
{
    img.crop_imm(x, y, w, h)
}

/// Relies on `DynamicImage::new_rgba8`: a fully transparent `w` by `h` canvas.
#[verifier::external_body]
fn transparent_canvas(w: u32, h: u32) -> (r: image::DynamicImage)
    requires
        fits_budget(w, h),
    ensures
        r == blank_canvas(w, h),
        pixel_size(r) == (w, h),
{
    image::DynamicImage::new_rgba8(w, h)
}

/// Relies on `image::imageops::overlay`: draws `top` onto `bottom` at the offset; the
/// canvas keeps its size.
#[verifier::external_body]
fn draw_over(bottom: &mut image::DynamicImage, top: &image::DynamicImage, x: u32, y: u32)
    ensures
        *final(bottom) == overlaid(*old(bottom), *top, x, y),
        pixel_size(*final(bottom)) == pixel_size(*old(bottom)),
{
    image::imageops::overlay(bottom, top, x as i64, y as i64)
}

/// Relies on `JpegEncoder::new_with_quality(..).encode_image` writing to a vector: it
/// fails only when a side is 0 or above 65535 (`encoder.rs`, `InvalidSize`).
#[verifier::external_body]
fn encode_jpeg(img: &image::DynamicImage, quality: u8) -> (r: Result<Vec<u8>, String>)
    ensures
        r is Ok <==> jpeg_size_ok(pixel_size(*img)),
        r is Ok ==> r->Ok_0@ == jpeg_encoding(*img, quality),
{
    let mut out: Vec<u8> = Vec::new();
    let mut enc = image::codecs::jpeg::JpegEncoder::new_with_quality(&mut out, quality);
    enc.encode_image(img).map_err(|e| e.to_string())?;
    Ok(out)
}

/// Relies on `DynamicImage::write_to` with the matching `image::ImageFormat`: the encoded
/// bytes, or the encoder's error text; the outcome depends on the image and format alone.
#[verifier::external_body]
fn encode_as(img: &image::DynamicImage, format: ImageConversionFormat) -> (r: Result<Vec<u8>, String>)
    ensures
        r is Ok <==> encoded_as(*img, format) is Some,
        r is Ok ==> r->Ok_0@ == encoded_as(*img, format)->0,
{
    let f = match format {
        ImageConversionFormat::Webp => image::ImageFormat::WebP,
        ImageConversionFormat::Jpg => image::ImageFormat::Jpeg,
        ImageConversionFormat::Png => image::ImageFormat::Png,
        ImageConversionFormat::Gif => image::ImageFormat::Gif,
        ImageConversionFormat::Avif => image::ImageFormat::Avif,
    };
    let mut out: Vec<u8> = Vec::new();
    img.write_to(&mut std::io::Cursor::new(&mut out), f).map_err(|e| e.to_string())?;
    Ok(out)
}

/// The crop of `target` around the focus anchor (centre when none is given).
pub open spec fn crop_to(img: image::DynamicImage, target: (u32, u32), focus: Option<ImageFocus>) -> image::DynamicImage {
    let f = match focus { Some(f) => f, None => ImageFocus::Center };
    let o = crop_origin(pixel_size(img), target, f);
    let c = crop_size(pixel_size(img), target);
    cropped(img, o.0, o.1, c.0, c.1)
}

/// `img` centred on a transparent `target` canvas, or `img` itself when it has that size.
pub open spec fn padded_to(img: image::DynamicImage, target: (u32, u32)) -> image::DynamicImage {
    if pixel_size(img) == target {
        img
    } else {
        let o = pad_offsets(pixel_size(img), target);
        overlaid(blank_canvas(target.0, target.1), img, o.0, o.1)
    }
}

/// The transformed image: unchanged without a target size; else by the fit strategy
/// (`scale` when none is given).
pub open spec fn transformed(img: image::DynamicImage, p: ImageConversionParams) -> image::DynamicImage {
    match target_size(pixel_size(img), p.width, p.height) {
        None => img,
        Some(t) => match p.fit {
            Some(ImageFit::Fill) => {
                let c = cover_size(pixel_size(img), t);
                crop_to(resampled(img, c.0, c.1), t, p.focus)
            },
            Some(ImageFit::Crop) => crop_to(img, t, p.focus),
            Some(ImageFit::Pad) => padded_to(fitted(img, t.0, t.1), t),
            Some(ImageFit::Thumb) => fitted(img, t.0, t.1),
            _ => resampled(img, t.0, t.1),
        },
    }
}

/// Output size of the transform, where it is exact: unchanged without a target size;
/// the target for `scale`, `fill` and `pad`; the clamped target for `crop`.
pub open spec fn exact_output_size(cur: (u32, u32), p: ImageConversionParams) -> Option<(u32, u32)> {
    match target_size(cur, p.width, p.height) {
        None => Some(cur),
        Some(t) => match p.fit {
            Some(ImageFit::Crop) => Some(crop_size(cur, t)),
            Some(ImageFit::Thumb) => None,
            _ => Some(t),
        },
    }
}

/// The box the output lies in: its exact size, or for `thumb` the target.
pub open spec fn output_box(cur: (u32, u32), p: ImageConversionParams) -> (u32, u32) {
    match exact_output_size(cur, p) {
        Some(sz) => sz,
        None => target_size(cur, p.width, p.height)->0,
    }
}

/// The sizes that the transform allocates stay within the pixel budget, the source is not
/// empty, and a `pad` or `thumb` target is not empty either.
pub open spec fn sizes_fit_budget(cur: (u32, u32), p: ImageConversionParams) -> bool {
    match target_size(cur, p.width, p.height) {
        None => true,
        Some(t) => fits_budget(t.0, t.1) && fits_budget(cur.0, t.1) && cur.0 > 0 && cur.1 > 0
            && fits_budget(cover_size(cur, t).0, cover_size(cur, t).1)
            && fits_budget(cur.0, cover_size(cur, t).1)
            && ((p.fit == Some(ImageFit::Pad) || p.fit == Some(ImageFit::Thumb)) ==> t.0 > 0 && t.1 > 0),
    }
}

fn budget_ok(w: u32, h: u32) -> (r: bool)
    ensures
        r == fits_budget(w, h),
{
    proof {
        assert((w as int) * (h as int) <= u64::MAX as int) by (nonlinear_arith)
            requires
                w <= u32::MAX,
                h <= u32::MAX,
        ;
        assert(0 <= (w as int) * (h as int)) by (nonlinear_arith)
            requires
                0 <= w,
                0 <= h,
        ;
    }
    (w as u64) * (h as u64) <= MAX_PIXELS
}

/// Crops `img` to `target` around the focus anchor (centre when none is given).
pub fn crop_image(img: &image::DynamicImage, target: (u32, u32), focus: Option<ImageFocus>) -> (r: image::DynamicImage)
    ensures
        r == crop_to(*img, target, focus),
        pixel_size(r) == crop_size(pixel_size(*img), target),
{
    let cur = dimensions(img);
    let f = match focus {
        Some(f) => f,
        None => ImageFocus::Center,
    };
    let (x, y) = compute_crop_origin(cur, target, f);
    let w = if target.0 <= cur.0 { target.0 } else { cur.0 };
    let h = if target.1 <= cur.1 { target.1 } else { cur.1 };
    crop(img, x, y, w, h)
}

/// Centres `img` on a transparent `target` canvas; an image of that size is kept as is.
pub fn pad_image(img: image::DynamicImage, target: (u32, u32)) -> (r: image::DynamicImage)
    requires
        fits_budget(target.0, target.1),
    ensures
        r == padded_to(img, target),
        pixel_size(r) == target,
{
    let cur = dimensions(&img);
    if cur.0 == target.0 && cur.1 == target.1 {
        return img;
    }
    let mut canvas = transparent_canvas(target.0, target.1);
    let (x, y) = compute_pad_offsets(cur, target);
    draw_over(&mut canvas, &img, x, y);
    canvas
}

/// Resizes `img` to the target size by the fit strategy (`scale` when none is given).
pub fn resize_image(img: image::DynamicImage, params: &ImageConversionParams) -> (r: Result<image::DynamicImage, ImageProxyError>)
    ensures
        r is Ok <==> sizes_fit_budget(pixel_size(img), *params),
        r is Ok ==> r->Ok_0 == transformed(img, *params),
        r is Ok && exact_output_size(pixel_size(img), *params) is Some
            ==> pixel_size(r->Ok_0) == exact_output_size(pixel_size(img), *params)->0,
        r is Ok ==> 1 <= output_box(pixel_size(img), *params).0 ==> 1 <= pixel_size(r->Ok_0).0 <= output_box(pixel_size(img), *params).0,
        r is Ok ==> 1 <= output_box(pixel_size(img), *params).1 ==> 1 <= pixel_size(r->Ok_0).1 <= output_box(pixel_size(img), *params).1,
        r is Ok && target_size(pixel_size(img), params.width, params.height) is Some
            && params.fit == Some(ImageFit::Thumb) ==> fits_box(pixel_size(img),
                target_size(pixel_size(img), params.width, params.height)->0, pixel_size(r->Ok_0)),
        r is Ok && target_size(pixel_size(img), params.width, params.height) is Some
            && params.fit == Some(ImageFit::Pad) ==> {
                let t = target_size(pixel_size(img), params.width, params.height)->0;
                fits_box(pixel_size(img), t, pixel_size(fitted(img, t.0, t.1)))
            },
        r is Err ==> (r->Err_0 matches ImageProxyError::ConversionError(m) && m@ == "Requested dimensions are too large"@),
{
    let cur = dimensions(&img);
    let t = match resolve_target_size(cur, params.width, params.height) {
        Some(t) => t,
        None => {
            return Ok(img);
        },
    };
    let cover = compute_cover_size(cur, t);
    let fit = match params.fit {
        Some(f) => f,
        None => ImageFit::Scale,
    };
    let nonempty_needed = fit == ImageFit::Pad || fit == ImageFit::Thumb;
    if !(budget_ok(t.0, t.1) && budget_ok(cur.0, t.1) && cur.0 > 0 && cur.1 > 0 && budget_ok(cover.0, cover.1)
        && budget_ok(cur.0, cover.1) && (!nonempty_needed || (t.0 > 0 && t.1 > 0))) {
        return Err(ImageProxyError::ConversionError(String::from_str("Requested dimensions are too large")));
    }
    match fit {
        ImageFit::Scale => Ok(resize_exact(&img, t.0, t.1)),
        ImageFit::Fill => {
            proof {
                crate::images::lemma_cover_contains_target(cur, t);
            }
            let scaled = resize_exact(&img, cover.0, cover.1);
            Ok(crop_image(&scaled, t, params.focus))
        },
        ImageFit::Crop => Ok(crop_image(&img, t, params.focus)),
        ImageFit::Pad => {
            let resized = resize_within(&img, t.0, t.1);
            Ok(pad_image(resized, t))
        },
        ImageFit::Thumb => Ok(resize_within(&img, t.0, t.1)),
    }
}

/// Applies the geometric part of the parameters (see `transformed`).
pub fn apply_transformations(img: image::DynamicImage, params: &ImageConversionParams) -> (r: Result<image::DynamicImage, ImageProxyError>)
    ensures
        r is Ok <==> sizes_fit_budget(pixel_size(img), *params),
        r is Ok ==> r->Ok_0 == transformed(img, *params),
        r is Ok && exact_output_size(pixel_size(img), *params) is Some
            ==> pixel_size(r->Ok_0) == exact_output_size(pixel_size(img), *params)->0,
        r is Ok && jpeg_size_ok(output_box(pixel_size(img), *params)) ==> jpeg_size_ok(pixel_size(r->Ok_0)),
        r is Ok && target_size(pixel_size(img), params.width, params.height) is Some
            && params.fit == Some(ImageFit::Thumb) ==> fits_box(pixel_size(img),
                target_size(pixel_size(img), params.width, params.height)->0, pixel_size(r->Ok_0)),
        r is Ok && target_size(pixel_size(img), params.width, params.height) is Some
            && params.fit == Some(ImageFit::Pad) ==> {
                let t = target_size(pixel_size(img), params.width, params.height)->0;
                fits_box(pixel_size(img), t, pixel_size(fitted(img, t.0, t.1)))
            },
        r is Err ==> (r->Err_0 matches ImageProxyError::ConversionError(m) && m@ == "Requested dimensions are too large"@),
{
    if params.width.is_some() || params.height.is_some() {
        resize_image(img, params)
    } else {
        Ok(img)
    }
}

/// Output format and JPEG quality: JPEG when no format is given, quality 85 when none is
/// given, capped at 100.
pub open spec fn output_encoding(p: ImageConversionParams) -> (ImageConversionFormat, u8) {
    let f = match p.format { Some(f) => f, None => ImageConversionFormat::Jpg };
    let q = match p.quality { Some(q) => if q > 100 { 100u8 } else { q }, None => 85u8 };
    (f, q)
}

pub open spec fn content_type_of(f: ImageConversionFormat) -> Seq<char> {
    match f {
        ImageConversionFormat::Webp => "image/webp"@,
        ImageConversionFormat::Jpg => "image/jpeg"@,
        ImageConversionFormat::Png => "image/png"@,
        ImageConversionFormat::Gif => "image/gif"@,
        ImageConversionFormat::Avif => "image/avif"@,
    }
}

pub open spec fn encoder_label(f: ImageConversionFormat) -> Seq<char> {
    match f {
        ImageConversionFormat::Webp => "WebP"@,
        ImageConversionFormat::Jpg => "JPEG"@,
        ImageConversionFormat::Png => "PNG"@,
        ImageConversionFormat::Gif => "GIF"@,
        ImageConversionFormat::Avif => "AVIF"@,
    }
}

/// The bytes of an image in the parameters' encoding, when its encoder accepts it.
pub open spec fn encoding_of(img: image::DynamicImage, p: ImageConversionParams) -> Option<Seq<u8>> {
    let (f, q) = output_encoding(p);
    if f == ImageConversionFormat::Jpg {
        if jpeg_size_ok(pixel_size(img)) { Some(jpeg_encoding(img, q)) } else { None }
    } else {
        encoded_as(img, f)
    }
}

pub open spec fn starts_with_text(m: Seq<char>, prefix: Seq<char>) -> bool {
    prefix.len() <= m.len() && m.subrange(0, prefix.len() as int) == prefix
}

/// The choice of encoding (see `output_encoding`).
pub fn choose_encoding(p: &ImageConversionParams) -> (r: (ImageConversionFormat, u8))
    ensures
        r == output_encoding(*p),
{
    let f = match p.format {
        Some(f) => f,
        None => ImageConversionFormat::Jpg,
    };
    let q = match p.quality {
        Some(q) => if q > 100 { 100u8 } else { q },
        None => 85u8,
    };
    (f, q)
}

/// Encodes the image in the chosen format. JPEG goes through the quality-aware encoder.
pub fn encode_image(img: &image::DynamicImage, params: &ImageConversionParams) -> (r: Result<(Vec<u8>, String), ImageProxyError>)
    ensures
        r is Ok <==> encoding_of(*img, *params) is Some,
        r is Ok ==> (r->Ok_0).0@ == encoding_of(*img, *params)->0
            && (r->Ok_0).1@ == content_type_of(output_encoding(*params).0),
        r is Err ==> (r->Err_0 matches ImageProxyError::ConversionError(m)
            && starts_with_text(m@, encoder_label(output_encoding(*params).0) + " encoding failed: "@)),
{
    let (f, q) = choose_encoding(params);
    let (label, ctype) = match f {
        ImageConversionFormat::Webp => ("WebP", "image/webp"),
        ImageConversionFormat::Jpg => ("JPEG", "image/jpeg"),
        ImageConversionFormat::Png => ("PNG", "image/png"),
        ImageConversionFormat::Gif => ("GIF", "image/gif"),
        ImageConversionFormat::Avif => ("AVIF", "image/avif"),
    };
    let encoded = if f == ImageConversionFormat::Jpg { encode_jpeg(img, q) } else { encode_as(img, f) };
    match encoded {
        Ok(bytes) => Ok((bytes, String::from_str(ctype))),
        Err(e) => {
            let head = String::from_str(label).concat(" encoding failed: ");
            let msg = head.concat(e.as_str());
            assert(msg@.subrange(0, head@.len() as int) =~= head@);
            Err(ImageProxyError::ConversionError(msg))
        },
    }
}

/// Bytes and content type of a successful conversion: the bytes decode, the sizes fit the
/// budget, and the encoder accepts the transformed image.
pub open spec fn conversion(data: Seq<u8>, p: ImageConversionParams) -> Option<(Seq<u8>, Seq<char>)> {
    match decoded(data) {
        None => None,
        Some(d) => if !sizes_fit_budget(pixel_size(d), p) {
            None
        } else {
            match encoding_of(transformed(d, p), p) {
                Some(b) => Some((b, content_type_of(output_encoding(p).0))),
                None => None,
            }
        },
    }
}

/// With neither format nor quality given, a decodable image whose transform fits the
/// pixel budget and whose result JPEG can hold (sides from 1 to 65535) is served as the
/// JPEG encoding of the transformed image at quality 85.
pub proof fn lemma_default_output_is_jpeg_at_85(data: Seq<u8>, p: ImageConversionParams)
    requires
        p.format is None,
        p.quality is None,
        decoded(data) is Some,
        sizes_fit_budget(pixel_size(decoded(data)->0), p),
        jpeg_size_ok(pixel_size(transformed(decoded(data)->0, p))),
    ensures
        conversion(data, p) == Some((jpeg_encoding(transformed(decoded(data)->0, p), 85u8), "image/jpeg"@)),
{
}

/// Decodes, transforms and re-encodes an image.
pub fn convert_image(image_data: Vec<u8>, params: &ImageConversionParams) -> (r: Result<(Vec<u8>, String), ImageProxyError>)
    ensures
        r is Ok <==> conversion(image_data@, *params) is Some,
        r is Ok ==> ((r->Ok_0).0@, (r->Ok_0).1@) == conversion(image_data@, *params)->0,
        decoded(image_data@) is Some && sizes_fit_budget(pixel_size(decoded(image_data@)->0), *params)
            && output_encoding(*params).0 == ImageConversionFormat::Jpg
            && jpeg_size_ok(output_box(pixel_size(decoded(image_data@)->0), *params)) ==> r is Ok,
        decoded(image_data@) is None ==> (r matches Err(ImageProxyError::ConversionError(m))
            && starts_with_text(m@, "Failed to load image: "@)),
        decoded(image_data@) is Some && !sizes_fit_budget(pixel_size(decoded(image_data@)->0), *params)
            ==> (r matches Err(ImageProxyError::ConversionError(m)) && m@ == "Requested dimensions are too large"@),
        r is Err ==> r->Err_0 is ConversionError,
{
    let img = match decode(image_data.as_slice()) {
        Ok(img) => img,
        Err(e) => {
            let head = String::from_str("Failed to load image: ");
            let msg = head.concat(e.as_str());
            assert(msg@.subrange(0, head@.len() as int) =~= head@);
            return Err(ImageProxyError::ConversionError(msg));
        },
    };
    let processed = apply_transformations(img, params)?;
    encode_image(&processed, params)
}

// ---------------------------------------------------------------------------
// Image types
// ---------------------------------------------------------------------------

pub open spec fn starts_with_bytes(d: Seq<u8>, sig: Seq<u8>) -> bool {
    sig.len() <= d.len() && d.subrange(0, sig.len() as int) == sig
}

/// The image type that the leading bytes announce, each signature checked against its
/// own length; JPEG when none is recognised.
pub open spec fn sniffed_type(d: Seq<u8>) -> Seq<char> {
    if starts_with_bytes(d, seq![0xFFu8, 0xD8u8, 0xFFu8]) {
        "image/jpeg"@
    } else if starts_with_bytes(d, seq![0x89u8, 0x50u8, 0x4Eu8, 0x47u8]) {
        "image/png"@
    } else if starts_with_bytes(d, seq![0x47u8, 0x49u8, 0x46u8]) {
        "image/gif"@
    } else if starts_with_bytes(d, seq![0x52u8, 0x49u8, 0x46u8, 0x46u8]) && 12 <= d.len()
        && d.subrange(8, 12) == seq![0x57u8, 0x45u8, 0x42u8, 0x50u8] {
        "image/webp"@
    } else if starts_with_bytes(d, seq![0x42u8, 0x4Du8]) {
        "image/bmp"@
    } else if starts_with_bytes(d, seq![0x49u8, 0x49u8, 0x2Au8, 0x00u8])
        || starts_with_bytes(d, seq![0x4Du8, 0x4Du8, 0x00u8, 0x2Au8]) {
        "image/tiff"@
    } else if starts_with_bytes(d, seq![0x00u8, 0x00u8, 0x01u8, 0x00u8]) {
        "image/x-icon"@
    } else {
        "image/jpeg"@
    }
}

fn has_bytes_at(d: &Vec<u8>, at: usize, sig: &[u8]) -> (r: bool)
    ensures
        r == (at + sig@.len() <= d@.len() && d@.subrange(at as int, at + sig@.len()) == sig@),
{
    if at > d.len() || sig.len() > d.len() - at {
        return false;
    }
    let mut k: usize = 0;
    while k < sig.len()
        invariant
            d@.len() <= usize::MAX,
            at + sig@.len() <= d@.len(),
            k <= sig@.len(),
            forall|j: int| 0 <= j < k ==> d@[at + j] == sig@[j],
        decreases sig@.len() - k,
    {
        if d[at + k] != sig[k] {
            assert(d@.subrange(at as int, at + sig@.len())[k as int] != sig@[k as int]);
            return false;
        }
        k = k + 1;
    }
    assert(d@.subrange(at as int, at + sig@.len()) =~= sig@);
    true
}

/// The image type that the leading bytes announce (see `sniffed_type`).
pub fn detect_image_type(data: &Vec<u8>) -> (r: String)
    ensures
        r@ == sniffed_type(data@),
{
    let jpeg: [u8; 3] = [0xFF, 0xD8, 0xFF];
    let png: [u8; 4] = [0x89, 0x50, 0x4E, 0x47];
    let gif: [u8; 3] = [0x47, 0x49, 0x46];
    let riff: [u8; 4] = [0x52, 0x49, 0x46, 0x46];
    let webp: [u8; 4] = [0x57, 0x45, 0x42, 0x50];
    let bmp: [u8; 2] = [0x42, 0x4D];
    let tiff_le: [u8; 4] = [0x49, 0x49, 0x2A, 0x00];
    let tiff_be: [u8; 4] = [0x4D, 0x4D, 0x00, 0x2A];
    let ico: [u8; 4] = [0x00, 0x00, 0x01, 0x00];
    assert(jpeg@ =~= seq![0xFFu8, 0xD8u8, 0xFFu8]);
    assert(png@ =~= seq![0x89u8, 0x50u8, 0x4Eu8, 0x47u8]);
    assert(gif@ =~= seq![0x47u8, 0x49u8, 0x46u8]);
    assert(riff@ =~= seq![0x52u8, 0x49u8, 0x46u8, 0x46u8]);
    assert(webp@ =~= seq![0x57u8, 0x45u8, 0x42u8, 0x50u8]);
    assert(bmp@ =~= seq![0x42u8, 0x4Du8]);
    assert(tiff_le@ =~= seq![0x49u8, 0x49u8, 0x2Au8, 0x00u8]);
    assert(tiff_be@ =~= seq![0x4Du8, 0x4Du8, 0x00u8, 0x2Au8]);
    assert(ico@ =~= seq![0x00u8, 0x00u8, 0x01u8, 0x00u8]);
    let t = if has_bytes_at(data, 0, &jpeg) {
        "image/jpeg"
    } else if has_bytes_at(data, 0, &png) {
        "image/png"
    } else if has_bytes_at(data, 0, &gif) {
        "image/gif"
    } else if has_bytes_at(data, 0, &riff) && has_bytes_at(data, 8, &webp) {
        "image/webp"
    } else if has_bytes_at(data, 0, &bmp) {
        "image/bmp"
    } else if has_bytes_at(data, 0, &tiff_le) || has_bytes_at(data, 0, &tiff_be) {
        "image/tiff"
    } else if has_bytes_at(data, 0, &ico) {
        "image/x-icon"
    } else {
        "image/jpeg"
    };
    String::from_str(t)
}

/// Content type of a fetched image: the declared one, unless it is missing, empty or
/// generic, in which case the leading bytes decide.
pub open spec fn resolved_content_type(declared: Option<Seq<char>>, d: Seq<u8>) -> Seq<char> {
    let ct = match declared {
        Some(c) => c,
        None => "application/octet-stream"@,
    };
    if ct == "application/octet-stream"@ || ct.len() == 0 { sniffed_type(d) } else { ct }
}

/// Content type of a fetched image (see `resolved_content_type`).
pub fn resolve_content_type(declared: &Option<String>, data: &Vec<u8>) -> (r: String)
    ensures
        r@ == resolved_content_type(crate::models::opt_str_view(*declared), data@),
{
    let generic = crate::text::chars_of("application/octet-stream");
    match declared {
        Some(c) => {
            let cs = crate::text::chars_of(c.as_str());
            if cs.len() == 0 || crate::text::same_chars(&cs, &generic) {
                detect_image_type(data)
            } else {
                c.clone()
            }
        },
        None => detect_image_type(data),
    }
}

pub open spec fn image_status_text(status: u16) -> Seq<char> {
    "Image request failed with status: "@ + crate::text::decimal(status as nat)
}

/// What an image answer amounts to: the bytes and their type on success, an image error
/// for a non-success status, a network error when the body could not be read.
pub fn interpret_image_response(status: u16, content_type: Option<String>, body: Result<Vec<u8>, String>) -> (r: Result<(Vec<u8>, String), ImageProxyError>)
    ensures
        !(200 <= status < 300) ==> (r matches Err(ImageProxyError::ImageError(m)) && m@ == image_status_text(status)),
        200 <= status < 300 && body is Err ==> (r matches Err(ImageProxyError::NetworkError(m)) && m@ == body->Err_0@),
        200 <= status < 300 && body is Ok ==> r is Ok && (r->Ok_0).0 == body->Ok_0
            && (r->Ok_0).1@ == resolved_content_type(crate::models::opt_str_view(content_type), body->Ok_0@),
{
    if status < 200 || status >= 300 {
        let msg = String::from_str("Image request failed with status: ").concat(crate::text::decimal_string(status as u64).as_str());
        return Err(ImageProxyError::ImageError(msg));
    }
    match body {
        Ok(bytes) => {
            let ct = resolve_content_type(&content_type, &bytes);
            Ok((bytes, ct))
        },
        Err(e) => Err(ImageProxyError::NetworkError(e)),
    }
}

/// The answer to an image request: the fetched bytes and type when no parameter is set,
/// else the converted image (see `conversion`).
pub fn transform_fetched(data: Vec<u8>, content_type: String, params: &ImageConversionParams) -> (r: Result<(Vec<u8>, String), ImageProxyError>)
    ensures
        !any_set(*params) ==> r is Ok && (r->Ok_0).0 == data && (r->Ok_0).1 == content_type,
        any_set(*params) ==> (r is Ok <==> conversion(data@, *params) is Some),
        any_set(*params) && r is Ok ==> ((r->Ok_0).0@, (r->Ok_0).1@) == conversion(data@, *params)->0,
        any_set(*params) && decoded(data@) is Some && sizes_fit_budget(pixel_size(decoded(data@)->0), *params)
            && output_encoding(*params).0 == ImageConversionFormat::Jpg
            && jpeg_size_ok(output_box(pixel_size(decoded(data@)->0), *params)) ==> r is Ok,
        r is Err ==> r->Err_0 is ConversionError,
{
    if !params.needs_conversion() {
        return Ok((data, content_type));
    }
    convert_image(data, params)
}

} // verus!
