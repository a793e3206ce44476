//! Image transform parameters, their canonical cache key, and the geometry of each fit
//! strategy.

use vstd::prelude::*;
use crate::text::{chars_of, append_str, append_chars, decimal, push_decimal, string_of};

verus! {

#[derive(Debug, Clone, Copy, PartialEq, Eq, Structural)]
pub enum ImageConversionFormat {
    Webp,
    Jpg,
    Png,
    Gif,
    Avif,
}

#[derive(Debug, Clone, Copy, PartialEq, Eq, Structural)]
pub enum ImageFit {
    Pad,
    Fill,
    Scale,
    Crop,
    Thumb,
}

#[derive(Debug, Clone, Copy, PartialEq, Eq, Structural)]
pub enum ImageFocus {
    Center,
    Top,
    Right,
    Left,
    Bottom,
    TopRight,
    TopLeft,
    BottomRight,
    BottomLeft,
    Face,
    Faces,
}

/// Requested transform. Every field is optional; none set means "serve the source image as it is".
#[derive(Debug, Clone, Copy, PartialEq, Eq, Structural)]
pub struct ImageConversionParams {
    pub width: Option<u32>,
    pub height: Option<u32>,
    pub format: Option<ImageConversionFormat>,
    pub quality: Option<u8>,
    pub fit: Option<ImageFit>,
    pub focus: Option<ImageFocus>,
}

pub open spec fn format_name(f: ImageConversionFormat) -> Seq<char> {
    match f {
        ImageConversionFormat::Webp => "webp"@,
        ImageConversionFormat::Jpg => "jpg"@,
        ImageConversionFormat::Png => "png"@,
        ImageConversionFormat::Gif => "gif"@,
        ImageConversionFormat::Avif => "avif"@,
    }
}

pub open spec fn fit_name(f: ImageFit) -> Seq<char> {
    match f {
        ImageFit::Pad => "pad"@,
        ImageFit::Fill => "fill"@,
        ImageFit::Scale => "scale"@,
        ImageFit::Crop => "crop"@,
        ImageFit::Thumb => "thumb"@,
    }
}

/// Focus name as it appears in a cache key (no separators).
pub open spec fn focus_key_name(f: ImageFocus) -> Seq<char> {
    match f {
        ImageFocus::Center => "center"@,
        ImageFocus::Top => "top"@,
        ImageFocus::Right => "right"@,
        ImageFocus::Left => "left"@,
        ImageFocus::Bottom => "bottom"@,
        ImageFocus::TopRight => "topright"@,
        ImageFocus::TopLeft => "topleft"@,
        ImageFocus::BottomRight => "bottomright"@,
        ImageFocus::BottomLeft => "bottomleft"@,
        ImageFocus::Face => "face"@,
        ImageFocus::Faces => "faces"@,
    }
}

pub open spec fn opt_part<T>(o: Option<T>, f: spec_fn(T) -> Seq<char>) -> Seq<Seq<char>> {
    match o {
        Some(x) => seq![f(x)],
        None => Seq::empty(),
    }
}

/// One token per set field, in the fixed order width, height, format, quality, fit, focus.
pub open spec fn key_parts(p: ImageConversionParams) -> Seq<Seq<char>> {
    opt_part(p.width, |w: u32| "w"@ + decimal(w as nat))
        + opt_part(p.height, |h: u32| "h"@ + decimal(h as nat))
        + opt_part(p.format, |f: ImageConversionFormat| "f"@ + format_name(f))
        + opt_part(p.quality, |q: u8| "q"@ + decimal(q as nat))
        + opt_part(p.fit, |f: ImageFit| "fit"@ + fit_name(f))
        + opt_part(p.focus, |f: ImageFocus| "focus"@ + focus_key_name(f))
}

/// The parts joined by `_`.
pub open spec fn joined(parts: Seq<Seq<char>>) -> Seq<char>
    decreases parts.len(),
{
    if parts.len() == 0 {
        Seq::empty()
    } else if parts.len() == 1 {
        parts[0]
    } else {
        joined(parts.drop_last()) + "_"@ + parts.last()
    }
}

/// The canonical serialisation of a parameter set.
pub open spec fn cache_key_of(p: ImageConversionParams) -> Seq<char> {
    if key_parts(p).len() == 0 { "original"@ } else { joined(key_parts(p)) }
}

pub open spec fn any_set(p: ImageConversionParams) -> bool {
    p.width is Some || p.height is Some || p.format is Some || p.quality is Some || p.fit is Some
        || p.focus is Some
}

fn format_str(f: ImageConversionFormat) -> (r: &'static str)
    ensures
        r@ == format_name(f),
{
    match f {
        ImageConversionFormat::Webp => "webp",
        ImageConversionFormat::Jpg => "jpg",
        ImageConversionFormat::Png => "png",
        ImageConversionFormat::Gif => "gif",
        ImageConversionFormat::Avif => "avif",
    }
}

fn fit_str(f: ImageFit) -> (r: &'static str)
    ensures
        r@ == fit_name(f),
{
    match f {
        ImageFit::Pad => "pad",
        ImageFit::Fill => "fill",
        ImageFit::Scale => "scale",
        ImageFit::Crop => "crop",
        ImageFit::Thumb => "thumb",
    }
}

fn focus_str(f: ImageFocus) -> (r: &'static str)
    ensures
        r@ == focus_key_name(f),
{
    match f {
        ImageFocus::Center => "center",
        ImageFocus::Top => "top",
        ImageFocus::Right => "right",
        ImageFocus::Left => "left",
        ImageFocus::Bottom => "bottom",
        ImageFocus::TopRight => "topright",
        ImageFocus::TopLeft => "topleft",
        ImageFocus::BottomRight => "bottomright",
        ImageFocus::BottomLeft => "bottomleft",
        ImageFocus::Face => "face",
        ImageFocus::Faces => "faces",
    }
}

/// Appends `part` to the key under construction, after a `_` unless it is the first.
fn push_part(out: &mut Vec<char>, count: &mut usize, part: &Vec<char>, Ghost(parts): Ghost<Seq<Seq<char>>>)
    requires
        old(out)@ == joined(parts),
        *old(count) == parts.len(),
        parts.len() < 6,
    ensures
        final(out)@ == joined(parts.push(part@)),
        *final(count) == parts.len() + 1,
{
    let ghost np = parts.push(part@);
    assert(np.drop_last() =~= parts);
    if *count > 0 {
        out.push('_');
        assert(seq!['_'] =~= "_"@) by {
            reveal_strlit("_");
        }
    }
    append_chars(out, part);
    *count = *count + 1;
    proof {
        if parts.len() == 0 {
            assert(final(out)@ =~= part@);
        } else {
            assert(final(out)@ =~= joined(parts) + "_"@ + part@);
        }
    }
}

fn tagged_number(tag: &str, n: u64) -> (r: Vec<char>)
    ensures
        r@ == tag@ + decimal(n as nat),
{
    let mut v = chars_of(tag);
    push_decimal(&mut v, n);
    v
}

fn tagged_name(tag: &str, name: &str) -> (r: Vec<char>)
    ensures
        r@ == tag@ + name@,
{
    let mut v = chars_of(tag);
    append_str(&mut v, name);
    v
}

impl ImageConversionParams {
    /// No field set.
    pub fn new() -> (r: Self)
        ensures
            !any_set(r),
    {
        ImageConversionParams { width: None, height: None, format: None, quality: None, fit: None, focus: None }
    }

    pub fn with_width(self, w: u32) -> (r: Self)
        ensures
            r == (Self { width: Some(w), ..self }),
    {
        Self { width: Some(w), ..self }
    }

    pub fn with_height(self, h: u32) -> (r: Self)
        ensures
            r == (Self { height: Some(h), ..self }),
    {
        Self { height: Some(h), ..self }
    }

    pub fn with_format(self, f: ImageConversionFormat) -> (r: Self)
        ensures
            r == (Self { format: Some(f), ..self }),
    {
        Self { format: Some(f), ..self }
    }

    pub fn with_quality(self, q: u8) -> (r: Self)
        ensures
            r == (Self { quality: Some(q), ..self }),
    {
        Self { quality: Some(q), ..self }
    }

    pub fn with_fit(self, f: ImageFit) -> (r: Self)
        ensures
            r == (Self { fit: Some(f), ..self }),
    {
        Self { fit: Some(f), ..self }
    }

    pub fn with_focus(self, f: ImageFocus) -> (r: Self)
        ensures
            r == (Self { focus: Some(f), ..self }),
    {
        Self { focus: Some(f), ..self }
    }

    /// The canonical serialisation (see `cache_key_of`).
    #[verifier::rlimit(60)]
    pub fn to_cache_key(&self) -> (r: String)
        ensures
            r@ == cache_key_of(*self),
    {
        let mut out: Vec<char> = Vec::new();
        let mut count: usize = 0;
        let ghost mut parts: Seq<Seq<char>> = Seq::empty();
        if let Some(w) = self.width {
            let t = tagged_number("w", w as u64);
            push_part(&mut out, &mut count, &t, Ghost(parts));
            proof { parts = parts.push(t@); }
        }
        assert(parts =~= opt_part(self.width, |w: u32| "w"@ + decimal(w as nat)));
        let ghost with_w = parts;
        if let Some(h) = self.height {
            let t = tagged_number("h", h as u64);
            push_part(&mut out, &mut count, &t, Ghost(parts));
            proof { parts = parts.push(t@); }
        }
        assert(parts =~= with_w + opt_part(self.height, |h: u32| "h"@ + decimal(h as nat)));
        let ghost with_h = parts;
        if let Some(f) = self.format {
            let t = tagged_name("f", format_str(f));
            push_part(&mut out, &mut count, &t, Ghost(parts));
            proof { parts = parts.push(t@); }
        }
        assert(parts =~= with_h + opt_part(self.format, |f: ImageConversionFormat| "f"@ + format_name(f)));
        let ghost with_f = parts;
        if let Some(q) = self.quality {
            let t = tagged_number("q", q as u64);
            push_part(&mut out, &mut count, &t, Ghost(parts));
            proof { parts = parts.push(t@); }
        }
        assert(parts =~= with_f + opt_part(self.quality, |q: u8| "q"@ + decimal(q as nat)));
        let ghost with_q = parts;
        if let Some(f) = self.fit {
            let t = tagged_name("fit", fit_str(f));
            push_part(&mut out, &mut count, &t, Ghost(parts));
            proof { parts = parts.push(t@); }
        }
        assert(parts =~= with_q + opt_part(self.fit, |f: ImageFit| "fit"@ + fit_name(f)));
        let ghost with_fit = parts;
        if let Some(f) = self.focus {
            let t = tagged_name("focus", focus_str(f));
            push_part(&mut out, &mut count, &t, Ghost(parts));
            proof { parts = parts.push(t@); }
        }
        assert(parts =~= with_fit + opt_part(self.focus, |f: ImageFocus| "focus"@ + focus_key_name(f)));
        assert(parts =~= key_parts(*self));
        if count == 0 {
            String::from_str("original")
        } else {
            string_of(&out)
        }
    }

    /// Whether any field is set, i.e. whether the image must be transformed at all.
    pub fn needs_conversion(&self) -> (r: bool)
        ensures
            r == any_set(*self),
    {
        self.width.is_some() || self.height.is_some() || self.format.is_some() || self.quality.is_some()
            || self.fit.is_some() || self.focus.is_some()
    }
}

/// Setting fields in a different order gives the same parameters, and so the same key.
pub proof fn lemma_cache_key_ignores_call_order(p: ImageConversionParams, w: u32, h: u32, f: ImageFit, focus: ImageFocus)
    ensures
        cache_key_of(ImageConversionParams { width: Some(w), ..ImageConversionParams { height: Some(h), ..p } })
            == cache_key_of(ImageConversionParams { height: Some(h), ..ImageConversionParams { width: Some(w), ..p } }),
        cache_key_of(ImageConversionParams { fit: Some(f), ..ImageConversionParams { focus: Some(focus), ..p } })
            == cache_key_of(ImageConversionParams { focus: Some(focus), ..ImageConversionParams { fit: Some(f), ..p } }),
{
    assert(ImageConversionParams { width: Some(w), ..ImageConversionParams { height: Some(h), ..p } }
        == ImageConversionParams { height: Some(h), ..ImageConversionParams { width: Some(w), ..p } });
    assert(ImageConversionParams { fit: Some(f), ..ImageConversionParams { focus: Some(focus), ..p } }
        == ImageConversionParams { focus: Some(focus), ..ImageConversionParams { fit: Some(f), ..p } });
}

// ---------------------------------------------------------------------------
// Geometry
// ---------------------------------------------------------------------------

/// Largest number of pixels of any image this library asks for.
pub const MAX_PIXELS: u64 = 100_000_000;

pub open spec fn sat_sub(a: u32, b: u32) -> u32 {
    if a >= b { (a - b) as u32 } else { 0 }
}

pub open spec fn min_u32(a: u32, b: u32) -> u32 {
    if a <= b { a } else { b }
}

/// `n * num / den`, rounded down and capped at `u32::MAX` (0 when `den` is 0).
pub open spec fn scaled(n: u32, num: u32, den: u32) -> u32 {
    if den == 0 {
        0
    } else if (n as int) * (num as int) / (den as int) > u32::MAX as int {
        u32::MAX
    } else {
        ((n as int) * (num as int) / (den as int)) as u32
    }
}

/// Target size for a source of `cur`: both sides when both are given, the missing side
/// from the source's aspect ratio when one is, none when neither is.
pub open spec fn target_size(cur: (u32, u32), width: Option<u32>, height: Option<u32>) -> Option<(u32, u32)> {
    match (width, height) {
        (Some(w), Some(h)) => Some((w, h)),
        (Some(w), None) => Some((w, scaled(w, cur.1, cur.0))),
        (None, Some(h)) => Some((scaled(h, cur.0, cur.1), h)),
        (None, None) => None,
    }
}

/// Top-left corner of a `target` crop of a `cur` image for a focus anchor. The face
/// anchors resolve to the centre.
pub open spec fn crop_origin(cur: (u32, u32), target: (u32, u32), focus: ImageFocus) -> (u32, u32) {
    let dx = sat_sub(cur.0, target.0);
    let dy = sat_sub(cur.1, target.1);
    match focus {
        ImageFocus::Top => ((dx / 2) as u32, 0),
        ImageFocus::Bottom => ((dx / 2) as u32, dy),
        ImageFocus::Left => (0, (dy / 2) as u32),
        ImageFocus::Right => (dx, (dy / 2) as u32),
        ImageFocus::TopLeft => (0, 0),
        ImageFocus::TopRight => (dx, 0),
        ImageFocus::BottomLeft => (0, dy),
        ImageFocus::BottomRight => (dx, dy),
        _ => ((dx / 2) as u32, (dy / 2) as u32),
    }
}

/// Size of the crop: the target, clamped to the source.
pub open spec fn crop_size(cur: (u32, u32), target: (u32, u32)) -> (u32, u32) {
    (min_u32(target.0, cur.0), min_u32(target.1, cur.1))
}

/// Where a `cur` image sits, centred, on a `target` canvas.
pub open spec fn pad_offsets(cur: (u32, u32), target: (u32, u32)) -> (u32, u32) {
    ((sat_sub(target.0, cur.0) / 2) as u32, (sat_sub(target.1, cur.1) / 2) as u32)
}

/// `n * num / den`, rounded up and capped at `u32::MAX` (0 when `den` is 0).
pub open spec fn scaled_up(n: u32, num: u32, den: u32) -> u32 {
    if den == 0 {
        0
    } else if ((n as int) * (num as int) + (den as int) - 1) / (den as int) > u32::MAX as int {
        u32::MAX
    } else {
        (((n as int) * (num as int) + (den as int) - 1) / (den as int)) as u32
    }
}

/// Size of the uniform scaling of `cur` that covers `target`: the side with the larger
/// scale factor becomes exact, the other follows the aspect ratio, rounded up so that it
/// still covers.
pub open spec fn cover_size(cur: (u32, u32), target: (u32, u32)) -> (u32, u32) {
    if (target.0 as int) * (cur.1 as int) >= (target.1 as int) * (cur.0 as int) {
        (target.0, scaled_up(cur.1, target.0, cur.0))
    } else {
        (scaled_up(cur.0, target.1, cur.1), target.1)
    }
}

proof fn lemma_ceil_covers(n: u32, num: u32, den: u32, want: u32)
    requires
        den > 0,
        (n as int) * (num as int) >= (want as int) * (den as int),
    ensures
        scaled_up(n, num, den) >= want,
{
    let a = (n as int) * (num as int) + (den as int) - 1;
    assert(a >= (den as int) * (want as int)) by (nonlinear_arith)
        requires
            (n as int) * (num as int) >= (want as int) * (den as int),
            den > 0,
            a == (n as int) * (num as int) + (den as int) - 1,
    ;
    vstd::arithmetic::div_mod::lemma_div_is_ordered((den as int) * (want as int), a, den as int);
    vstd::arithmetic::div_mod::lemma_div_multiples_vanish(want as int, den as int);
}

/// A covering size is at least the target on both sides.
pub proof fn lemma_cover_contains_target(cur: (u32, u32), target: (u32, u32))
    requires
        cur.0 > 0,
        cur.1 > 0,
    ensures
        cover_size(cur, target).0 >= target.0,
        cover_size(cur, target).1 >= target.1,
{
    if (target.0 as int) * (cur.1 as int) >= (target.1 as int) * (cur.0 as int) {
        lemma_ceil_covers(cur.1, target.0, cur.0, target.1);
    } else {
        lemma_ceil_covers(cur.0, target.1, cur.1, target.0);
    }
}

proof fn lemma_u32_product_fits(a: u32, b: u32)
    ensures
        (a as int) * (b as int) <= u64::MAX as int,
        0 <= (a as int) * (b as int),
{
    assert((a as int) * (b as int) <= (u32::MAX as int) * (u32::MAX as int)) by (nonlinear_arith)
        requires
            0 <= a <= u32::MAX,
            0 <= b <= u32::MAX,
    ;
    assert(0 <= (a as int) * (b as int)) by (nonlinear_arith)
        requires
            0 <= a,
            0 <= b,
    ;
}

pub fn scale_dim_up(n: u32, num: u32, den: u32) -> (r: u32)
    ensures
        r == scaled_up(n, num, den),
{
    if den == 0 {
        return 0;
    }
    proof {
        lemma_u32_product_fits(n, num);
    }
    let p: u64 = (n as u64) * (num as u64);
    let base: u64 = p / (den as u64);
    let rem: u64 = p % (den as u64);
    proof {
        let a = p as int;
        let d = den as int;
        vstd::arithmetic::div_mod::lemma_fundamental_div_mod(a, d);
        let qq = a / d;
        let rr = a % d;
        assert(0 <= rr < d);
        assert(qq >= 0) by {
            vstd::arithmetic::div_mod::lemma_div_pos_is_pos(a, d);
        }
        assert(qq <= a) by (nonlinear_arith)
            requires
                a == d * qq + rr,
                d >= 1,
                qq >= 0,
                rr >= 0,
        ;
        assert((n as int) * (num as int) <= 4294967295 * 4294967295) by (nonlinear_arith)
            requires
                0 <= n <= 4294967295,
                0 <= num <= 4294967295,
        ;
        assert(base as int == qq);
        assert(a + d - 1 == d * qq + (rr + d - 1));
        if rr == 0 {
            vstd::arithmetic::div_mod::lemma_div_multiples_vanish_fancy(qq, d - 1, d);
        } else {
            assert(a + d - 1 == d * (qq + 1) + (rr - 1)) by (nonlinear_arith)
                requires
                    a + d - 1 == d * qq + (rr + d - 1),
            ;
            vstd::arithmetic::div_mod::lemma_div_multiples_vanish_fancy(qq + 1, rr - 1, d);
        }
    }
    let q: u64 = if rem == 0 { base } else { base + 1 };
    if q > u32::MAX as u64 {
        u32::MAX
    } else {
        q as u32
    }
}

pub fn scale_dim(n: u32, num: u32, den: u32) -> (r: u32)
    ensures
        r == scaled(n, num, den),
{
    if den == 0 {
        return 0;
    }
    proof {
        lemma_u32_product_fits(n, num);
    }
    let p: u64 = (n as u64) * (num as u64);
    let q: u64 = p / (den as u64);
    if q > u32::MAX as u64 {
        u32::MAX
    } else {
        q as u32
    }
}

/// Target size (see `target_size`).
pub fn resolve_target_size(cur: (u32, u32), width: Option<u32>, height: Option<u32>) -> (r: Option<(u32, u32)>)
    ensures
        r == target_size(cur, width, height),
{
    match (width, height) {
        (Some(w), Some(h)) => Some((w, h)),
        (Some(w), None) => Some((w, scale_dim(w, cur.1, cur.0))),
        (None, Some(h)) => Some((scale_dim(h, cur.0, cur.1), h)),
        (None, None) => None,
    }
}

fn sub_or_zero(a: u32, b: u32) -> (r: u32)
    ensures
        r == sat_sub(a, b),
{
    if a >= b { a - b } else { 0 }
}

/// Crop origin (see `crop_origin`).
pub fn compute_crop_origin(cur: (u32, u32), target: (u32, u32), focus: ImageFocus) -> (r: (u32, u32))
    ensures
        r == crop_origin(cur, target, focus),
{
    let dx = sub_or_zero(cur.0, target.0);
    let dy = sub_or_zero(cur.1, target.1);
    match focus {
        ImageFocus::Top => (dx / 2, 0),
        ImageFocus::Bottom => (dx / 2, dy),
        ImageFocus::Left => (0, dy / 2),
        ImageFocus::Right => (dx, dy / 2),
        ImageFocus::TopLeft => (0, 0),
        ImageFocus::TopRight => (dx, 0),
        ImageFocus::BottomLeft => (0, dy),
        ImageFocus::BottomRight => (dx, dy),
        _ => (dx / 2, dy / 2),
    }
}

/// Pad offsets (see `pad_offsets`).
pub fn compute_pad_offsets(cur: (u32, u32), target: (u32, u32)) -> (r: (u32, u32))
    ensures
        r == pad_offsets(cur, target),
{
    (sub_or_zero(target.0, cur.0) / 2, sub_or_zero(target.1, cur.1) / 2)
}

/// Cover size (see `cover_size`).
pub fn compute_cover_size(cur: (u32, u32), target: (u32, u32)) -> (r: (u32, u32))
    ensures
        r == cover_size(cur, target),
{
    proof {
        lemma_u32_product_fits(target.0, cur.1);
        lemma_u32_product_fits(target.1, cur.0);
    }
    let a: u64 = (target.0 as u64) * (cur.1 as u64);
    let b: u64 = (target.1 as u64) * (cur.0 as u64);
    if a >= b {
        (target.0, scale_dim_up(cur.1, target.0, cur.0))
    } else {
        (scale_dim_up(cur.0, target.1, cur.1), target.1)
    }
}

} // verus!
