//! From the encoded render of a page to the pixels that go on screen: the
//! image is decoded, and the places where the search term occurs are tinted.

use vstd::prelude::*;
use vstd::arithmetic::div_mod::lemma_fundamental_div_mod_converse;
use crate::converter::Converter;
use crate::renderer::{HighlightRect, PageInfo, RenderError};
use crate::text::push_text;

verus! {

/// How much the blue of a pixel loses for each occurrence of the term that
/// covers it.
pub const HIGHLIGHT_DIM: u8 = 127;

/// A decoded image: rows of pixels from the top, each pixel three bytes, red,
/// green and blue.
#[derive(Clone, Debug, PartialEq, Eq)]
pub struct RgbFrame {
    pub width: u32,
    pub height: u32,
    pub data: Vec<u8>,
}

/// The pixel lies inside the rectangle and not on its border.
pub open spec fn inside(r: HighlightRect, x: int, y: int) -> bool {
    r.ul_x < x < r.lr_x && r.ul_y < y < r.lr_y
}

/// Cutting a rectangle to the image changes nothing for the pixels of the
/// image: each lies inside the cut rectangle exactly if it lay inside the
/// rectangle.
pub proof fn lemma_cutting_keeps_the_pixels(r: HighlightRect, w: u32, h: u32, x: int, y: int)
    requires
        0 <= x < w,
        0 <= y < h,
    ensures
        inside(r.cut_to(w, h), x, y) == inside(r, x, y),
{
}

/// How many of the first `n` rectangles the pixel lies inside.
pub open spec fn hits_at(rects: Seq<HighlightRect>, n: nat, x: int, y: int) -> nat
    decreases n,
{
    if n == 0 {
        0
    } else {
        hits_at(rects, (n - 1) as nat, x, y) + if inside(rects[n - 1], x, y) {
            1nat
        } else {
            0nat
        }
    }
}

/// A colour value that lost `HIGHLIGHT_DIM` `k` times, as far as it had it.
pub open spec fn dimmed(b: u8, k: nat) -> u8 {
    if b >= 127 * k {
        (b - 127 * k) as u8
    } else {
        0
    }
}

/// The bytes of an image `w` pixels wide after the first `n` rectangles were
/// tinted: the blue of a pixel is dimmed once for each rectangle that the
/// pixel lies inside; red and green stay.
pub open spec fn painted(data: Seq<u8>, w: int, rects: Seq<HighlightRect>, n: nat) -> Seq<u8> {
    Seq::new(
        data.len(),
        |i: int|
            if i % 3 == 2 {
                dimmed(data[i], hits_at(rects, n, (i / 3) % w, (i / 3) / w))
            } else {
                data[i]
            },
    )
}

impl RgbFrame {
    /// There are three bytes for each pixel.
    pub open spec fn wf(&self) -> bool {
        self.data@.len() == 3 * (self.width * self.height)
    }
}

proof fn lemma_pixel_in_bounds(w: int, h: int, x: int, y: int)
    requires
        0 <= x < w,
        0 <= y < h,
    ensures
        0 <= w * y + x < w * h,
        w * (y + 1) == w * y + w,
{
    assert(w * y + w <= w * h) by (nonlinear_arith)
        requires
            0 <= y < h,
            0 < w,
    ;
    assert(0 <= w * y) by (nonlinear_arith)
        requires
            0 <= y,
            0 < w,
    ;
    assert(w * (y + 1) == w * y + w) by (nonlinear_arith);
}

/// Tints one rectangle.
fn paint_rect(frame: &mut RgbFrame, rects: &Vec<HighlightRect>, r: usize, Ghost(orig): Ghost<Seq<u8>>)
    requires
        old(frame).wf(),
        r < rects.len(),
        orig.len() == old(frame).data@.len(),
        old(frame).data@ == painted(orig, old(frame).width as int, rects@, r as nat),
    ensures
        final(frame).width == old(frame).width,
        final(frame).height == old(frame).height,
        final(frame).data@ == painted(orig, old(frame).width as int, rects@, (r + 1) as nat),
{
    let w = frame.width;
    let h = frame.height;
    let rect = rects[r];
    let ghost before = frame.data@;
    let mut x: u32 = 0;
    let mut y: u32 = 0;
    let mut idx: usize = 0;
    let len = frame.data.len();
    if w == 0 {
        assert(w * h == 0) by (nonlinear_arith)
            requires
                w == 0,
        ;
        assert(frame.data@ =~= painted(orig, w as int, rects@, (r + 1) as nat));
        return ;
    }
    while y < h
        invariant
            w > 0,
            w == frame.width,
            h == frame.height,
            frame.data@.len() == 3 * (w * h),
            frame.data@.len() == len,
            idx <= len,
            orig.len() == frame.data@.len(),
            before == painted(orig, w as int, rects@, r as nat),
            r < rects.len(),
            rect == rects[r as int],
            y <= h,
            x < w,
            y == h ==> x == 0,
            idx == 3 * (w * y + x),
            forall|i: int|
                0 <= i < idx ==> #[trigger] frame.data@[i] == painted(
                    orig,
                    w as int,
                    rects@,
                    (r + 1) as nat,
                )[i],
            forall|i: int| idx <= i < frame.data@.len() ==> #[trigger] frame.data@[i] == before[i],
        decreases (h - y) * w - x,
    {
        proof {
            lemma_pixel_in_bounds(w as int, h as int, x as int, y as int);
            lemma_fundamental_div_mod_converse(w * y + x, w as int, y as int, x as int);
            assert((idx + 2) / 3 == w * y + x);
            assert(idx / 3 == w * y + x);
            assert((idx + 1) / 3 == w * y + x);
        }
        if x > rect.ul_x && x < rect.lr_x && y > rect.ul_y && y < rect.lr_y {
            let blue = frame.data[idx + 2];
            let tinted = if blue >= HIGHLIGHT_DIM {
                blue - HIGHLIGHT_DIM
            } else {
                0
            };
            frame.data.set(idx + 2, tinted);
        }
        proof {
            let k = hits_at(rects@, r as nat, x as int, y as int);
            assert(before[idx + 2] == dimmed(orig[idx + 2], k));
            assert(hits_at(rects@, (r + 1) as nat, x as int, y as int) == k + if inside(
                rect,
                x as int,
                y as int,
            ) {
                1nat
            } else {
                0nat
            });
            assert((h - y) * w - x > (h - y - 1) * w) by (nonlinear_arith)
                requires
                    x < w,
            ;
        }
        idx = idx + 3;
        x = x + 1;
        if x == w {
            x = 0;
            y = y + 1;
        }
    }
    proof {
        assert(idx == 3 * (w * h));
    }
    assert(frame.data@ =~= painted(orig, w as int, rects@, (r + 1) as nat));
}

/// Tints every place where the term occurs: inside each rectangle the blue
/// of a pixel loses `HIGHLIGHT_DIM`, down to nothing.
pub fn paint_highlights(frame: &mut RgbFrame, rects: &Vec<HighlightRect>)
    requires
        old(frame).wf(),
    ensures
        final(frame).wf(),
        final(frame).width == old(frame).width,
        final(frame).height == old(frame).height,
        final(frame).data@ == painted(
            old(frame).data@,
            old(frame).width as int,
            rects@,
            rects@.len(),
        ),
{
    let ghost orig = frame.data@;
    assert(frame.data@ =~= painted(orig, frame.width as int, rects@, 0));
    let mut r: usize = 0;
    while r < rects.len()
        invariant
            r <= rects.len(),
            frame.wf(),
            frame.width == old(frame).width,
            frame.height == old(frame).height,
            orig == old(frame).data@,
            frame.data@ == painted(orig, frame.width as int, rects@, r as nat),
        decreases rects.len() - r,
    {
        paint_rect(frame, rects, r, Ghost(orig));
        r = r + 1;
    }
}

/// The error of the image decoder.
#[verifier::external_type_specification]
#[verifier::external_body]
pub struct ExImageError(image::ImageError);

/// What the decoder made of a render.
#[derive(Clone, Debug, PartialEq, Eq)]
pub enum Decoded {
    /// Three bytes for each pixel: red, green and blue.
    Rgb8 { width: u32, height: u32, data: Vec<u8> },
    /// An image of another kind.
    Other,
}

/// What a decoded image holds, as contracts speak of it.
pub enum DecodedView {
    Rgb8 { width: u32, height: u32, data: Seq<u8> },
    Other,
}

impl View for Decoded {
    type V = DecodedView;

    open spec fn view(&self) -> DecodedView {
        match self {
            Decoded::Rgb8 { width, height, data } => DecodedView::Rgb8 {
                width: *width,
                height: *height,
                data: data@,
            },
            Decoded::Other => DecodedView::Other,
        }
    }
}

/// The image that the decoder reads out of these bytes as a portable
/// anymap, if it reads one.
pub uninterp spec fn pnm_image(bytes: Seq<u8>) -> Option<DecodedView>;

/// Calls `image::load_from_memory_with_format` for the portable anymap
/// format. The claim is that what it reads depends on the bytes alone; of an
/// image of eight-bit red, green and blue the size and the raw buffer are
/// handed on.
#[verifier::external_body]
fn decode_pnm(bytes: &Vec<u8>) -> (r: Result<Decoded, image::ImageError>)
    ensures
        match r {
            Ok(d) => pnm_image(bytes@) == Some(d@),
            Err(_) => pnm_image(bytes@) is None,
        },
{
    match image::load_from_memory_with_format(bytes.as_slice(), image::ImageFormat::Pnm)? {
        image::DynamicImage::ImageRgb8(img) => Ok(
            Decoded::Rgb8 { width: img.width(), height: img.height(), data: img.into_raw() },
        ),
        _ => Ok(Decoded::Other),
    }
}

/// The words of `image::ImageError`, by its `Display`.
#[verifier::external_body]
fn image_error_text(e: &image::ImageError) -> (s: String) {
    e.to_string()
}

/// Whether a decoded image can be tinted: it has red, green and blue, and
/// its buffer holds three bytes for each pixel.
pub open spec fn usable(d: DecodedView) -> bool {
    d matches DecodedView::Rgb8 { width, height, data } && data.len() == 3 * (width * height)
}

/// The frame of a decoded image that can be tinted.
pub fn frame_of(decoded: Decoded) -> (r: Option<RgbFrame>)
    ensures
        match r {
            Some(f) => usable(decoded@) && f.wf() && decoded@ == (DecodedView::Rgb8 {
                width: f.width,
                height: f.height,
                data: f.data@,
            }),
            None => !usable(decoded@),
        },
{
    match decoded {
        Decoded::Rgb8 { width, height, data } => {
            assert(width * height <= 0xffff_ffff * 0xffff_ffff) by (nonlinear_arith)
                requires
                    width <= 0xffff_ffff,
                    height <= 0xffff_ffff,
            ;
            let pixels: u64 = (width as u64) * (height as u64);
            let bytes: u128 = 3 * (pixels as u128);
            if (data.len() as u128) == bytes {
                Some(RgbFrame { width, height, data })
            } else {
                None
            }
        },
        Decoded::Other => None,
    }
}

/// A page that is ready for the screen: its pixels, tinted where the term
/// occurs, and its size in terminal cells.
#[derive(Clone, Debug, PartialEq, Eq)]
pub struct PaintedPage {
    pub frame: RgbFrame,
    pub page_num: usize,
    pub num_results: usize,
    pub cell_w: u16,
    pub cell_h: u16,
}

/// Tints the decoded render of a page. A render that cannot be tinted is
/// answered by an error.
pub fn paint_page(decoded: Decoded, info: &PageInfo) -> (r: Result<PaintedPage, RenderError>)
    ensures
        match r {
            Ok(p) => {
                &&& usable(decoded@)
                &&& p.frame.wf()
                &&& p.frame.width == decoded@->Rgb8_width
                &&& p.frame.height == decoded@->Rgb8_height
                &&& p.frame.data@ == painted(
                    decoded@->Rgb8_data,
                    p.frame.width as int,
                    info.result_rects@,
                    info.result_rects@.len(),
                )
                &&& p.page_num == info.page_num
                &&& p.num_results == info.result_rects@.len()
                &&& p.cell_w == info.img_data.cell_w
                &&& p.cell_h == info.img_data.cell_h
            },
            Err(e) => !usable(decoded@) && (e matches RenderError::Converting(s) && s@
                == "Can't load image: unexpected pixel layout"@),
        },
{
    match frame_of(decoded) {
        Some(frame) => {
            let mut frame = frame;
            paint_highlights(&mut frame, &info.result_rects);
            Ok(
                PaintedPage {
                    frame,
                    page_num: info.page_num,
                    num_results: info.result_rects.len(),
                    cell_w: info.img_data.cell_w,
                    cell_h: info.img_data.cell_h,
                },
            )
        },
        None => {
            let mut s = String::new();
            push_text(&mut s, "Can't load image: unexpected pixel layout");
            assert(s@ =~= "Can't load image: unexpected pixel layout"@);
            Err(RenderError::Converting(s))
        },
    }
}

/// What the conversion of a render comes to. A render that the decoder
/// reads as red, green and blue becomes the page with its pixels tinted; any
/// other is answered by an error.
pub open spec fn converted_from(info: PageInfo, r: Result<PaintedPage, RenderError>) -> bool {
    match pnm_image(info.img_data.pixels@) {
        Some(d) => match r {
            Ok(p) => {
                &&& usable(d)
                &&& p.frame.wf()
                &&& p.frame.width == d->Rgb8_width
                &&& p.frame.height == d->Rgb8_height
                &&& p.frame.data@ == painted(
                    d->Rgb8_data,
                    p.frame.width as int,
                    info.result_rects@,
                    info.result_rects@.len(),
                )
                &&& p.page_num == info.page_num
                &&& p.num_results == info.result_rects@.len()
                &&& p.cell_w == info.img_data.cell_w
                &&& p.cell_h == info.img_data.cell_h
            },
            Err(e) => !usable(d) && e is Converting,
        },
        None => r is Err && r->Err_0 is Converting,
    }
}

/// Decodes the render of a page and tints it. The render is decoded as a
/// portable anymap; when the decoder refuses it, the error carries the
/// decoder's words.
pub fn convert_page(info: &PageInfo) -> (r: Result<PaintedPage, RenderError>)
    ensures
        converted_from(*info, r),
{
    match decode_pnm(&info.img_data.pixels) {
        Ok(decoded) => paint_page(decoded, info),
        Err(e) => {
            let mut s = String::new();
            push_text(&mut s, "Can't load image: ");
            let words = image_error_text(&e);
            push_text(&mut s, words.as_str());
            Err(RenderError::Converting(s))
        },
    }
}

/// Takes the next waiting render out of the converter and makes it ready
/// for the screen; `None` when none waits within reach.
pub fn convert_next(converter: &mut Converter, prerender: usize) -> (r: Option<
    Result<PaintedPage, RenderError>,
>)
    ensures
        final(converter)@ == old(converter)@.taken(prerender as int).0,
        match old(converter)@.taken(prerender as int).1 {
            Some(info) => r is Some && converted_from(info, r->0),
            None => r is None,
        },
{
    match converter.next_page(prerender) {
        Some(info) => Some(convert_page(&info)),
        None => None,
    }
}

} // verus!
