//! Rendering a QR code as a PNG: the code's module matrix is drawn with each
//! dark module as a black square of `MODULE_SCALE` pixels a side, on a white
//! ground with a quiet zone of `QUIET_ZONE` modules all round.

use std::io::Cursor;
use image::{DynamicImage, GrayImage, ImageFormat};
use qrcode::{Color, QrCode};
use vstd::prelude::*;
use vstd::utf8::encode_utf8;
use crate::error::{AppError, ErrorView};

verus! {

/// Pixels per module side.
pub const MODULE_SCALE: usize = 8;

/// Width of the white border, in modules.
pub const QUIET_ZONE: usize = 4;

/// Grey level of a dark module.
pub const BLACK: u8 = 0;

/// Grey level of the ground.
pub const WHITE: u8 = 255;

/// What the `qrcode` crate makes of `data`: the width of the code in modules
/// and, row by row, whether each module is dark; or the encoder's error text.
pub uninterp spec fn qr_encode(data: Seq<u8>) -> Result<(nat, Seq<bool>), Seq<char>>;

/// Encodes `data` with `qrcode::QrCode::new` and reads back `QrCode::width`
/// and `QrCode::to_colors` (dark as `true`), or the error's text. The result
/// is what `qr_encode` names for `data`; as the crate's source shows, the code
/// is at most 177 modules wide (version 40) and has one colour per module.
#[verifier::external_body]
fn qr_modules(data: &[u8]) -> (r: Result<(usize, Vec<bool>), String>)
    ensures
        match r {
            Ok((w, dark)) => {
                &&& qr_encode(data@) == Ok::<(nat, Seq<bool>), Seq<char>>((w as nat, dark@))
                &&& w <= 177
                &&& dark@.len() == w * w
            },
            Err(e) => qr_encode(data@) == Err::<(nat, Seq<bool>), Seq<char>>(e@),
        },
{
    match QrCode::new(data) {
        Ok(code) => {
            let mut dark = Vec::new();
            for c in code.to_colors() {
                dark.push(match c { Color::Dark => true, Color::Light => false });
            }
            Ok((code.width(), dark))
        },
        Err(e) => Err(e.to_string()),
    }
}

/// What the `image` crate's PNG encoder writes for a greyscale image of the
/// given size and row-major pixels; or the encoder's error text.
pub uninterp spec fn png_encode_gray(width: u32, height: u32, pixels: Seq<u8>) -> Result<
    Seq<u8>,
    Seq<char>,
>;

/// Builds an `image::GrayImage` with `ImageBuffer::from_raw` and writes it
/// with `DynamicImage::write_to` as `ImageFormat::Png`, returning the bytes or
/// the error's text, as `png_encode_gray` names them. `from_raw` accepts the
/// buffer when it holds `width * height` pixels, which the caller assures.
#[verifier::external_body]
fn encode_png_gray(width: u32, height: u32, pixels: Vec<u8>) -> (r: Result<Vec<u8>, String>)
    requires
        pixels@.len() == width * height,
    ensures
        match r {
            Ok(b) => png_encode_gray(width, height, pixels@) == Ok::<Seq<u8>, Seq<char>>(b@),
            Err(e) => png_encode_gray(width, height, pixels@) == Err::<Seq<u8>, Seq<char>>(e@),
        },
{
    let img = match GrayImage::from_raw(width, height, pixels) {
        Some(img) => img,
        None => return Err(String::new()),
    };
    let mut buf = Vec::new();
    match DynamicImage::ImageLuma8(img).write_to(&mut Cursor::new(&mut buf), ImageFormat::Png) {
        Ok(()) => Ok(buf),
        Err(e) => Err(e.to_string()),
    }
}

/// Side of the rendered image, in pixels, for a code `width` modules wide.
pub open spec fn qr_dim(width: nat) -> nat {
    ((width + 2 * QUIET_ZONE) * MODULE_SCALE) as nat
}

/// Pixel `(x, y)` lies in a dark module of the code.
pub open spec fn in_dark_module(width: nat, dark: Seq<bool>, x: int, y: int) -> bool {
    let mx = x / (MODULE_SCALE as int) - QUIET_ZONE;
    let my = y / (MODULE_SCALE as int) - QUIET_ZONE;
    0 <= mx < width && 0 <= my < width && dark[my * width + mx]
}

/// The grey level of pixel `(x, y)`.
pub open spec fn qr_pixel(width: nat, dark: Seq<bool>, x: int, y: int) -> u8 {
    if in_dark_module(width, dark, x, y) {
        BLACK
    } else {
        WHITE
    }
}

/// The rendered image, row by row.
pub open spec fn qr_raster(width: nat, dark: Seq<bool>) -> Seq<u8> {
    let d = qr_dim(width);
    Seq::new(d * d, |i: int| qr_pixel(width, dark, i % (d as int), i / (d as int)))
}

/// Draws the module matrix of a code `width` modules wide: returns the image
/// side and its pixels, row by row.
pub fn rasterize(width: usize, dark: &Vec<bool>) -> (r: (u32, Vec<u8>))
    requires
        dark@.len() == width * width,
        qr_dim(width as nat) <= u32::MAX,
        qr_dim(width as nat) * qr_dim(width as nat) <= usize::MAX,
    ensures
        r.0 == qr_dim(width as nat),
        r.1@ == qr_raster(width as nat, dark@),
{
    let dim: usize = (width + 2 * QUIET_ZONE) * MODULE_SCALE;
    let total: usize = dim * dim;
    let ghost d = qr_dim(width as nat);
    let mut pixels: Vec<u8> = Vec::with_capacity(total);
    let n: usize = dark.len();
    let mut k: usize = 0;
    while k < total
        invariant
            n == dark@.len(),
            dim == d,
            total == d * d,
            dark@.len() == width * width,
            k <= total,
            pixels@ =~= Seq::new(
                k as nat,
                |i: int| qr_pixel(width as nat, dark@, i % (d as int), i / (d as int)),
            ),
        decreases total - k,
    {
        let x = k % dim;
        let y = k / dim;
        let mx = x / MODULE_SCALE;
        let my = y / MODULE_SCALE;
        let mut v = WHITE;
        if mx >= QUIET_ZONE && mx - QUIET_ZONE < width && my >= QUIET_ZONE && my - QUIET_ZONE < width {
            let a = my - QUIET_ZONE;
            let b = mx - QUIET_ZONE;
            assert(a * width + b < width * width) by (nonlinear_arith)
                requires
                    a < width,
                    b < width,
            ;
            if dark[a * width + b] {
                v = BLACK;
            }
        }
        pixels.push(v);
        k = k + 1;
    }
    (dim as u32, pixels)
}

/// A rendering outcome, its bytes and error seen through views.
pub open spec fn bytes_outcome(r: Result<Vec<u8>, AppError>) -> Result<Seq<u8>, ErrorView> {
    match r {
        Ok(b) => Ok(b@),
        Err(e) => Err(e@),
    }
}

/// The answer to a PNG encoding: the bytes, or an internal failure naming
/// the encoder's error.
pub open spec fn spec_png_outcome(encoded: Result<Seq<u8>, Seq<char>>) -> Result<Seq<u8>, ErrorView> {
    match encoded {
        Ok(b) => Ok(b),
        Err(e) => Err(ErrorView::Internal("PNG encode failed: "@ + e)),
    }
}

/// Turns what the PNG encoder gave into the answer.
pub fn png_outcome(encoded: Result<Vec<u8>, String>) -> (r: Result<Vec<u8>, AppError>)
    ensures
        bytes_outcome(r) == spec_png_outcome(
            match encoded {
                Ok(b) => Ok(b@),
                Err(e) => Err(e@),
            },
        ),
{
    match encoded {
        Ok(b) => Ok(b),
        Err(e) => {
            let mut msg = String::from_str("PNG encode failed: ");
            msg.append(e.as_str());
            Err(AppError::Internal(msg))
        },
    }
}

/// The PNG of a code `width` modules wide with the given dark modules.
pub open spec fn spec_png_of_modules(width: nat, dark: Seq<bool>) -> Result<Seq<u8>, ErrorView> {
    let d = qr_dim(width);
    spec_png_outcome(png_encode_gray(d as u32, d as u32, qr_raster(width, dark)))
}

/// Draws a module matrix and encodes it as PNG.
pub fn png_of_modules(width: usize, dark: &Vec<bool>) -> (r: Result<Vec<u8>, AppError>)
    requires
        dark@.len() == width * width,
        qr_dim(width as nat) <= u32::MAX,
        qr_dim(width as nat) * qr_dim(width as nat) <= usize::MAX,
    ensures
        bytes_outcome(r) == spec_png_of_modules(width as nat, dark@),
{
    let (dim, pixels) = rasterize(width, dark);
    png_outcome(encode_png_gray(dim, dim, pixels))
}

/// The PNG of the code the `qrcode` crate makes of `data`, or the failure.
pub open spec fn spec_render_qr_png(data: Seq<u8>) -> Result<Seq<u8>, ErrorView> {
    match qr_encode(data) {
        Err(e) => Err(ErrorView::Internal("QR encode failed: "@ + e)),
        Ok((w, dark)) => spec_png_of_modules(w, dark),
    }
}

/// Renders a QR code of `data` as PNG bytes.
pub fn render_qr_png(data: &str) -> (r: Result<Vec<u8>, AppError>)
    ensures
        bytes_outcome(r) == spec_render_qr_png(encode_utf8(data@)),
{
    match qr_modules(data.as_bytes()) {
        Err(e) => {
            let mut msg = String::from_str("QR encode failed: ");
            msg.append(e.as_str());
            Err(AppError::Internal(msg))
        },
        Ok((width, dark)) => {
            assert(qr_dim(width as nat) <= 1480);
            assert(qr_dim(width as nat) * qr_dim(width as nat) <= 1480 * 1480) by (nonlinear_arith)
                requires
                    qr_dim(width as nat) <= 1480,
            ;
            png_of_modules(width, &dark)
        },
    }
}

/// The quiet zone is white: no pixel within `QUIET_ZONE` modules of an edge
/// of the image is ever black, whatever the code.
pub proof fn law_quiet_zone_is_white(width: nat, dark: Seq<bool>, x: int, y: int)
    requires
        0 <= x,
        0 <= y,
        x < (QUIET_ZONE * MODULE_SCALE) as int || y < (QUIET_ZONE * MODULE_SCALE) as int || x >= (
        width + QUIET_ZONE) * MODULE_SCALE || y >= (width + QUIET_ZONE) * MODULE_SCALE,
    ensures
        qr_pixel(width, dark, x, y) == WHITE,
{
}

/// Every module of the code is drawn in place: each pixel of the
/// `MODULE_SCALE`-square block of module `(mx, my)` (column `mx`, row `my`,
/// read row by row from `dark`), offset by the quiet zone, is black exactly
/// when that module is dark, and white otherwise. The raster is the image's
/// rows one after another.
pub proof fn law_modules_are_drawn_in_place(
    width: nat,
    dark: Seq<bool>,
    mx: int,
    my: int,
    dx: int,
    dy: int,
)
    requires
        dark.len() == width * width,
        0 <= mx < width,
        0 <= my < width,
        0 <= dx < MODULE_SCALE,
        0 <= dy < MODULE_SCALE,
    ensures
        ({
            let side = (width + 2 * QUIET_ZONE) * MODULE_SCALE;
            let x = (QUIET_ZONE + mx) * MODULE_SCALE + dx;
            let y = (QUIET_ZONE + my) * MODULE_SCALE + dy;
            &&& qr_raster(width, dark).len() == side * side
            &&& 0 <= y * side + x < side * side
            &&& qr_raster(width, dark)[y * side + x] == if dark[my * width + mx] {
                0u8
            } else {
                255u8
            }
        }),
{
    let side: int = ((width + 2 * QUIET_ZONE) * MODULE_SCALE) as int;
    let x: int = (QUIET_ZONE + mx) * MODULE_SCALE + dx;
    let y: int = (QUIET_ZONE + my) * MODULE_SCALE + dy;
    assert(0 <= x < side);
    assert(0 <= y < side);
    let i = y * side + x;
    assert(0 <= i < side * side) by (nonlinear_arith)
        requires
            0 <= x < side,
            0 <= y < side,
            i == y * side + x,
    ;
    vstd::arithmetic::div_mod::lemma_fundamental_div_mod_converse(i, side, y, x);
    vstd::arithmetic::div_mod::lemma_fundamental_div_mod_converse(
        x,
        MODULE_SCALE as int,
        QUIET_ZONE + mx,
        dx,
    );
    vstd::arithmetic::div_mod::lemma_fundamental_div_mod_converse(
        y,
        MODULE_SCALE as int,
        QUIET_ZONE + my,
        dy,
    );
    assert(qr_dim(width) == side);
    assert(qr_raster(width, dark)[i] == qr_pixel(width, dark, i % side, i / side));
}

} // verus!
