//! Login QR codes: the code's modules (the `qrcode` crate), scaled into a
//! grey-scale image with a quiet zone, encoded as PNG (the `png` crate) and
//! given as a base64 `data:` URL.
use crate::encoding::{base64, base64_encode};
use crate::text::{chars_of, string_of};
use vstd::prelude::*;
use vstd::utf8::encode_utf8;

verus! {

/// The modules `qrcode::QrCode::new` lays out for the bytes (its width and,
/// row by row, whether each module is dark), or its error's text.
pub uninterp spec fn qr_code(data: Seq<u8>) -> Result<(usize, Seq<bool>), Seq<char>>;

/// The PNG file that the `png` crate writes for a square 8-bit grey-scale
/// image of the given width and pixels, or its error's text.
pub uninterp spec fn png_image(width: u32, pixels: Seq<u8>) -> Result<Seq<u8>, Seq<char>>;

/// `QrCode::new(data)`, as its width and dark modules.
///
/// Trusted: the layout is named (`qr_code`). The crate picks a version from
/// 1 to 40, so the width is at most 177, and the canvas holds width² modules.
#[verifier::external_body]
fn qr_modules(data: &[u8]) -> (r: Result<(usize, Vec<bool>), String>)
    ensures
        match r {
            Ok((w, m)) => qr_code(data@) == Ok::<(usize, Seq<bool>), Seq<char>>((w, m@)) && w
                <= 177 && m@.len() == w * w,
            Err(e) => qr_code(data@) == Err::<(usize, Seq<bool>), Seq<char>>(e@),
        },
{
    #[allow(deprecated)]
    match qrcode::QrCode::new(data) {
        Ok(code) => Ok((code.width(), code.into_vec())),
        Err(e) => Err(e.to_string()),
    }
}

/// A grey-scale 8-bit PNG of a square image, written by `png::Encoder`.
///
/// Trusted: the file is named (`png_image`).
#[verifier::external_body]
fn encode_png(width: u32, pixels: &[u8]) -> (r: Result<Vec<u8>, String>)
    ensures
        match r {
            Ok(b) => png_image(width, pixels@) == Ok::<Seq<u8>, Seq<char>>(b@),
            Err(e) => png_image(width, pixels@) == Err::<Seq<u8>, Seq<char>>(e@),
        },
{
    let mut out = Vec::new();
    {
        let mut encoder = png::Encoder::new(&mut out, width, width);
        encoder.set_color(png::ColorType::Grayscale);
        encoder.set_depth(png::BitDepth::Eight);
        let mut w = encoder.write_header().map_err(|e| e.to_string())?;
        w.write_image_data(pixels).map_err(|e| e.to_string())?;
    }
    Ok(out)
}

/// The number of pixels per side: the modules and a quiet zone of four on
/// each side, four pixels per module.
pub open spec fn image_side(w: int) -> int {
    (w + 8) * 4
}

/// The pixel at column `x`, row `y`: black where a dark module lies, white
/// elsewhere (the quiet zone included).
pub open spec fn qr_pixel(w: int, dark: Seq<bool>, x: int, y: int) -> u8 {
    let mx = x / 4 - 4;
    let my = y / 4 - 4;
    if 0 <= mx < w && 0 <= my < w && dark[my * w + mx] {
        0
    } else {
        255
    }
}

/// The pixels of the image, row by row.
pub open spec fn qr_pixels(w: int, dark: Seq<bool>) -> Seq<u8> {
    let n = image_side(w);
    Seq::new((n * n) as nat, |k: int| qr_pixel(w, dark, k % n, k / n))
}

proof fn lemma_module_index(w: int, mx: int, my: int)
    requires
        0 <= mx < w,
        0 <= my < w,
        w <= 177,
    ensures
        0 <= my * w,
        0 <= my * w + mx < w * w,
        w * w <= 31329,
{
    assert(w * w <= 31329) by (nonlinear_arith)
        requires
            0 <= w <= 177,
    ;
    assert(my * w + mx < w * w) by (nonlinear_arith)
        requires
            0 <= mx < w,
            0 <= my < w,
    ;
    assert(0 <= my * w) by (nonlinear_arith)
        requires
            0 <= my,
            0 <= w,
    ;
}

/// The image of a code with `w` modules per side.
pub fn scale_modules(w: usize, dark: &Vec<bool>) -> (r: Vec<u8>)
    requires
        w <= 177,
        dark@.len() == w * w,
    ensures
        r@ == qr_pixels(w as int, dark@),
{
    let n: usize = (w + 8) * 4;
    let mut out: Vec<u8> = Vec::new();
    let mut y: usize = 0;
    while y < n
        invariant
            w <= 177,
            dark@.len() == w * w,
            n == image_side(w as int),
            y <= n,
            out@.len() == y * n,
            forall|k: int| 0 <= k < out@.len() ==> #[trigger] out@[k] == qr_pixel(w as int, dark@, k % n as int, k / n as int),
        decreases n - y,
    {
        let mut x: usize = 0;
        while x < n
            invariant
                w <= 177,
                dark@.len() == w * w,
                n == image_side(w as int),
                y < n,
                x <= n,
                out@.len() == y * n + x,
                forall|k: int| 0 <= k < out@.len() ==> #[trigger] out@[k] == qr_pixel(w as int, dark@, k % n as int, k / n as int),
            decreases n - x,
        {
            proof {
                assert((y + 1) * n <= n * n) by (nonlinear_arith)
                    requires
                        y < n,
                ;
                assert(y * n + x < (y + 1) * n) by (nonlinear_arith)
                    requires
                        x < n,
                ;
            }
            let mx = x / 4;
            let my = y / 4;
            let pixel: u8 = if mx >= 4 && my >= 4 && mx - 4 < w && my - 4 < w {
                proof {
                    lemma_module_index(w as int, mx - 4, my - 4);
                }
                if dark[(my - 4) * w + (mx - 4)] {
                    0
                } else {
                    255
                }
            } else {
                255
            };
            proof {
                vstd::arithmetic::div_mod::lemma_fundamental_div_mod_converse(
                    (y * n + x) as int,
                    n as int,
                    y as int,
                    x as int,
                );
            }
            out.push(pixel);
            x = x + 1;
        }
        proof {
            assert(y * n + n == (y + 1) * n) by (nonlinear_arith);
        }
        y = y + 1;
    }
    assert(out@ =~= qr_pixels(w as int, dark@));
    out
}

/// The `data:` URL of a QR code for the text, or the error of building or
/// encoding it.
pub open spec fn qr_data_url(text: Seq<char>) -> Result<Seq<char>, Seq<char>> {
    match qr_code(encode_utf8(text)) {
        Err(e) => Err(e),
        Ok((w, dark)) => match png_image(image_side(w as int) as u32, qr_pixels(w as int, dark)) {
            Err(e) => Err(e),
            Ok(png) => Ok("data:image/png;base64,"@ + base64(png)),
        },
    }
}

/// A PNG QR code of the text as a base64 `data:` URL.
pub fn qrcode_data_url(text: &str) -> (r: Result<String, String>)
    ensures
        match r {
            Ok(u) => qr_data_url(text@) == Ok::<Seq<char>, Seq<char>>(u@),
            Err(e) => qr_data_url(text@) == Err::<Seq<char>, Seq<char>>(e@),
        },
{
    let (w, dark) = match qr_modules(text.as_bytes()) {
        Ok(m) => m,
        Err(e) => {
            return Err(e);
        },
    };
    let pixels = scale_modules(w, &dark);
    let side: u32 = ((w + 8) * 4) as u32;
    let png = match encode_png(side, pixels.as_slice()) {
        Ok(b) => b,
        Err(e) => {
            return Err(e);
        },
    };
    let mut url = "data:image/png;base64,".to_owned();
    let encoded = base64_encode(png.as_slice());
    url.append(encoded.as_str());
    Ok(url)
}

} // verus!
