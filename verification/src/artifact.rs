//! The shareable picture of a token's link: the link as a QR code, the code
//! as a PNG image, the image as a `data:` address.

use vstd::prelude::*;
use vstd::utf8::encode_utf8;
use std::io::Cursor;
use image::{ImageBuffer, ImageOutputFormat, Luma};
use qrcode::QrCode;

verus! {

/// A grey picture: `height` rows of `width` pixels, one byte each.
#[derive(Debug, PartialEq, Eq)]
pub struct Bitmap {
    pub width: u32,
    pub height: u32,
    pub pixels: Vec<u8>,
}

/// What a `Bitmap` stands for.
pub ghost struct BitmapView {
    pub width: u32,
    pub height: u32,
    pub pixels: Seq<u8>,
}

impl View for Bitmap {
    type V = BitmapView;

    open spec fn view(&self) -> BitmapView {
        BitmapView { width: self.width, height: self.height, pixels: self.pixels@ }
    }
}

/// The picture that `qrcode` draws of the QR code for `data`, at the medium
/// level of error correction and with the renderer as it comes; `None` where
/// `data` fits no QR code.
pub uninterp spec fn qr_rendering(data: Seq<u8>) -> Option<BitmapView>;

/// The PNG file that `image` writes for a grey picture of these measures;
/// `None` where it writes none.
pub uninterp spec fn png_encoding(width: u32, height: u32, pixels: Seq<u8>) -> Option<Seq<u8>>;

/// The text that `base64` makes of `bytes`, in the standard alphabet and
/// with padding.
pub uninterp spec fn base64_text(bytes: Seq<u8>) -> Seq<char>;

/// Calls `qrcode::QrCode::new` on `data` and has the code drawn by
/// `QrCode::render` and `Renderer::build`, with grey pixels of one byte. The
/// contract claims only that the outcome depends on `data` alone: it is
/// `qr_rendering(data)`, and `None` where `QrCode::new` refuses `data`.
#[verifier::external_body]
fn render_qr(data: &[u8]) -> (r: Option<Bitmap>)
    ensures
        match r {
            Some(bitmap) => qr_rendering(data@) == Some(bitmap@),
            None => qr_rendering(data@) is None,
        },
{
    let code = QrCode::new(data).ok()?;
    let picture = code.render::<Luma<u8>>().build();
    Some(Bitmap { width: picture.width(), height: picture.height(), pixels: picture.into_raw() })
}

/// Hands `bitmap` to `image::ImageBuffer::from_raw` and has the picture
/// written as PNG by `ImageBuffer::write_to`. The contract claims only that
/// the outcome depends on `bitmap` alone: it is `png_encoding` of its
/// measures and pixels, and `None` where either call fails.
#[verifier::external_body]
fn encode_png(bitmap: Bitmap) -> (r: Option<Vec<u8>>)
    ensures
        match r {
            Some(png) => png_encoding(bitmap.width, bitmap.height, bitmap.pixels@) == Some(png@),
            None => png_encoding(bitmap.width, bitmap.height, bitmap.pixels@) is None,
        },
{
    let picture = ImageBuffer::<Luma<u8>, Vec<u8>>::from_raw(
        bitmap.width,
        bitmap.height,
        bitmap.pixels,
    )?;
    let mut png: Vec<u8> = Vec::new();
    picture.write_to(&mut Cursor::new(&mut png), ImageOutputFormat::Png).ok()?;
    Some(png)
}

/// Calls `base64::encode` on `bytes`. The contract claims only that the
/// text depends on `bytes` alone: it is `base64_text(bytes)`.
#[verifier::external_body]
fn encode_base64(bytes: &[u8]) -> (r: String)
    ensures
        r@ == base64_text(bytes@),
{
    base64::encode(bytes)
}

/// The decimal digit for `d`.
pub open spec fn digit(d: nat) -> char
    recommends
        d < 10,
{
    if d == 0 {
        '0'
    } else if d == 1 {
        '1'
    } else if d == 2 {
        '2'
    } else if d == 3 {
        '3'
    } else if d == 4 {
        '4'
    } else if d == 5 {
        '5'
    } else if d == 6 {
        '6'
    } else if d == 7 {
        '7'
    } else if d == 8 {
        '8'
    } else {
        '9'
    }
}

/// `n` written in decimal, without leading zeros.
pub open spec fn decimal_text(n: nat) -> Seq<char>
    decreases n,
{
    if n < 10 {
        seq![digit(n)]
    } else {
        decimal_text(n / 10).push(digit(n % 10))
    }
}

/// The text of the digit `d`.
fn digit_str(d: u64) -> (r: &'static str)
    requires
        d < 10,
    ensures
        r@ == seq![digit(d as nat)],
{
    proof {
        reveal_strlit("0");
        reveal_strlit("1");
        reveal_strlit("2");
        reveal_strlit("3");
        reveal_strlit("4");
        reveal_strlit("5");
        reveal_strlit("6");
        reveal_strlit("7");
        reveal_strlit("8");
        reveal_strlit("9");
    }
    let r = if d == 0 {
        "0"
    } else if d == 1 {
        "1"
    } else if d == 2 {
        "2"
    } else if d == 3 {
        "3"
    } else if d == 4 {
        "4"
    } else if d == 5 {
        "5"
    } else if d == 6 {
        "6"
    } else if d == 7 {
        "7"
    } else if d == 8 {
        "8"
    } else {
        "9"
    };
    assert(r@ =~= seq![digit(d as nat)]);
    r
}

/// Appends `n`, written in decimal, to `out`.
pub fn push_decimal(out: &mut String, n: u64)
    ensures
        final(out)@ == old(out)@ + decimal_text(n as nat),
    decreases n,
{
    if n >= 10 {
        push_decimal(out, n / 10);
    }
    let ghost before = out@;
    out.append(digit_str(n % 10));
    assert(out@ =~= old(out)@ + decimal_text(n as nat)) by {
        if n >= 10 {
            assert(before == old(out)@ + decimal_text((n / 10) as nat));
        }
    }
}

/// The link to token `token_id` of a collection served at `base_url`.
pub open spec fn redirect_url_text(base_url: Seq<char>, token_id: u64) -> Seq<char> {
    base_url + "/nft/"@ + decimal_text(token_id as nat)
}

/// The link to token `token_id` of a collection served at `base_url`.
pub fn redirect_url(base_url: &str, token_id: u64) -> (r: String)
    ensures
        r@ == redirect_url_text(base_url@, token_id),
{
    let mut url = String::from_str(base_url);
    url.append("/nft/");
    push_decimal(&mut url, token_id);
    url
}

/// The `data:` address of a PNG image whose base64 text is `encoded`.
pub open spec fn data_uri_text(encoded: Seq<char>) -> Seq<char> {
    "data:image/png;base64,"@ + " "@ + encoded
}

/// The `data:` address of a PNG image whose base64 text is `encoded`.
pub fn data_uri(encoded: &str) -> (r: String)
    ensures
        r@ == data_uri_text(encoded@),
{
    let mut uri = String::from_str("data:image/png;base64,");
    uri.append(" ");
    uri.append(encoded);
    uri
}

/// What a textual outcome stands for.
pub open spec fn outcome_view(outcome: Result<String, String>) -> Result<Seq<char>, Seq<char>> {
    match outcome {
        Ok(text) => Ok(text@),
        Err(text) => Err(text@),
    }
}

/// The address of the PNG file `png`, or the complaint that there is none.
pub open spec fn png_uri_text(png: Option<Seq<u8>>) -> Result<Seq<char>, Seq<char>> {
    match png {
        Some(bytes) => Ok(data_uri_text(base64_text(bytes))),
        None => Err("Failed to write image to bytes"@),
    }
}

/// The address of the picture `rendering`, or the complaint that there is
/// no picture, or no PNG file of it.
pub open spec fn bitmap_uri_text(rendering: Option<BitmapView>) -> Result<Seq<char>, Seq<char>> {
    match rendering {
        Some(bitmap) => png_uri_text(png_encoding(bitmap.width, bitmap.height, bitmap.pixels)),
        None => Err("Failed to create QR code"@),
    }
}

/// The address of the QR code for `url`, or the complaint that went with
/// the step that failed.
pub open spec fn qr_uri_text(url: Seq<char>) -> Result<Seq<char>, Seq<char>> {
    bitmap_uri_text(qr_rendering(encode_utf8(url)))
}

/// The address of the PNG file `png`, where the image was written.
pub fn png_uri(png: Option<Vec<u8>>) -> (r: Result<String, String>)
    ensures
        outcome_view(r) == png_uri_text(
            match png {
                Some(bytes) => Some(bytes@),
                None => None,
            },
        ),
{
    match png {
        Some(bytes) => {
            let encoded = encode_base64(bytes.as_slice());
            Ok(data_uri(encoded.as_str()))
        },
        None => Err(String::from_str("Failed to write image to bytes")),
    }
}

/// The address of the picture `rendering`, where the code was drawn.
pub fn bitmap_uri(rendering: Option<Bitmap>) -> (r: Result<String, String>)
    ensures
        outcome_view(r) == bitmap_uri_text(
            match rendering {
                Some(bitmap) => Some(bitmap@),
                None => None,
            },
        ),
{
    match rendering {
        Some(bitmap) => png_uri(encode_png(bitmap)),
        None => Err(String::from_str("Failed to create QR code")),
    }
}

/// The address of the QR code for `url`.
pub fn qr_uri(url: &str) -> (r: Result<String, String>)
    ensures
        outcome_view(r) == qr_uri_text(url@),
{
    bitmap_uri(render_qr(url.as_bytes()))
}

} // verus!
