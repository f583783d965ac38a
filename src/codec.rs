//! The image codec: from an envelope to the bytes of an image, and from pixels to a
//! PNG envelope.
use vstd::prelude::*;
use vstd::string::StringSliceAdditionalSpecFns;
use vstd::utf8::{encode_utf8, is_ascii_chars, is_ascii_chars_encode_utf8};
use crate::envelope::{delim_at, delimiter, lemma_find_first, split_envelope, split_spec};
use crate::error::{ErrorKind, ImageError};
use base64::Engine;

verus! {

/// The three formats an envelope may declare.
#[derive(Clone, Copy, Debug, PartialEq, Eq, Structural)]
pub enum ImageKind {
    Jpeg,
    Png,
    WebP,
}

/// A decoded image: RGBA pixels, four bytes each, row by row.
#[derive(Clone, Debug)]
pub struct Raster {
    pub width: u32,
    pub height: u32,
    pub pixels: Vec<u8>,
}

impl View for Raster {
    type V = (u32, u32, Seq<u8>);

    open spec fn view(&self) -> (u32, u32, Seq<u8>) {
        (self.width, self.height, self.pixels@)
    }
}

impl Raster {
    /// The pixel buffer holds exactly four bytes per pixel.
    pub open spec fn wf(&self) -> bool {
        self.pixels@.len() == 4 * (self.width as int) * (self.height as int)
    }
}

/// The standard base64 text (with padding) of `b`.
pub uninterp spec fn base64_text(b: Seq<u8>) -> Seq<char>;

/// The bytes that the standard base64 text `t` stands for, or `None` where
/// `t` is not such a text.
pub uninterp spec fn base64_decoded(t: Seq<u8>) -> Option<Seq<u8>>;

/// The PNG file of an RGBA raster, or `None` where the encoder refuses it.
pub uninterp spec fn png_encoded(width: u32, height: u32, pixels: Seq<u8>) -> Option<Seq<u8>>;

/// A character of the standard base64 alphabet, or the padding `=`.
pub open spec fn is_base64_char(c: char) -> bool {
    ('A' <= c && c <= 'Z') || ('a' <= c && c <= 'z') || ('0' <= c && c <= '9') || c == '+' || c
        == '/' || c == '='
}

/// A byte of the standard base64 alphabet, or the padding `=`.
pub open spec fn is_base64_byte(b: u8) -> bool {
    is_base64_char(b as char)
}

/// Some byte of `p` is neither in the standard base64 alphabet nor `=`.
pub open spec fn has_foreign_byte(p: Seq<u8>) -> bool {
    exists|i: int| 0 <= i < p.len() && !is_base64_byte(#[trigger] p[i])
}

/// The bytes of an ASCII text.
pub open spec fn ascii_bytes(cs: Seq<char>) -> Seq<u8> {
    cs.map(|i: int, c: char| c as u8)
}

/// Relies on base64's `STANDARD` engine `encode`: the padded standard
/// alphabet in groups of four characters, which its `decode` reads back to
/// the same bytes.
#[verifier::external_body]
fn encode_base64(b: &[u8]) -> (r: String)
    requires
        b@.len() <= isize::MAX,
    ensures
        r@ == base64_text(b@),
        forall|i: int| 0 <= i < r@.len() ==> is_base64_char(#[trigger] r@[i]),
        r@.len() % 4 == 0,
        base64_decoded(ascii_bytes(r@)) == Some(b@),
{
    base64::engine::general_purpose::STANDARD.encode(b)
}

/// Relies on base64's `STANDARD` engine `decode`: the bytes, or the reason
/// that the text is not canonical padded standard base64; a byte outside the
/// alphabet and `=` is always refused.
#[verifier::external_body]
fn decode_base64(t: &[u8]) -> (r: Result<Vec<u8>, String>)
    ensures
        has_foreign_byte(t@) ==> r is Err,
        match r {
            Ok(v) => base64_decoded(t@) == Some(v@) && v@.len() <= isize::MAX,
            Err(_) => base64_decoded(t@) is None,
        },
{
    base64::engine::general_purpose::STANDARD.decode(t).map_err(|e| e.to_string())
}

/// Relies on image's `RgbaImage::write_to` in PNG format: the PNG file of the
/// raster, or the encoder's reason for refusing it.
#[verifier::external_body]
fn encode_png(img: &Raster) -> (r: Result<Vec<u8>, String>)
    requires
        img.wf(),
    ensures
        match r {
            Ok(v) => {
                &&& png_encoded(img.width, img.height, img.pixels@) == Some(v@)
                &&& v@.len() <= isize::MAX
            },
            Err(_) => png_encoded(img.width, img.height, img.pixels@) is None,
        },
{
    let buf = image::RgbaImage::from_raw(img.width, img.height, img.pixels.clone())
        .ok_or_else(|| "pixel buffer does not match the image size".to_string())?;
    let mut out = Vec::new();
    buf.write_to(&mut std::io::Cursor::new(&mut out), image::ImageFormat::Png).map_err(|e| e.to_string())?;
    Ok(out)
}


/// The tag text that declares format `k`.
pub open spec fn tag_text(k: ImageKind) -> Seq<char> {
    match k {
        ImageKind::Jpeg => "data:image/jpeg"@,
        ImageKind::Png => "data:image/png"@,
        ImageKind::WebP => "data:image/webp"@,
    }
}

/// The format that an envelope's tag declares, if it is one of the three.
pub open spec fn kind_of_tag(tag: Seq<u8>) -> Option<ImageKind> {
    if tag == ascii_bytes(tag_text(ImageKind::Jpeg)) {
        Some(ImageKind::Jpeg)
    } else if tag == ascii_bytes(tag_text(ImageKind::Png)) {
        Some(ImageKind::Png)
    } else if tag == ascii_bytes(tag_text(ImageKind::WebP)) {
        Some(ImageKind::WebP)
    } else {
        None
    }
}

fn bytes_equal(a: &[u8], b: &[u8]) -> (r: bool)
    ensures
        r == (a@ == b@),
{
    if a.len() != b.len() {
        return false;
    }
    let mut i: usize = 0;
    while i < a.len()
        invariant
            a@.len() == b@.len(),
            i <= a@.len(),
            forall|k: int| 0 <= k < i ==> a@[k] == b@[k],
        decreases a@.len() - i,
    {
        if a[i] != b[i] {
            return false;
        }
        i = i + 1;
    }
    assert(a@ =~= b@);
    true
}

fn literal_bytes(s: &str) -> (r: &[u8])
    requires
        s.is_ascii(),
    ensures
        r@ == ascii_bytes(s@),
{
    proof {
        vstd::string::is_ascii_spec_bytes(s);
    }
    let r = s.as_bytes();
    assert(r@ =~= ascii_bytes(s@));
    r
}

/// Maps an envelope's tag to the format it declares.
fn get_base64_type(type_info: &[u8]) -> (r: Result<ImageKind, ImageError>)
    ensures
        match kind_of_tag(type_info@) {
            Some(k) => r == Ok::<ImageKind, ImageError>(k),
            None => r matches Err(e) && e.kind == ErrorKind::UnsupportedFormat
                && e.message@.len() > 0,
        },
{
    proof {
        reveal_strlit("unsupported image format");
        reveal_strlit("data:image/jpeg");
        reveal_strlit("data:image/png");
        reveal_strlit("data:image/webp");
    }
    if bytes_equal(type_info, literal_bytes("data:image/jpeg")) {
        Ok(ImageKind::Jpeg)
    } else if bytes_equal(type_info, literal_bytes("data:image/png")) {
        Ok(ImageKind::Png)
    } else if bytes_equal(type_info, literal_bytes("data:image/webp")) {
        Ok(ImageKind::WebP)
    } else {
        Err(ImageError::new(ErrorKind::UnsupportedFormat, "unsupported image format"))
    }
}

/// What reading the envelope bytes `t` yields: the declared format and the
/// payload's bytes, or the kind of the first failure among splitting, the tag
/// and base64.
pub open spec fn envelope_spec(t: Seq<u8>) -> Result<(ImageKind, Seq<u8>), ErrorKind> {
    match split_spec(t) {
        None => Err(ErrorKind::MalformedEnvelope),
        Some((tag, payload)) => match kind_of_tag(tag) {
            None => Err(ErrorKind::UnsupportedFormat),
            Some(k) => match base64_decoded(payload) {
                None => Err(ErrorKind::Base64DecodeError),
                Some(bytes) => Ok((k, bytes)),
            },
        },
    }
}

/// Reading an envelope rejects one without the delimiter, one whose tag is
/// not one of the three formats, and one whose payload is not base64, each
/// with its own kind.
pub proof fn lemma_envelope_rejects(t: Seq<u8>)
    ensures
        split_spec(t) is None ==> envelope_spec(t) == Err::<(ImageKind, Seq<u8>), ErrorKind>(
            ErrorKind::MalformedEnvelope,
        ),
        split_spec(t) matches Some((tag, payload)) ==> {
            &&& kind_of_tag(tag) is None ==> envelope_spec(t) == Err::<
                (ImageKind, Seq<u8>),
                ErrorKind,
            >(ErrorKind::UnsupportedFormat)
            &&& kind_of_tag(tag) is Some && base64_decoded(payload) is None ==> envelope_spec(t)
                == Err::<(ImageKind, Seq<u8>), ErrorKind>(ErrorKind::Base64DecodeError)
        },
{
}

/// The prefix of every envelope this service produces.
pub open spec fn png_prefix() -> Seq<char> {
    "data:image/png;base64,"@
}

/// What encoding a raster yields: the PNG envelope, or `ImageEncodeError`.
pub open spec fn encode_spec(img: (u32, u32, Seq<u8>)) -> Result<Seq<char>, ErrorKind> {
    match png_encoded(img.0, img.1, img.2) {
        None => Err(ErrorKind::ImageEncodeError),
        Some(file) => Ok(png_prefix() + base64_text(file)),
    }
}

/// The bytes of a PNG envelope whose payload is the base64 text `text` split
/// into the PNG tag and that text's bytes.
proof fn lemma_png_envelope_split(text: Seq<char>)
    requires
        forall|i: int| 0 <= i < text.len() ==> is_base64_char(#[trigger] text[i]),
    ensures
        is_ascii_chars(png_prefix() + text),
        encode_utf8(png_prefix() + text) == ascii_bytes(png_prefix() + text),
        split_spec(ascii_bytes(png_prefix() + text)) == Some(
            (ascii_bytes(tag_text(ImageKind::Png)), ascii_bytes(text)),
        ),
{
    reveal_strlit("data:image/png;base64,");
    reveal_strlit("data:image/png");
    let cs = png_prefix() + text;
    assert(png_prefix().len() == 22);
    assert forall|i: int| 0 <= i < cs.len() implies '\0' <= #[trigger] cs[i] <= '\u{7f}' by {
        if i >= 22 {
            assert(cs[i] == text[i - 22]);
        }
    }
    assert(is_ascii_chars(cs));
    is_ascii_chars_encode_utf8(cs);
    let t = ascii_bytes(cs);
    assert(encode_utf8(cs) =~= t);
    assert forall|j: int| 0 <= j < 14 implies !delim_at(t, j) by {
        assert(t[j] != 59u8);
        if delim_at(t, j) {
            assert(t.subrange(j, j + 8)[0] == delimiter()[0]);
        }
    }
    assert(t.subrange(14, 22) =~= delimiter());
    lemma_find_first(t, 0, 14);
    assert(t.subrange(0, 14) =~= ascii_bytes(tag_text(ImageKind::Png)));
    assert(t.subrange(22, t.len() as int) =~= ascii_bytes(text));
}

/// Reads an envelope `<tag>;base64,<payload>`: the format its tag declares
/// and the bytes its payload stands for.
pub fn decode_envelope(base64_string: &str) -> (r: Result<(ImageKind, Vec<u8>), ImageError>)
    ensures
        r is Ok <==> envelope_spec(base64_string.spec_bytes()) is Ok,
        r matches Ok((k, bytes)) ==> envelope_spec(base64_string.spec_bytes()) == Ok::<
            (ImageKind, Seq<u8>),
            ErrorKind,
        >((k, bytes@)),
        r matches Err(e) ==> envelope_spec(base64_string.spec_bytes()) == Err::<
            (ImageKind, Seq<u8>),
            ErrorKind,
        >(e.kind),
        r matches Err(e) ==> e.message@.len() > 0,
        split_spec(base64_string.spec_bytes()) matches Some((tag, payload)) ==> ((kind_of_tag(tag)
            is Some && has_foreign_byte(payload)) ==> (r matches Err(e) && e.kind
            == ErrorKind::Base64DecodeError)),
{
    proof {
        reveal_strlit("invalid base64 envelope");
        reveal_strlit("base64 decoding failed: ");
    }
    let t = base64_string.as_bytes();
    let n = t.len();
    let (tag_end, start) = match split_envelope(t) {
        None => {
            return Err(ImageError::new(ErrorKind::MalformedEnvelope, "invalid base64 envelope"));
        },
        Some(parts) => parts,
    };
    let kind = get_base64_type(&t[0..tag_end])?;
    let payload = &t[start..n];
    match decode_base64(payload) {
        Ok(bytes) => Ok((kind, bytes)),
        Err(detail) => Err(
            ImageError::with_detail(
                ErrorKind::Base64DecodeError,
                "base64 decoding failed: ",
                detail.as_str(),
            ),
        ),
    }
}

/// What the image decoder's outcome becomes: its raster where the decoder
/// succeeded with a buffer of four bytes per pixel, else `ImageDecodeError`.
pub open spec fn accept_spec(outcome: Result<(u32, u32, Seq<u8>), ()>) -> Result<(u32, u32, Seq<u8>), ErrorKind> {
    match outcome {
        Ok(img) => if img.2.len() == 4 * (img.0 as int) * (img.1 as int) {
            Ok(img)
        } else {
            Err(ErrorKind::ImageDecodeError)
        },
        Err(_) => Err(ErrorKind::ImageDecodeError),
    }
}

/// Takes the image decoder's outcome on the bytes of an envelope: its raster,
/// or the decoder's reason for refusing them (a panic included).
pub fn accept_decoded(outcome: Result<Raster, String>) -> (r: Result<Raster, ImageError>)
    ensures
        ({
            let expected = accept_spec(
                match outcome {
                    Ok(img) => Ok(img@),
                    Err(_) => Err(()),
                },
            );
            &&& r is Ok <==> expected is Ok
            &&& r matches Ok(img) ==> img.wf() && expected == Ok::<
                (u32, u32, Seq<u8>),
                ErrorKind,
            >(img@)
            &&& r matches Err(e) ==> expected == Err::<(u32, u32, Seq<u8>), ErrorKind>(e.kind)
        }),
        r matches Err(e) ==> e.message@.len() > 0,
{
    proof {
        reveal_strlit("image decoding failed: ");
        reveal_strlit("image decoding returned a malformed image");
    }
    match outcome {
        Err(detail) => Err(
            ImageError::with_detail(
                ErrorKind::ImageDecodeError,
                "image decoding failed: ",
                detail.as_str(),
            ),
        ),
        Ok(img) => {
            let n = img.pixels.len() as u128;
            let w = img.width as u128;
            let h = img.height as u128;
            assert(4 * w * h <= 4 * 0xffff_ffff * 0xffff_ffff) by (nonlinear_arith)
                requires
                    w <= 0xffff_ffff,
                    h <= 0xffff_ffff,
            ;
            if n != 4u128 * w * h {
                Err(
                    ImageError::new(
                        ErrorKind::ImageDecodeError,
                        "image decoding returned a malformed image",
                    ),
                )
            } else {
                Ok(img)
            }
        },
    }
}

/// Encodes a raster as a PNG envelope `data:image/png;base64,<payload>`.
pub fn image_to_base64(img: &Raster) -> (r: Result<String, ImageError>)
    requires
        img.wf(),
    ensures
        r is Ok <==> encode_spec(img@) is Ok,
        r matches Ok(s) ==> encode_spec(img@) == Ok::<Seq<char>, ErrorKind>(s@),
        r matches Err(e) ==> e.kind == ErrorKind::ImageEncodeError,
        r matches Err(e) ==> e.message@.len() > 0,
        r matches Ok(s) ==> {
            &&& s@.len() >= 22
            &&& s@.subrange(0, 22) == png_prefix()
            &&& (s@.len() - 22) % 4 == 0
            &&& forall|i: int| 22 <= i < s@.len() ==> is_base64_char(#[trigger] s@[i])
        },
        r matches Ok(s) ==> (png_encoded(img.width, img.height, img.pixels@) matches Some(file)
            && envelope_spec(encode_utf8(s@)) == Ok::<(ImageKind, Seq<u8>), ErrorKind>(
            (ImageKind::Png, file),
        )),
{
    proof {
        reveal_strlit("image encoding failed: ");
    }
    let file = match encode_png(img) {
        Ok(v) => v,
        Err(detail) => {
            return Err(
                ImageError::with_detail(
                    ErrorKind::ImageEncodeError,
                    "image encoding failed: ",
                    detail.as_str(),
                ),
            );
        },
    };
    let text = encode_base64(file.as_slice());
    let mut out = "data:image/png;base64,".to_owned();
    out.append(text.as_str());
    proof {
        lemma_png_envelope_split(text@);
        reveal_strlit("data:image/jpeg");
        reveal_strlit("data:image/png");
        reveal_strlit("data:image/png;base64,");
        assert(out@ == png_prefix() + text@);
        let tag = ascii_bytes(tag_text(ImageKind::Png));
        assert(tag.len() != ascii_bytes(tag_text(ImageKind::Jpeg)).len());
        assert(kind_of_tag(tag) == Some(ImageKind::Png));
        assert(png_prefix().len() == 22);
        assert(out@.subrange(0, 22) =~= png_prefix());
        assert forall|i: int| 22 <= i < out@.len() implies is_base64_char(#[trigger] out@[i]) by {
            assert(out@[i] == text@[i - 22]);
        }
    }
    Ok(out)
}

} // verus!
