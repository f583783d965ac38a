//! The request pipeline's stages around inference: the envelope is read with
//! `codec::decode_envelope`, the decoder's outcome checked with
//! `codec::accept_decoded`, the model runs outside, and its outcome is turned
//! into the reply's envelope here.
use vstd::prelude::*;
use crate::codec::{encode_spec, image_to_base64, Raster};
use crate::error::{ErrorKind, ImageError};

verus! {

/// What the run yields once the model has answered with `inferred`: an
/// inference failure, a malformed raster, or the encoded result.
pub open spec fn finish_spec(inferred: Result<(u32, u32, Seq<u8>), ()>) -> Result<Seq<char>, ErrorKind> {
    match inferred {
        Err(_) => Err(ErrorKind::InferenceError),
        Ok(img) => if img.2.len() != 4 * (img.0 as int) * (img.1 as int) {
            Err(ErrorKind::InferenceError)
        } else {
            encode_spec(img)
        },
    }
}

/// Turns the model's outcome into the reply's PNG envelope. A failure of the
/// model, or a raster whose buffer does not match its size, is an
/// `InferenceError`; an encoder failure is an `ImageEncodeError`.
pub fn finish_run(inferred: Result<Raster, String>) -> (r: Result<String, ImageError>)
    ensures
        ({
            let expected = finish_spec(
                match inferred {
                    Ok(img) => Ok(img@),
                    Err(_) => Err(()),
                },
            );
            &&& r is Ok <==> expected is Ok
            &&& r matches Ok(s) ==> expected == Ok::<Seq<char>, ErrorKind>(s@)
            &&& r matches Err(e) ==> expected == Err::<Seq<char>, ErrorKind>(e.kind)
        }),
        r matches Err(e) ==> e.message@.len() > 0,
{
    proof {
        reveal_strlit("background removal failed: ");
        reveal_strlit("background removal returned a malformed image");
    }
    match inferred {
        Err(detail) => Err(
            ImageError::with_detail(
                ErrorKind::InferenceError,
                "background removal failed: ",
                detail.as_str(),
            ),
        ),
        Ok(img) => {
            let n = img.pixels.len() as u128;
            let w = img.width as u128;
            let h = img.height as u128;
            assert(4 * w * h <= 4 * 0xffff_ffff * 0xffff_ffff) by (nonlinear_arith)
                requires
                    w <= 0xffff_ffff,
                    h <= 0xffff_ffff,
            ;
            let size = 4u128 * w * h;
            if n != size {
                Err(
                    ImageError::new(
                        ErrorKind::InferenceError,
                        "background removal returned a malformed image",
                    ),
                )
            } else {
                image_to_base64(&img)
            }
        },
    }
}

} // verus!
