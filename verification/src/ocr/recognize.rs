//! The computing parts around text recognition: decoding the base64 image
//! sent by the front end, and tidying the recognised text.
use vstd::prelude::*;

use crate::base64_text::{base64_decode_error, base64_encoding, decode_base64};
use crate::raster::{
    decode_any_image, decode_png_image, guessed_image_decoding, png_image_decoding,
    same_image_in_machine_order, DecodedImage,
};
use crate::errors::AppError;
use crate::text::{trim_text, trimmed};

verus! {

/// Decodes a base64-encoded image (standard alphabet, padded). A text is
/// accepted exactly when it is the encoding of some bytes, which it then
/// gives back; any other text fails with an OCR error
/// `Invalid base64 image: <decoder error>`.
pub fn decode_image_base64(image_base64: &str) -> (r: Result<Vec<u8>, AppError>)
    ensures
        r matches Ok(d) ==> image_base64@ == base64_encoding(d@),
        forall|b: Seq<u8>| #[trigger] base64_encoding(b) == image_base64@ ==> (r matches Ok(d) && d@ == b),
        r matches Err(e) ==> e matches AppError::Ocr(m) && m@ == "Invalid base64 image: "@ + base64_decode_error(
            image_base64@,
        ),
{
    match decode_base64(image_base64) {
        Ok(bytes) => Ok(bytes),
        Err(msg) => {
            let mut text = String::from_str("Invalid base64 image: ");
            text.append(msg.as_str());
            Err(AppError::Ocr(text))
        },
    }
}

/// Decodes image bytes for recognition: as PNG first, then, if that fails,
/// in the format that the bytes announce. When both fail, the error of the
/// second attempt becomes an OCR error `Failed to load image: <error>`. The
/// samples come in the machine's byte order.
pub fn load_image_for_ocr(image_data: &[u8]) -> (r: Result<DecodedImage, AppError>)
    ensures
        match png_image_decoding(image_data@) {
            Ok(v) => r matches Ok(d) && same_image_in_machine_order(d@, v),
            Err(_) => match guessed_image_decoding(image_data@) {
                Ok(v) => r matches Ok(d) && same_image_in_machine_order(d@, v),
                Err(m) => r matches Err(e) && e matches AppError::Ocr(s) && s@ == "Failed to load image: "@ + m,
            },
        },
{
    match decode_png_image(image_data) {
        Ok(img) => Ok(img),
        Err(_) => match decode_any_image(image_data) {
            Ok(img) => Ok(img),
            Err(msg) => {
                let mut text = String::from_str("Failed to load image: ");
                text.append(msg.as_str());
                Err(AppError::Ocr(text))
            },
        },
    }
}

/// The text that recognition returns: the raw engine output without leading
/// or trailing white space.
pub fn recognized_text(raw_output: &str) -> (r: String)
    ensures
        r@ == trimmed(raw_output@),
{
    String::from_str(trim_text(raw_output))
}

} // verus!
