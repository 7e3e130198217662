//! Image analysis support: recognizing vision-capable models and packing
//! image bytes into the `data:` URI the message model carries. The bytes are
//! read from disk by the surrounding process; the base64 encoding is the one
//! outside call.

use vstd::prelude::*;

use crate::text::contains_spec;
use crate::text::contains_str;
use crate::text::str_eq;

verus! {

/// Whether a model name names a vision-capable model.
pub open spec fn is_vision_model_spec(model: Seq<char>) -> bool {
    contains_spec(model, "gpt-4o"@) || contains_spec(model, "gpt-4.1"@) || contains_spec(
        model,
        "gpt-4-vision"@,
    ) || contains_spec(model, "gpt-4-turbo"@) || model == "gpt-4"@
}

/// Whether a model name names a vision-capable model (see
/// [`is_vision_model_spec`]).
pub fn is_vision_model(model: &str) -> (r: bool)
    ensures
        r == is_vision_model_spec(model@),
{
    contains_str(model, "gpt-4o") || contains_str(model, "gpt-4.1") || contains_str(
        model,
        "gpt-4-vision",
    ) || contains_str(model, "gpt-4-turbo") || str_eq(model, "gpt-4")
}

/// The MIME type of a lowercase image file extension; JPEG for anything
/// unrecognized.
pub open spec fn mime_spec(extension: Seq<char>) -> Seq<char> {
    if extension == "png"@ {
        "image/png"@
    } else if extension == "jpg"@ || extension == "jpeg"@ {
        "image/jpeg"@
    } else if extension == "gif"@ {
        "image/gif"@
    } else if extension == "webp"@ {
        "image/webp"@
    } else {
        "image/jpeg"@
    }
}

/// The MIME type of a lowercase image file extension (see [`mime_spec`]).
pub fn mime_from_extension(extension: &str) -> (r: &'static str)
    ensures
        r@ == mime_spec(extension@),
{
    if str_eq(extension, "png") {
        "image/png"
    } else if str_eq(extension, "jpg") || str_eq(extension, "jpeg") {
        "image/jpeg"
    } else if str_eq(extension, "gif") {
        "image/gif"
    } else if str_eq(extension, "webp") {
        "image/webp"
    } else {
        "image/jpeg"
    }
}

/// The standard base64 text of a byte sequence.
pub uninterp spec fn base64_of(bytes: Seq<u8>) -> Seq<char>;

/// Relies on base64's `STANDARD` engine `encode`: the standard alphabet with
/// padding, four output characters for every three input bytes; the result
/// depends on the bytes alone.
#[verifier::external_body]
fn base64_encode(bytes: &Vec<u8>) -> (r: String)
    requires
        4 * bytes@.len() <= usize::MAX,
    ensures
        r@ == base64_of(bytes@),
        r@.len() == 4 * ((bytes@.len() + 2) / 3),
{
    base64::Engine::encode(&base64::engine::general_purpose::STANDARD, bytes)
}

/// Pack image bytes into the `data:` URI carried in an image message part:
/// the extension's MIME type and the base64 payload.
pub fn build_image_data_uri(bytes: &Vec<u8>, extension: &str) -> (r: String)
    requires
        4 * bytes@.len() <= usize::MAX,
    ensures
        r@ == "data:"@ + mime_spec(extension@) + ";base64,"@ + base64_of(bytes@),
{
    let mut uri = String::new();
    uri.append("data:");
    uri.append(mime_from_extension(extension));
    uri.append(";base64,");
    let encoded = base64_encode(bytes);
    uri.append(encoded.as_str());
    proof {
        assert(uri@ =~= "data:"@ + mime_spec(extension@) + ";base64,"@ + base64_of(bytes@));
    }
    uri
}

} // verus!
