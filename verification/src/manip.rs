//! The reading of what the image codec answered, and the content type of a
//! stored blob.

use vstd::prelude::*;
use crate::errors::{CdnError, CdnErrorView};
use crate::presets::ImageSize;

verus! {

/// What the first bytes of a blob say it is: the MIME type of the image
/// format they announce, or the reason why they announce none.
pub uninterp spec fn sniffed_mime_type(bytes: Seq<u8>) -> Result<Seq<char>, Seq<char>>;

/// Asks `image::guess_format` for the format that the first bytes announce,
/// and hands out that format's `to_mime_type()`, or the error as text: both
/// depend on the bytes alone.
#[verifier::external_body]
fn sniff_mime_type(bytes: &[u8]) -> (sniffed: Result<String, String>)
    ensures
        match sniffed {
            Ok(mime) => sniffed_mime_type(bytes@) == Ok::<Seq<char>, Seq<char>>(mime@),
            Err(cause) => sniffed_mime_type(bytes@) == Err::<Seq<char>, Seq<char>>(cause@),
        },
{
    match image::guess_format(bytes) {
        Ok(format) => Ok(format.to_mime_type().to_string()),
        Err(error) => Err(error.to_string()),
    }
}

/// Reads the decoder's answer: the size of the image, where the bytes were
/// one.
pub fn read_image(answer: Result<ImageSize, String>) -> (outcome: Result<ImageSize, CdnError>)
    ensures
        match answer {
            Ok(size) => outcome == Ok::<ImageSize, CdnError>(size),
            Err(cause) => outcome matches Err(e) && e@ == CdnErrorView::UnrecognizedImage(cause@),
        },
{
    match answer {
        Ok(size) => Ok(size),
        Err(cause) => Err(CdnError::UnrecognizedImage(cause)),
    }
}

/// Reads the encoder's answer: the bytes of the transformed image, where it
/// could be made.
pub fn get_image_bytes(answer: Result<Vec<u8>, String>) -> (outcome: Result<Vec<u8>, CdnError>)
    ensures
        match answer {
            Ok(bytes) => outcome matches Ok(b) && b@ == bytes@,
            Err(cause) => outcome matches Err(e) && e@ == CdnErrorView::TransformFailed(cause@),
        },
{
    match answer {
        Ok(bytes) => Ok(bytes),
        Err(cause) => Err(CdnError::TransformFailed(cause)),
    }
}

/// The content type under which sniffed bytes are served: the MIME type they
/// announce. Bytes that announce none are no image.
pub fn content_type(sniffed: Result<String, String>) -> (outcome: Result<String, CdnError>)
    ensures
        match sniffed {
            Ok(mime) => outcome matches Ok(m) && m@ == mime@,
            Err(cause) => outcome matches Err(e) && e@ == CdnErrorView::UnrecognizedImage(cause@),
        },
{
    match sniffed {
        Ok(mime) => Ok(mime),
        Err(cause) => Err(CdnError::UnrecognizedImage(cause)),
    }
}

/// What `guess_content_type` gives for a blob of these bytes.
pub open spec fn content_type_of(bytes: Seq<u8>) -> Result<Seq<char>, CdnErrorView> {
    match sniffed_mime_type(bytes) {
        Ok(mime) => Ok(mime),
        Err(cause) => Err(CdnErrorView::UnrecognizedImage(cause)),
    }
}

/// The content type of a stored blob, told from its first bytes.
pub fn guess_content_type(blob: &[u8]) -> (outcome: Result<String, CdnError>)
    ensures
        match outcome {
            Ok(mime) => content_type_of(blob@) == Ok::<Seq<char>, CdnErrorView>(mime@),
            Err(e) => content_type_of(blob@) == Err::<Seq<char>, CdnErrorView>(e@),
        },
{
    content_type(sniff_mime_type(blob))
}

} // verus!
