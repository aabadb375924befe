//! Turning an image source into a concrete file plan: an existing file used
//! as it stands, or inline base64 text decoded into bytes that the caller
//! writes to a deterministically named temporary file.

use vstd::prelude::*;
use crate::errors::ThumbError;
use crate::paths::{joined, join_path};
use crate::text::{first_occurrence, lemma_first_occurrence, find_char, join3};

verus! {

/// Where the image to embed comes from.
pub enum ImageSource {
    /// An existing image file on disk, fed to the mux tool as it stands.
    FilePath(String),
    /// The image itself as base64 text, optionally behind a data-URL header
    /// (`data:...;base64,`), which is stripped before decoding.
    InlineData(String),
    /// Nothing was supplied: the request must fail.
    NoSource,
}

/// How the image becomes a concrete file for the mux tool: an existing file
/// used in place, or decoded bytes that the caller must first write to an
/// owned temporary file at the given path.
pub enum ImagePlan {
    Existing { path: String },
    WriteTemp { path: String, bytes: Vec<u8> },
}

/// `data` with a data-URL header stripped: everything up to and including
/// the first comma is discarded; without a comma, `data` stands verbatim.
pub open spec fn payload_of(data: Seq<char>) -> Seq<char> {
    match first_occurrence(data, ',') {
        Some(i) => data.subrange(i + 1, data.len() as int),
        None => data,
    }
}

/// Strips a data-URL header from inline image text.
pub fn strip_data_url(data: &str) -> (r: &str)
    ensures
        r@ == payload_of(data@),
{
    proof {
        lemma_first_occurrence(data@, ',');
    }
    let n = data.unicode_len();
    match find_char(data, ',') {
        Some(i) => data.substring_char(i + 1, n),
        None => data,
    }
}

/// What decoding standard base64 yields for the given text: the byte
/// sequence for valid input, nothing for malformed input.
pub uninterp spec fn base64_decoding(s: Seq<char>) -> Option<Seq<u8>>;

/// Relies on base64's `Engine::decode` with the standard engine
/// (`BASE64_STANDARD`): the outcome is a function of the input text alone,
/// and the error's rendering carries the decode detail.
#[verifier::external_body]
fn decode_base64(s: &str) -> (r: Result<Vec<u8>, String>)
    ensures
        (match r {
            Ok(v) => base64_decoding(s@) == Some(v@),
            Err(_) => base64_decoding(s@) is None,
        }),
{
    base64::Engine::decode(&base64::prelude::BASE64_STANDARD, s).map_err(|e| format!("{}", e))
}

/// The deterministic temporary-image path for a video stem:
/// `thumb_<stem>.png` under the given temporary directory, so repeated calls
/// for the same video reuse one predictable name.
pub open spec fn temp_image_path(temp_dir: Seq<char>, stem: Seq<char>) -> Seq<char> {
    joined(temp_dir, "thumb_"@ + stem + ".png"@)
}

/// Builds the temporary-image path for a video stem.
pub fn temp_image_file(temp_dir: &str, stem: &str) -> (r: String)
    ensures
        r@ == temp_image_path(temp_dir@, stem@),
{
    let name = join3("thumb_", stem, ".png");
    join_path(temp_dir, name.as_str())
}

/// Resolves an image source into a file plan.
///
/// A file path is taken verbatim, with no existence check (the mux tool
/// fails on a missing file).  Inline data is stripped of a data-URL header
/// and decoded; malformed base64 is the decode error, carrying the decoder's
/// detail.  A missing source is the missing-source error.
pub fn plan_image(source: &ImageSource, stem: &str, temp_dir: &str) -> (r: Result<
    ImagePlan,
    ThumbError,
>)
    ensures
        (match source {
            ImageSource::FilePath(p) => r matches Ok(ImagePlan::Existing { path }) && path@
                == p@,
            ImageSource::InlineData(d) => (match base64_decoding(payload_of(d@)) {
                Some(decoded) => r matches Ok(ImagePlan::WriteTemp { path, bytes }) && path@
                    == temp_image_path(temp_dir@, stem@) && bytes@ == decoded,
                None => r matches Err(ThumbError::DecodeError(_)),
            }),
            ImageSource::NoSource => r matches Err(ThumbError::MissingImageSource),
        }),
{
    match source {
        ImageSource::FilePath(p) => Ok(ImagePlan::Existing { path: p.clone() }),
        ImageSource::InlineData(d) => {
            let payload = strip_data_url(d.as_str());
            match decode_base64(payload) {
                Ok(bytes) => Ok(
                    ImagePlan::WriteTemp { path: temp_image_file(temp_dir, stem), bytes },
                ),
                Err(m) => Err(ThumbError::DecodeError(m)),
            }
        },
        ImageSource::NoSource => Err(ThumbError::MissingImageSource),
    }
}

/// A data-URL header changes nothing: for a comma-free header glued to a
/// comma-free payload with one comma, the full text and the bare payload
/// strip to the same decoding input, and so decode to the same outcome.
pub proof fn lemma_data_url_header_ignored(header: Seq<char>, payload: Seq<char>)
    requires
        forall|j: int| 0 <= j < header.len() ==> header[j] != ',',
        forall|j: int| 0 <= j < payload.len() ==> payload[j] != ',',
    ensures
        payload_of(header + seq![','] + payload) == payload,
        payload_of(payload) == payload,
        base64_decoding(payload_of(header + seq![','] + payload)) == base64_decoding(
            payload_of(payload),
        ),
{
    let full = header + seq![','] + payload;
    lemma_first_occurrence(full, ',');
    lemma_first_occurrence(payload, ',');
    assert(full[header.len() as int] == ',');
    match first_occurrence(full, ',') {
        Some(i) => {
            assert(i == header.len()) by {
                if i < header.len() {
                    assert(full[i] == header[i]);
                }
            }
            assert(payload_of(full) =~= payload);
        },
        None => {
            assert(false);
        },
    }
    match first_occurrence(payload, ',') {
        Some(i) => {
            assert(false);
        },
        None => {},
    }
}

} // verus!
