//! The failure taxonomy of one thumbnail-embedding invocation.

use vstd::prelude::*;

verus! {

/// A classified, terminal failure of one invocation.  Every variant except
/// the missing-source one carries the underlying detail text verbatim: the
/// decode error's rendering, the OS error's rendering, or the mux tool's
/// captured standard-error output.
#[derive(Debug)]
pub enum ThumbError {
    /// Neither an image file path nor inline image data was supplied.
    MissingImageSource,
    /// The inline image data was not valid standard base64.
    DecodeError(String),
    /// Writing the decoded image to the temporary directory failed.
    TempWriteError(String),
    /// The external mux tool could not be started.
    SpawnError(String),
    /// The external mux tool ran and exited non-zero; the field holds its
    /// captured standard-error text verbatim.
    MuxError(String),
    /// Deleting the original video before the rename failed (overwrite mode).
    DeleteOriginalError(String),
    /// Renaming the staging file over the original failed (overwrite mode).
    RenameError(String),
}

impl ThumbError {
    /// The human-readable rendering of this failure.
    pub open spec fn message_spec(&self) -> Seq<char> {
        match self {
            ThumbError::MissingImageSource => "No image source provided (file path or captured data)."@,
            ThumbError::DecodeError(d) => "Failed to decode base64 image data: "@ + d@,
            ThumbError::TempWriteError(d) => "Failed to write temporary image file: "@ + d@,
            ThumbError::SpawnError(d) => "Failed to execute ffmpeg: "@ + d@,
            ThumbError::MuxError(d) => "FFmpeg Error:\n"@ + d@,
            ThumbError::DeleteOriginalError(d) => "Failed to delete original file: "@ + d@,
            ThumbError::RenameError(d) => "Failed to overwrite original file: "@ + d@,
        }
    }

    /// Renders the failure as the caller-facing error string.
    pub fn message(&self) -> (r: String)
        ensures
            r@ == self.message_spec(),
    {
        match self {
            ThumbError::MissingImageSource => "No image source provided (file path or captured data).".to_owned(),
            ThumbError::DecodeError(d) => "Failed to decode base64 image data: ".to_owned().concat(d.as_str()),
            ThumbError::TempWriteError(d) => "Failed to write temporary image file: ".to_owned().concat(d.as_str()),
            ThumbError::SpawnError(d) => "Failed to execute ffmpeg: ".to_owned().concat(d.as_str()),
            ThumbError::MuxError(d) => "FFmpeg Error:\n".to_owned().concat(d.as_str()),
            ThumbError::DeleteOriginalError(d) => "Failed to delete original file: ".to_owned().concat(d.as_str()),
            ThumbError::RenameError(d) => "Failed to overwrite original file: ".to_owned().concat(d.as_str()),
        }
    }
}

/// A failed mux surfaces the tool's diagnostics verbatim: the rendered
/// error is the fixed heading followed by the captured standard-error text,
/// character for character.
pub proof fn lemma_mux_error_verbatim(e: ThumbError)
    requires
        e matches ThumbError::MuxError(_),
    ensures
        e matches ThumbError::MuxError(d) ==> e.message_spec() == "FFmpeg Error:\n"@ + d@,
{
}

} // verus!
