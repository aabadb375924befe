//! The save-mode policy: where the mux tool writes, where the finished file
//! ends up, the argument list handed to the tool, and the success messages.

use vstd::prelude::*;
use crate::paths::{joined, join_path, ResolvedPaths, parent_of, stem_of, ext_of};
use crate::text::{is_blank, blank_str, join3};

verus! {

/// Whether the finished file replaces the original or stands beside it.
pub enum SaveMode {
    /// Write to a staging file, then replace the original video with it.
    Overwrite,
    /// Write a new file next to the original, named from `output_filename`,
    /// or `<stem>_thumb` when that is absent or blank.
    SaveAsNew { output_filename: Option<String> },
}

/// Where the mux tool writes and where the finished file ends up.  In
/// overwrite mode the two differ: the tool writes to the staging path, and
/// the original is replaced only after the tool succeeds.  In save-as-new
/// mode the two are one and the same path.
pub struct OutputTarget {
    pub staging_path: String,
    pub final_path: String,
    pub overwrite: bool,
}

/// The staging file name used in overwrite mode: `<stem>_temp.<ext>`.
pub open spec fn staging_name(stem: Seq<char>, ext: Seq<char>) -> Seq<char> {
    stem + "_temp."@ + ext
}

/// The view of an optional output name.
pub open spec fn name_view(o: Option<String>) -> Option<Seq<char>> {
    match o {
        Some(s) => Some(s@),
        None => None,
    }
}

/// The base name chosen in save-as-new mode: the caller's name verbatim when
/// present and not blank, `<stem>_thumb` otherwise.
pub open spec fn output_base_name(stem: Seq<char>, output_filename: Option<Seq<char>>) -> Seq<
    char,
> {
    match output_filename {
        Some(name) => if is_blank(name) {
            stem + "_thumb"@
        } else {
            name
        },
        None => stem + "_thumb"@,
    }
}

/// The file name written in save-as-new mode: the chosen base name, one dot,
/// and the original's extension.
pub open spec fn new_file_name(
    stem: Seq<char>,
    ext: Seq<char>,
    output_filename: Option<Seq<char>>,
) -> Seq<char> {
    output_base_name(stem, output_filename) + "."@ + ext
}

/// The output target that the save-mode policy assigns for the video at
/// `video`: staging at `<stem>_temp.<ext>` with the original as final path
/// in overwrite mode, one shared path `<parent>/<base name>.<ext>` in
/// save-as-new mode.
pub open spec fn target_matches(t: OutputTarget, video: Seq<char>, mode: SaveMode) -> bool {
    match mode {
        SaveMode::Overwrite => {
            &&& t.overwrite
            &&& t.final_path@ == video
            &&& t.staging_path@ == joined(
                parent_of(video),
                staging_name(stem_of(video), ext_of(video)),
            )
        },
        SaveMode::SaveAsNew { output_filename } => {
            &&& !t.overwrite
            &&& t.staging_path@ == t.final_path@
            &&& t.final_path@ == joined(
                parent_of(video),
                new_file_name(stem_of(video), ext_of(video), name_view(output_filename)),
            )
        },
    }
}

/// Computes the output target for one invocation.
///
/// In overwrite mode the staging file is `<stem>_temp.<ext>` beside the
/// original and the final path is the original path itself, verbatim.  In
/// save-as-new mode staging and final path are both
/// `<parent>/<base name>.<ext>`.
pub fn output_target(rp: &ResolvedPaths, video_path: &str, mode: &SaveMode) -> (t: OutputTarget)
    ensures
        t.overwrite == (mode matches SaveMode::Overwrite),
        (mode matches SaveMode::Overwrite ==> t.final_path@ == video_path@ && t.staging_path@
            == joined(rp.parent@, staging_name(rp.stem@, rp.ext@))),
        (mode matches SaveMode::SaveAsNew { output_filename } ==> t.final_path@ == joined(
            rp.parent@,
            new_file_name(rp.stem@, rp.ext@, name_view(*output_filename)),
        ) && t.staging_path@ == t.final_path@),
{
    match mode {
        SaveMode::Overwrite => {
            let name = join3(rp.stem.as_str(), "_temp.", rp.ext.as_str());
            OutputTarget {
                staging_path: join_path(rp.parent.as_str(), name.as_str()),
                final_path: video_path.to_owned(),
                overwrite: true,
            }
        },
        SaveMode::SaveAsNew { output_filename } => {
            let base: String = match output_filename {
                Some(nm) => {
                    if blank_str(nm.as_str()) {
                        rp.stem.clone().concat("_thumb")
                    } else {
                        nm.clone()
                    }
                },
                None => rp.stem.clone().concat("_thumb"),
            };
            let name = base.concat(".").concat(rp.ext.as_str());
            let path = join_path(rp.parent.as_str(), name.as_str());
            OutputTarget { staging_path: path.clone(), final_path: path, overwrite: false }
        },
    }
}

/// The argument list handed to the mux tool: the video as the first input,
/// the image as the second, the image mapped to output stream 0 with the
/// attached-picture disposition, the video's streams copied through, the
/// staging path as destination, and unconditional overwriting.
pub open spec fn mux_args_spec(video: Seq<char>, image: Seq<char>, staging: Seq<char>) -> Seq<
    Seq<char>,
> {
    seq![
        "-i"@,
        video,
        "-i"@,
        image,
        "-map"@,
        "1"@,
        "-map"@,
        "0"@,
        "-c"@,
        "copy"@,
        "-disposition:0"@,
        "attached_pic"@,
        staging,
        "-y"@,
    ]
}

/// Builds the mux tool's argument list.
pub fn mux_args(video_path: &str, image_path: &str, staging_path: &str) -> (v: Vec<String>)
    ensures
        v@.map_values(|s: String| s@) == mux_args_spec(video_path@, image_path@, staging_path@),
{
    let mut v: Vec<String> = Vec::new();
    v.push("-i".to_owned());
    v.push(video_path.to_owned());
    v.push("-i".to_owned());
    v.push(image_path.to_owned());
    v.push("-map".to_owned());
    v.push("1".to_owned());
    v.push("-map".to_owned());
    v.push("0".to_owned());
    v.push("-c".to_owned());
    v.push("copy".to_owned());
    v.push("-disposition:0".to_owned());
    v.push("attached_pic".to_owned());
    v.push(staging_path.to_owned());
    v.push("-y".to_owned());
    proof {
        assert(v@.map_values(|s: String| s@) =~~= mux_args_spec(
            video_path@,
            image_path@,
            staging_path@,
        ));
    }
    v
}

/// The success message in overwrite mode, naming the updated original.
pub open spec fn overwrite_success_message(video: Seq<char>) -> Seq<char> {
    "Thumbnail set successfully!\n\nOriginal file has been updated:\n"@ + video
}

/// The success message in save-as-new mode, naming the new file.
pub open spec fn new_file_success_message(path: Seq<char>) -> Seq<char> {
    "Thumbnail set successfully!\n\nOutput saved to:\n"@ + path
}

/// Renders the overwrite-mode success message.
pub fn overwrite_success(video_path: &str) -> (r: String)
    ensures
        r@ == overwrite_success_message(video_path@),
{
    "Thumbnail set successfully!\n\nOriginal file has been updated:\n".to_owned().concat(
        video_path,
    )
}

/// Renders the save-as-new-mode success message.
pub fn new_file_success(path: &str) -> (r: String)
    ensures
        r@ == new_file_success_message(path@),
{
    "Thumbnail set successfully!\n\nOutput saved to:\n".to_owned().concat(path)
}

/// With no explicit output name, save-as-new mode names the finished file
/// `<stem>_thumb.<ext>`: the law for every video path's stem and extension.
pub proof fn lemma_default_new_name(stem: Seq<char>, ext: Seq<char>)
    ensures
        new_file_name(stem, ext, None) == stem + "_thumb."@ + ext,
{
    reveal_strlit("_thumb");
    reveal_strlit(".");
    reveal_strlit("_thumb.");
    assert(new_file_name(stem, ext, None) =~= stem + "_thumb."@ + ext);
}

/// With no explicit output name, save-as-new mode writes `<stem>_thumb.<ext>`
/// in the video's own directory: the law for every video path, stated of any
/// target that the save-mode policy assigns.
pub proof fn lemma_save_as_new_default_target(t: OutputTarget, video: Seq<char>)
    requires
        target_matches(t, video, SaveMode::SaveAsNew { output_filename: None }),
    ensures
        t.final_path@ == joined(parent_of(video), stem_of(video) + "_thumb."@ + ext_of(video)),
        t.staging_path@ == t.final_path@,
{
    lemma_default_new_name(stem_of(video), ext_of(video));
}

/// A blank output name falls back exactly as an absent one does: the
/// finished file's name is the same in both cases.
pub proof fn lemma_blank_name_like_absent(stem: Seq<char>, ext: Seq<char>, name: Seq<char>)
    requires
        is_blank(name),
    ensures
        new_file_name(stem, ext, Some(name)) == new_file_name(stem, ext, None),
{
}

} // verus!
