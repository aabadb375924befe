use thumbmux::engine::{Action, MuxOutcome, Operation, PhaseKind};
use thumbmux::errors::ThumbError;
use thumbmux::image::ImageSource;
use thumbmux::target::SaveMode;

fn ok_exit() -> MuxOutcome {
    MuxOutcome::Exited { success: true, stderr: String::new() }
}

fn failed_exit(stderr: &str) -> MuxOutcome {
    MuxOutcome::Exited { success: false, stderr: stderr.to_string() }
}

#[test]
fn overwrite_run_deletes_then_renames() {
    let source = ImageSource::FilePath("/pics/cover.png".to_string());
    let started = Operation::start(
        "/videos/movie.mp4".to_string(),
        &source,
        &SaveMode::Overwrite,
        "/tmp",
    );
    let (mut op, first) = started.expect("a file-path source must start");
    match first {
        Action::RunMux { args } => {
            assert_eq!(args[1].as_str(), "/videos/movie.mp4");
            assert_eq!(args[3].as_str(), "/pics/cover.png");
            assert_eq!(args[12].as_str(), "/videos/movie_temp.mp4");
        },
        _ => panic!("a file-path source must run the mux at once"),
    }
    match op.mux_finished(ok_exit()) {
        Action::RemoveFile { path } => assert_eq!(path.as_str(), "/videos/movie.mp4"),
        _ => panic!("overwrite mode must delete the original after a successful mux"),
    }
    match op.original_deleted(Ok(())) {
        Action::RenameFile { from, to } => {
            assert_eq!(from.as_str(), "/videos/movie_temp.mp4");
            assert_eq!(to.as_str(), "/videos/movie.mp4");
        },
        _ => panic!("the staging file must be renamed over the original"),
    }
    match op.renamed(Ok(())) {
        Action::Finish { result } => {
            let msg = result.expect("the overwrite run must succeed");
            assert_eq!(
                msg.as_str(),
                "Thumbnail set successfully!\n\nOriginal file has been updated:\n/videos/movie.mp4",
            );
        },
        _ => panic!("the rename report must finish the operation"),
    }
    assert_eq!(op.phase_kind(), PhaseKind::Finished);
}

#[test]
fn save_as_new_run_succeeds_without_finalization() {
    let source = ImageSource::FilePath("/pics/cover.png".to_string());
    let mode = SaveMode::SaveAsNew { output_filename: None };
    let (mut op, _) = Operation::start("/videos/movie.mp4".to_string(), &source, &mode, "/tmp")
        .expect("a file-path source must start");
    match op.mux_finished(ok_exit()) {
        Action::Finish { result } => {
            let msg = result.expect("the save-as-new run must succeed");
            assert_eq!(
                msg.as_str(),
                "Thumbnail set successfully!\n\nOutput saved to:\n/videos/movie_thumb.mp4",
            );
        },
        _ => panic!("save-as-new mode has nothing to finalize"),
    }
}

#[test]
fn inline_data_writes_then_removes_temp_image() {
    let source = ImageSource::InlineData("AAAA".to_string());
    let mode = SaveMode::SaveAsNew { output_filename: None };
    let (mut op, first) = Operation::start("/videos/movie.mp4".to_string(), &source, &mode, "/tmp")
        .expect("valid inline data must start");
    match first {
        Action::WriteFile { path, bytes } => {
            assert_eq!(path.as_str(), "/tmp/thumb_movie.png");
            assert_eq!(bytes, vec![0u8, 0u8, 0u8]);
        },
        _ => panic!("inline data must first write the temp image"),
    }
    match op.temp_written(Ok(())) {
        Action::RunMux { args } => assert_eq!(args[3].as_str(), "/tmp/thumb_movie.png"),
        _ => panic!("a written temp image must start the mux"),
    }
    match op.mux_finished(ok_exit()) {
        Action::RemoveFile { path } => assert_eq!(path.as_str(), "/tmp/thumb_movie.png"),
        _ => panic!("the owned temp image must be removed right after the mux"),
    }
    match op.cleanup_done() {
        Action::Finish { result } => assert!(result.is_ok()),
        _ => panic!("the cleanup report must finish the operation"),
    }
    assert_eq!(op.phase_kind(), PhaseKind::Finished);
}

#[test]
fn mux_failure_surfaces_stderr_verbatim_and_keeps_original() {
    let source = ImageSource::InlineData("AAAA".to_string());
    let (mut op, _) = Operation::start(
        "/videos/movie.mp4".to_string(),
        &source,
        &SaveMode::Overwrite,
        "/tmp",
    )
    .expect("valid inline data must start");
    let _ = op.temp_written(Ok(()));
    // The temp image is removed first, success or failure alike.
    match op.mux_finished(failed_exit("movie.mp4: Invalid data found")) {
        Action::RemoveFile { path } => assert_eq!(path.as_str(), "/tmp/thumb_movie.png"),
        _ => panic!("the owned temp image must be removed after a failed mux too"),
    }
    match op.cleanup_done() {
        Action::Finish { result } => match result {
            Err(ThumbError::MuxError(stderr)) => {
                assert_eq!(stderr.as_str(), "movie.mp4: Invalid data found");
                let rendered = ThumbError::MuxError(stderr).message();
                assert_eq!(rendered.as_str(), "FFmpeg Error:\nmovie.mp4: Invalid data found");
            },
            _ => panic!("a non-zero exit must come back as the mux error"),
        },
        // No delete and no rename reach the original on the failure path.
        _ => panic!("a failed mux must finish without touching the original"),
    }
}

#[test]
fn two_sequential_inline_runs_remove_the_temp_image_each_time() {
    let mode = SaveMode::SaveAsNew { output_filename: None };
    let mut removed: Vec<String> = Vec::new();
    for succeed in [true, false] {
        let source = ImageSource::InlineData("AAAA".to_string());
        let (mut op, _) =
            Operation::start("/videos/movie.mp4".to_string(), &source, &mode, "/tmp")
                .expect("valid inline data must start");
        let _ = op.temp_written(Ok(()));
        let outcome = if succeed { ok_exit() } else { failed_exit("boom") };
        match op.mux_finished(outcome) {
            Action::RemoveFile { path } => removed.push(path),
            _ => panic!("each run must remove its temp image"),
        }
        match op.cleanup_done() {
            Action::Finish { result } => assert_eq!(result.is_ok(), succeed),
            _ => panic!("the cleanup report must finish the operation"),
        }
    }
    assert_eq!(removed.len(), 2);
    assert_eq!(removed[0].as_str(), "/tmp/thumb_movie.png");
    assert_eq!(removed[1].as_str(), "/tmp/thumb_movie.png");
}

#[test]
fn spawn_failure_is_classified_after_cleanup() {
    let source = ImageSource::InlineData("AAAA".to_string());
    let mode = SaveMode::SaveAsNew { output_filename: None };
    let (mut op, _) = Operation::start("/videos/movie.mp4".to_string(), &source, &mode, "/tmp")
        .expect("valid inline data must start");
    let _ = op.temp_written(Ok(()));
    match op.mux_finished(MuxOutcome::SpawnFailed("No such file or directory".to_string())) {
        Action::RemoveFile { path } => assert_eq!(path.as_str(), "/tmp/thumb_movie.png"),
        _ => panic!("the temp image must be removed even when the spawn failed"),
    }
    match op.cleanup_done() {
        Action::Finish { result } => match result {
            Err(e) => assert_eq!(
                e.message().as_str(),
                "Failed to execute ffmpeg: No such file or directory",
            ),
            Ok(_) => panic!("a spawn failure cannot succeed"),
        },
        _ => panic!("the cleanup report must finish the operation"),
    }
}

#[test]
fn temp_write_failure_ends_the_run() {
    let source = ImageSource::InlineData("AAAA".to_string());
    let mode = SaveMode::SaveAsNew { output_filename: None };
    let (mut op, _) = Operation::start("/videos/movie.mp4".to_string(), &source, &mode, "/tmp")
        .expect("valid inline data must start");
    match op.temp_written(Err("disk full".to_string())) {
        Action::Finish { result } => match result {
            Err(e) => assert_eq!(
                e.message().as_str(),
                "Failed to write temporary image file: disk full",
            ),
            Ok(_) => panic!("a failed temp write cannot succeed"),
        },
        _ => panic!("a failed temp write must finish the operation"),
    }
}

#[test]
fn missing_source_fails_before_any_action() {
    let started = Operation::start(
        "/videos/movie.mp4".to_string(),
        &ImageSource::NoSource,
        &SaveMode::Overwrite,
        "/tmp",
    );
    match started {
        Err(e) => assert_eq!(
            e.message().as_str(),
            "No image source provided (file path or captured data).",
        ),
        Ok(_) => panic!("a missing source must fail before any step is handed out"),
    }
}

#[test]
fn invalid_inline_data_fails_before_any_action() {
    let source = ImageSource::InlineData("not-base64!".to_string());
    let mode = SaveMode::SaveAsNew { output_filename: None };
    match Operation::start("/videos/movie.mp4".to_string(), &source, &mode, "/tmp") {
        Err(ThumbError::DecodeError(_)) => {},
        _ => panic!("malformed inline data must fail before any step is handed out"),
    }
}

#[test]
fn delete_failure_surfaces_delete_error() {
    let source = ImageSource::FilePath("/pics/cover.png".to_string());
    let (mut op, _) = Operation::start(
        "/videos/movie.mp4".to_string(),
        &source,
        &SaveMode::Overwrite,
        "/tmp",
    )
    .expect("a file-path source must start");
    let _ = op.mux_finished(ok_exit());
    match op.original_deleted(Err("permission denied".to_string())) {
        Action::Finish { result } => match result {
            Err(e) => assert_eq!(
                e.message().as_str(),
                "Failed to delete original file: permission denied",
            ),
            Ok(_) => panic!("a failed delete cannot succeed"),
        },
        _ => panic!("a failed delete must finish the operation"),
    }
}

#[test]
fn rename_failure_surfaces_rename_error() {
    let source = ImageSource::FilePath("/pics/cover.png".to_string());
    let (mut op, _) = Operation::start(
        "/videos/movie.mp4".to_string(),
        &source,
        &SaveMode::Overwrite,
        "/tmp",
    )
    .expect("a file-path source must start");
    let _ = op.mux_finished(ok_exit());
    let _ = op.original_deleted(Ok(()));
    match op.renamed(Err("cross-device link".to_string())) {
        Action::Finish { result } => match result {
            Err(e) => assert_eq!(
                e.message().as_str(),
                "Failed to overwrite original file: cross-device link",
            ),
            Ok(_) => panic!("a failed rename cannot succeed"),
        },
        _ => panic!("a failed rename must finish the operation"),
    }
}
