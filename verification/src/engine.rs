//! The decision engine of one thumbnail-embedding invocation.
//!
//! The engine holds every decision of the operation; the caller performs the
//! outside work.  `Operation::start` plans the invocation and hands back the
//! first step; after performing each step, the caller reports its outcome
//! through the matching method and receives the next step, until an
//! `Action::Finish` carries the operation's result.

use vstd::prelude::*;
use crate::errors::ThumbError;
use crate::image::{
    ImageSource,
    ImagePlan,
    plan_image,
    base64_decoding,
    payload_of,
    temp_image_path,
};
use crate::paths::{resolve_paths, stem_of};
use crate::target::{
    SaveMode,
    OutputTarget,
    output_target,
    mux_args,
    mux_args_spec,
    target_matches,
    overwrite_success,
    new_file_success,
    overwrite_success_message,
    new_file_success_message,
};

verus! {

/// How the external mux process ended.
#[derive(Debug)]
pub enum MuxOutcome {
    /// The tool could not be started; the field holds the OS error text.
    SpawnFailed(String),
    /// The tool ran; `success` is whether it exited zero, `stderr` its
    /// captured standard-error text.
    Exited { success: bool, stderr: String },
}

/// One step of outside work that the caller must perform next.
#[derive(Debug)]
pub enum Action {
    /// Write `bytes` to the file at `path`, creating or truncating it.
    WriteFile { path: String, bytes: Vec<u8> },
    /// Run the mux tool with `args`, without opening a console window, and
    /// capture its exit status and standard-error text.
    RunMux { args: Vec<String> },
    /// Remove the file at `path`.
    RemoveFile { path: String },
    /// Rename the file at `from` to `to`.
    RenameFile { from: String, to: String },
    /// Nothing is left to do: `result` is the operation's outcome.
    Finish { result: Result<String, ThumbError> },
}

/// Which report the operation waits on.
pub enum Phase {
    /// The decoded temp image is being written.
    AwaitTempWrite,
    /// The mux tool is running.
    AwaitMux,
    /// The owned temp image is being removed; the mux outcome is on hold.
    AwaitCleanup { outcome: MuxOutcome },
    /// Overwrite mode, after a successful mux: the original is being deleted.
    AwaitDelete,
    /// Overwrite mode: the staging file is being renamed over the original.
    AwaitRename,
    /// The operation has ended.
    Finished,
}

/// Dataless phase labels, for callers that branch on the phase.
#[derive(PartialEq, Eq, Structural, Clone, Copy, Debug)]
pub enum PhaseKind {
    AwaitTempWrite,
    AwaitMux,
    AwaitCleanup,
    AwaitDelete,
    AwaitRename,
    Finished,
}

/// One in-flight thumbnail-embedding operation.
pub struct Operation {
    /// The original video's path, verbatim as the caller gave it.
    pub video_path: String,
    /// The concrete image file fed to the mux tool.
    pub image_path: String,
    /// Where the mux tool writes and where the finished file ends up.
    pub target: OutputTarget,
    /// The owned temp image written by this operation and still to be
    /// removed, if inline data was materialized.
    pub temp_image: Option<String>,
    /// Which report the operation waits on.
    pub phase: Phase,
}

/// Two operations agree on everything but phase and temp-image bookkeeping.
pub open spec fn same_config(pre: Operation, post: Operation) -> bool {
    &&& post.video_path@ == pre.video_path@
    &&& post.image_path@ == pre.image_path@
    &&& post.target.staging_path@ == pre.target.staging_path@
    &&& post.target.final_path@ == pre.target.final_path@
    &&& post.target.overwrite == pre.target.overwrite
}

/// Two mux outcomes carry the same verdict and the same texts.
pub open spec fn same_outcome(a: MuxOutcome, b: MuxOutcome) -> bool {
    match (a, b) {
        (MuxOutcome::SpawnFailed(x), MuxOutcome::SpawnFailed(y)) => x@ == y@,
        (
            MuxOutcome::Exited { success: sa, stderr: ea },
            MuxOutcome::Exited { success: sb, stderr: eb },
        ) => sa == sb && ea@ == eb@,
        _ => false,
    }
}

/// The engine's verdict on a mux outcome, taken once the owned temp image
/// (if any) has been removed: a spawn failure and a non-zero exit are handed
/// back as the spawn and mux errors, the latter carrying the tool's
/// standard-error text verbatim; a success either ends save-as-new mode with
/// its message or continues overwrite mode with the original's deletion.
pub open spec fn resolved(pre: Operation, outcome: MuxOutcome, post: Operation, a: Action) -> bool {
    &&& same_config(pre, post)
    &&& post.temp_image is None
    &&& match outcome {
        MuxOutcome::SpawnFailed(e) => (post.phase matches Phase::Finished) && (
        a matches Action::Finish { result } && result matches Err(ThumbError::SpawnError(m))
            && m@ == e@),
        MuxOutcome::Exited { success, stderr } => if !success {
            (post.phase matches Phase::Finished) && (a matches Action::Finish { result }
                && result matches Err(ThumbError::MuxError(m)) && m@ == stderr@)
        } else if pre.target.overwrite {
            (post.phase matches Phase::AwaitDelete) && (a matches Action::RemoveFile { path }
                && path@ == pre.video_path@)
        } else {
            (post.phase matches Phase::Finished) && (a matches Action::Finish { result }
                && result matches Ok(msg) && msg@ == new_file_success_message(
                pre.target.final_path@,
            ))
        },
    }
}

impl Operation {
    /// The engine's invariant: in overwrite mode the final path is the
    /// original video path and in save-as-new mode staging and final path
    /// coincide; an owned temp image is registered only up to the mux, so a
    /// finished operation never holds one.
    pub open spec fn wf(self) -> bool {
        &&& (self.target.overwrite ==> self.target.final_path@ == self.video_path@)
        &&& (!self.target.overwrite ==> self.target.staging_path@ == self.target.final_path@)
        &&& (self.temp_image is Some ==> (self.phase matches Phase::AwaitTempWrite
            || self.phase matches Phase::AwaitMux))
    }

    /// The label of the phase the operation currently waits on.
    pub fn phase_kind(&self) -> (k: PhaseKind)
        ensures
            (k == PhaseKind::AwaitTempWrite) == (self.phase matches Phase::AwaitTempWrite),
            (k == PhaseKind::AwaitMux) == (self.phase matches Phase::AwaitMux),
            (k == PhaseKind::AwaitCleanup) == (self.phase matches Phase::AwaitCleanup { .. }),
            (k == PhaseKind::AwaitDelete) == (self.phase matches Phase::AwaitDelete),
            (k == PhaseKind::AwaitRename) == (self.phase matches Phase::AwaitRename),
            (k == PhaseKind::Finished) == (self.phase matches Phase::Finished),
    {
        match &self.phase {
            Phase::AwaitTempWrite => PhaseKind::AwaitTempWrite,
            Phase::AwaitMux => PhaseKind::AwaitMux,
            Phase::AwaitCleanup { .. } => PhaseKind::AwaitCleanup,
            Phase::AwaitDelete => PhaseKind::AwaitDelete,
            Phase::AwaitRename => PhaseKind::AwaitRename,
            Phase::Finished => PhaseKind::Finished,
        }
    }

    /// Begins one invocation: decomposes the video path, plans the image,
    /// computes the output target, and hands back the first step.
    ///
    /// A missing source fails with the missing-source error and malformed
    /// inline data with the decode error, both before any outside work.
    /// Valid inline data first has its decoded bytes written to the owned
    /// temp image; a plain file path starts the mux at once.
    pub fn start(video_path: String, source: &ImageSource, mode: &SaveMode, temp_dir: &str) -> (r:
        Result<(Operation, Action), ThumbError>)
        ensures
            (match source {
                ImageSource::NoSource => r matches Err(ThumbError::MissingImageSource),
                ImageSource::FilePath(ip) => r matches Ok((op, a)) && {
                    &&& op.wf()
                    &&& op.video_path@ == video_path@
                    &&& op.image_path@ == ip@
                    &&& op.temp_image is None
                    &&& op.phase matches Phase::AwaitMux
                    &&& target_matches(op.target, video_path@, *mode)
                    &&& (a matches Action::RunMux { args } && args@.map_values(|s: String| s@)
                        == mux_args_spec(video_path@, ip@, op.target.staging_path@))
                },
                ImageSource::InlineData(d) => (match base64_decoding(payload_of(d@)) {
                    None => r matches Err(ThumbError::DecodeError(_)),
                    Some(decoded) => r matches Ok((op, a)) && {
                        &&& op.wf()
                        &&& op.video_path@ == video_path@
                        &&& op.image_path@ == temp_image_path(temp_dir@, stem_of(video_path@))
                        &&& (op.temp_image matches Some(t) && t@ == op.image_path@)
                        &&& op.phase matches Phase::AwaitTempWrite
                        &&& target_matches(op.target, video_path@, *mode)
                        &&& (a matches Action::WriteFile { path, bytes } && path@
                            == op.image_path@ && bytes@ == decoded)
                    },
                }),
            }),
    {
        let rp = resolve_paths(video_path.as_str());
        let plan = match plan_image(source, rp.stem.as_str(), temp_dir) {
            Ok(p) => p,
            Err(e) => {
                return Err(e);
            },
        };
        let target = output_target(&rp, video_path.as_str(), mode);
        match plan {
            ImagePlan::Existing { path } => {
                let args = mux_args(
                    video_path.as_str(),
                    path.as_str(),
                    target.staging_path.as_str(),
                );
                let op = Operation {
                    video_path,
                    image_path: path,
                    target,
                    temp_image: None,
                    phase: Phase::AwaitMux,
                };
                Ok((op, Action::RunMux { args }))
            },
            ImagePlan::WriteTemp { path, bytes } => {
                let op = Operation {
                    video_path,
                    image_path: path.clone(),
                    target,
                    temp_image: Some(path.clone()),
                    phase: Phase::AwaitTempWrite,
                };
                Ok((op, Action::WriteFile { path, bytes }))
            },
        }
    }

    /// Classifies the mux outcome and begins finalization; the owned temp
    /// image must already be off the books.
    fn resolve_outcome(&mut self, outcome: MuxOutcome) -> (a: Action)
        requires
            old(self).temp_image is None,
            old(self).wf(),
        ensures
            final(self).wf(),
            resolved(*old(self), outcome, *final(self), a),
    {
        match outcome {
            MuxOutcome::SpawnFailed(e) => {
                self.phase = Phase::Finished;
                Action::Finish { result: Err(ThumbError::SpawnError(e)) }
            },
            MuxOutcome::Exited { success, stderr } => {
                if !success {
                    self.phase = Phase::Finished;
                    Action::Finish { result: Err(ThumbError::MuxError(stderr)) }
                } else if self.target.overwrite {
                    self.phase = Phase::AwaitDelete;
                    Action::RemoveFile { path: self.video_path.clone() }
                } else {
                    self.phase = Phase::Finished;
                    let msg = new_file_success(self.target.final_path.as_str());
                    Action::Finish { result: Ok(msg) }
                }
            },
        }
    }

    /// The caller reports the temp-image write's result.  Success starts the
    /// mux; failure ends the operation with the temp-write error, nothing
    /// having reached the disk to clean up.
    pub fn temp_written(&mut self, io: Result<(), String>) -> (a: Action)
        requires
            old(self).phase matches Phase::AwaitTempWrite,
            old(self).wf(),
        ensures
            final(self).wf(),
            same_config(*old(self), *final(self)),
            (match io {
                Ok(_) => {
                    &&& final(self).phase matches Phase::AwaitMux
                    &&& final(self).temp_image == old(self).temp_image
                    &&& (a matches Action::RunMux { args } && args@.map_values(|s: String| s@)
                        == mux_args_spec(
                        old(self).video_path@,
                        old(self).image_path@,
                        old(self).target.staging_path@,
                    ))
                },
                Err(m) => {
                    &&& final(self).phase matches Phase::Finished
                    &&& final(self).temp_image is None
                    &&& (a matches Action::Finish { result } && result matches Err(
                        ThumbError::TempWriteError(mm),
                    ) && mm@ == m@)
                },
            }),
    {
        match io {
            Ok(_) => {
                let args = mux_args(
                    self.video_path.as_str(),
                    self.image_path.as_str(),
                    self.target.staging_path.as_str(),
                );
                self.phase = Phase::AwaitMux;
                Action::RunMux { args }
            },
            Err(m) => {
                self.phase = Phase::Finished;
                self.temp_image = None;
                Action::Finish { result: Err(ThumbError::TempWriteError(m)) }
            },
        }
    }

    /// The caller reports how the mux process ended.  If an owned temp image
    /// was written, its removal is ordered first, whatever the outcome; only
    /// then is the outcome classified.
    pub fn mux_finished(&mut self, outcome: MuxOutcome) -> (a: Action)
        requires
            old(self).phase matches Phase::AwaitMux,
            old(self).wf(),
        ensures
            final(self).wf(),
            (match old(self).temp_image {
                Some(t) => {
                    &&& same_config(*old(self), *final(self))
                    &&& final(self).temp_image is None
                    &&& (final(self).phase matches Phase::AwaitCleanup { outcome: held }
                        && same_outcome(held, outcome))
                    &&& (a matches Action::RemoveFile { path } && path@ == t@)
                },
                None => resolved(*old(self), outcome, *final(self), a),
            }),
    {
        let held = self.temp_image.take();
        match held {
            Some(t) => {
                self.phase = Phase::AwaitCleanup { outcome };
                Action::RemoveFile { path: t }
            },
            None => self.resolve_outcome(outcome),
        }
    }

    /// The caller reports that the owned temp image's removal was attempted.
    /// Its result is deliberately ignored — the removal is best-effort — and
    /// the held mux outcome is classified now.
    pub fn cleanup_done(&mut self) -> (a: Action)
        requires
            old(self).phase matches Phase::AwaitCleanup { .. },
            old(self).wf(),
        ensures
            final(self).wf(),
            (old(self).phase matches Phase::AwaitCleanup { outcome } ==> resolved(
                *old(self),
                outcome,
                *final(self),
                a,
            )),
    {
        let mut ph = Phase::Finished;
        core::mem::swap(&mut ph, &mut self.phase);
        match ph {
            Phase::AwaitCleanup { outcome } => self.resolve_outcome(outcome),
            // unreachable: the phase was AwaitCleanup on entry
            _ => {
                proof {
                    assert(false);
                }
                Action::Finish { result: Err(ThumbError::MissingImageSource) }
            },
        }
    }

    /// The caller reports the original file's deletion (overwrite mode).
    /// Success continues with the rename of the staging file; failure ends
    /// the operation with the delete error — the original may already be
    /// gone with no replacement in place, the known non-atomic window.
    pub fn original_deleted(&mut self, io: Result<(), String>) -> (a: Action)
        requires
            old(self).phase matches Phase::AwaitDelete,
            old(self).wf(),
        ensures
            final(self).wf(),
            same_config(*old(self), *final(self)),
            final(self).temp_image is None,
            (match io {
                Ok(_) => (final(self).phase matches Phase::AwaitRename) && (
                a matches Action::RenameFile { from, to } && from@ == old(
                    self,
                ).target.staging_path@ && to@ == old(self).target.final_path@),
                Err(m) => (final(self).phase matches Phase::Finished) && (
                a matches Action::Finish { result } && result matches Err(
                    ThumbError::DeleteOriginalError(mm),
                ) && mm@ == m@),
            }),
    {
        match io {
            Ok(_) => {
                self.phase = Phase::AwaitRename;
                Action::RenameFile {
                    from: self.target.staging_path.clone(),
                    to: self.target.final_path.clone(),
                }
            },
            Err(m) => {
                self.phase = Phase::Finished;
                Action::Finish { result: Err(ThumbError::DeleteOriginalError(m)) }
            },
        }
    }

    /// The caller reports the rename of the staging file over the original
    /// (overwrite mode).  Success ends the operation with the overwrite
    /// message naming the updated original; failure ends it with the rename
    /// error.
    pub fn renamed(&mut self, io: Result<(), String>) -> (a: Action)
        requires
            old(self).phase matches Phase::AwaitRename,
            old(self).wf(),
        ensures
            final(self).wf(),
            same_config(*old(self), *final(self)),
            final(self).phase matches Phase::Finished,
            final(self).temp_image is None,
            (match io {
                Ok(_) => (a matches Action::Finish { result } && result matches Ok(msg) && msg@
                    == overwrite_success_message(old(self).video_path@)),
                Err(m) => (a matches Action::Finish { result } && result matches Err(
                    ThumbError::RenameError(mm),
                ) && mm@ == m@),
            }),
    {
        match io {
            Ok(_) => {
                self.phase = Phase::Finished;
                let msg = overwrite_success(self.video_path.as_str());
                Action::Finish { result: Ok(msg) }
            },
            Err(m) => {
                self.phase = Phase::Finished;
                Action::Finish { result: Err(ThumbError::RenameError(m)) }
            },
        }
    }
}

/// A mux that failed — spawn failure or non-zero exit — never begins
/// finalization: the engine finishes at once with the classified error, and
/// the one action it hands out is the verdict itself, so no deletion and no
/// rename ever reaches the original video on a failure path.
pub proof fn lemma_failed_mux_orders_no_file_action(
    pre: Operation,
    outcome: MuxOutcome,
    post: Operation,
    a: Action,
)
    requires
        resolved(pre, outcome, post, a),
        (match outcome {
            MuxOutcome::SpawnFailed(_) => true,
            MuxOutcome::Exited { success, .. } => !success,
        }),
    ensures
        post.phase matches Phase::Finished,
        a matches Action::Finish { .. },
        !(a matches Action::RemoveFile { .. }),
        !(a matches Action::RenameFile { .. }),
        !(a matches Action::WriteFile { .. }),
{
}

/// Once an operation has finished, no owned temp image remains registered:
/// the engine orders its removal the moment the mux outcome arrives, before
/// any verdict is handed back, on the success and on every failure path.
pub proof fn lemma_finished_leaves_no_temp(op: Operation)
    requires
        op.wf(),
        op.phase matches Phase::Finished,
    ensures
        op.temp_image is None,
{
}

} // verus!
