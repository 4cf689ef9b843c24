use vstd::prelude::*;
use crate::lifecycle::JobEvent;
use crate::retry::ErrorClass;

verus! {

/// Where a multipart upload stands.
pub enum UploadStage {
    /// The upload is being opened.
    Opening,
    /// The source buffer is being written to the upload.
    Writing,
    /// The written data is being flushed.
    Flushing,
    /// The upload is being finalized.
    ShuttingDown,
    /// The upload is being aborted after the failure described by the message.
    Aborting(String),
    /// The upload is over, with this outcome.
    Done(Result<(), String>),
}

/// The next operation on a multipart upload.
pub enum UploadAction {
    Write,
    Flush,
    Shutdown,
    /// Abort the upload so that no partial object stays behind.
    Abort,
    /// Surface this outcome.
    Finish(Result<(), String>),
    /// Nothing: the upload is already over.
    Ignore,
}

/// The decisions of a multipart upload: each operation's outcome leads to the
/// next operation, and a failed write or flush leads to an abort before the
/// failure is surfaced.
pub struct MultipartUpload {
    pub stage: UploadStage,
    /// Whether the upload was opened.
    pub opened: bool,
}

pub open spec fn upload_next(stage: UploadStage, outcome: Result<(), String>) -> (UploadStage, UploadAction) {
    match stage {
        UploadStage::Opening => match outcome {
            Ok(()) => (UploadStage::Writing, UploadAction::Write),
            Err(m) => (UploadStage::Done(Err(m)), UploadAction::Finish(Err(m))),
        },
        UploadStage::Writing => match outcome {
            Ok(()) => (UploadStage::Flushing, UploadAction::Flush),
            Err(m) => (UploadStage::Aborting(m), UploadAction::Abort),
        },
        UploadStage::Flushing => match outcome {
            Ok(()) => (UploadStage::ShuttingDown, UploadAction::Shutdown),
            Err(m) => (UploadStage::Aborting(m), UploadAction::Abort),
        },
        UploadStage::ShuttingDown => match outcome {
            Ok(()) => (UploadStage::Done(Ok(())), UploadAction::Finish(Ok(()))),
            Err(m) => (UploadStage::Done(Err(m)), UploadAction::Finish(Err(m))),
        },
        UploadStage::Aborting(m) => (UploadStage::Done(Err(m)), UploadAction::Finish(Err(m))),
        UploadStage::Done(r) => (UploadStage::Done(r), UploadAction::Ignore),
    }
}

impl MultipartUpload {
    /// An upload about to be opened.
    pub fn new() -> (r: MultipartUpload)
        ensures
            r.stage == UploadStage::Opening,
            !r.opened,
    {
        MultipartUpload { stage: UploadStage::Opening, opened: false }
    }

    /// Takes the outcome of the last operation and gives the next one. The
    /// outcome of an abort is not surfaced: the failure that caused it is.
    pub fn step(&mut self, outcome: Result<(), String>) -> (r: UploadAction)
        ensures
            (final(self).stage, r) == upload_next(old(self).stage, outcome),
            final(self).opened == (old(self).opened || (old(self).stage is Opening && outcome is Ok)),
    {
        if outcome.is_ok() {
            if let UploadStage::Opening = self.stage {
                self.opened = true;
            }
        }
        let (next, action) = match &self.stage {
            UploadStage::Opening => match outcome {
                Ok(()) => (UploadStage::Writing, UploadAction::Write),
                Err(m) => (UploadStage::Done(Err(m.clone())), UploadAction::Finish(Err(m))),
            },
            UploadStage::Writing => match outcome {
                Ok(()) => (UploadStage::Flushing, UploadAction::Flush),
                Err(m) => (UploadStage::Aborting(m), UploadAction::Abort),
            },
            UploadStage::Flushing => match outcome {
                Ok(()) => (UploadStage::ShuttingDown, UploadAction::Shutdown),
                Err(m) => (UploadStage::Aborting(m), UploadAction::Abort),
            },
            UploadStage::ShuttingDown => match outcome {
                Ok(()) => (UploadStage::Done(Ok(())), UploadAction::Finish(Ok(()))),
                Err(m) => (UploadStage::Done(Err(m.clone())), UploadAction::Finish(Err(m))),
            },
            UploadStage::Aborting(m) => (UploadStage::Done(Err(m.clone())), UploadAction::Finish(Err(m.clone()))),
            UploadStage::Done(_) => {
                return UploadAction::Ignore;
            },
        };
        self.stage = next;
        action
    }
}

impl MultipartUpload {
    /// The event that ends a PUT of `len` bytes through this upload, given
    /// the outcome it surfaced. A failure to open the upload keeps the class
    /// that the store gave it; once the upload is open, a failure to write,
    /// flush or finalize it is a transport failure, which may pass.
    pub fn finish_event(&self, result: Result<(), String>, open_class: ErrorClass, len: usize) -> (r: JobEvent)
        ensures
            match result {
                Ok(()) => r == JobEvent::TransferSucceeded(len),
                Err(m) => r == JobEvent::TransferFailed(
                    if self.opened { ErrorClass::Transient } else { open_class },
                    m,
                ),
            },
    {
        match result {
            Ok(()) => JobEvent::TransferSucceeded(len),
            Err(m) => {
                let class = if self.opened {
                    ErrorClass::Transient
                } else {
                    open_class
                };
                JobEvent::TransferFailed(class, m)
            },
        }
    }
}

/// The stage of an upload after the outcomes `outcomes`, from its opening.
pub open spec fn upload_stage_after(outcomes: Seq<Result<(), String>>) -> UploadStage
    decreases outcomes.len(),
{
    if outcomes.len() == 0 {
        UploadStage::Opening
    } else {
        upload_next(upload_stage_after(outcomes.drop_last()), outcomes.last()).0
    }
}

/// The action that the `i`-th outcome leads to.
pub open spec fn upload_action_at(outcomes: Seq<Result<(), String>>, i: int) -> UploadAction {
    upload_next(upload_stage_after(outcomes.take(i)), outcomes[i]).1
}

/// Whatever the outcomes of an upload's operations, a failed write or flush
/// is answered by an abort, and the step after the abort surfaces that
/// failure, whatever the abort's own outcome.
pub proof fn lemma_failed_write_is_aborted(outcomes: Seq<Result<(), String>>, i: int)
    requires
        0 <= i < outcomes.len(),
        upload_stage_after(outcomes.take(i)) is Writing || upload_stage_after(outcomes.take(i)) is Flushing,
        outcomes[i] is Err,
    ensures
        upload_action_at(outcomes, i) is Abort,
        i + 1 < outcomes.len() ==> upload_action_at(outcomes, i + 1) == UploadAction::Finish(
            Err(outcomes[i]->Err_0),
        ),
{
    if i + 1 < outcomes.len() {
        assert(outcomes.take(i + 1).drop_last() =~= outcomes.take(i));
        assert(outcomes.take(i + 1).last() == outcomes[i]);
    }
}

} // verus!
