//! The values the transcription commands hand to the user interface.
use vstd::prelude::*;
use vstd::string::*;
use crate::manager::{model_recorded_iff_loaded, opt_view, TranscriptionManager};

verus! {

/// Whether a model is loaded, and which.
pub struct ModelLoadStatus {
    pub is_loaded: bool,
    pub current_model: Option<String>,
}

impl ModelLoadStatus {
    /// The load status of a manager.
    pub fn of<E, C>(manager: &TranscriptionManager<E, C>) -> (r: Self)
        ensures
            r.is_loaded == manager@.loaded,
            opt_view(r.current_model) == manager@.current_model,
            model_recorded_iff_loaded(manager@) ==> (r.is_loaded == r.current_model is Some),
    {
        ModelLoadStatus {
            is_loaded: manager.is_model_loaded(),
            current_model: manager.get_current_model(),
        }
    }
}

/// The outcome of a file transcription: the final text, the raw engine
/// text, the post-processed text if any, and the history entry saved.
pub struct FileTranscriptionResult<H> {
    pub text: String,
    pub raw_text: String,
    pub post_processed_text: Option<String>,
    pub history_entry: Option<H>,
}

/// A stage of file transcription shown to the user.
#[derive(Clone, Copy, PartialEq, Eq, Debug)]
pub enum ProgressStage {
    LoadingModel,
    Transcribing,
    PostProcessing,
    Complete,
}

/// The name under which a stage is reported.
pub open spec fn stage_name(stage: ProgressStage) -> Seq<char> {
    match stage {
        ProgressStage::LoadingModel => "loading_model"@,
        ProgressStage::Transcribing => "transcribing"@,
        ProgressStage::PostProcessing => "post_processing"@,
        ProgressStage::Complete => "complete"@,
    }
}

/// A progress event of file transcription.
pub struct FileTranscriptionProgressEvent {
    pub stage: String,
    pub text: Option<String>,
    pub progress: Option<i32>,
}

impl FileTranscriptionProgressEvent {
    /// The event for a stage, with the text and percentage known so far.
    pub fn new(stage: ProgressStage, text: Option<String>, progress: Option<i32>) -> (r: Self)
        ensures
            r.stage@ == stage_name(stage),
            r.text == text,
            r.progress == progress,
    {
        let name = match stage {
            ProgressStage::LoadingModel => "loading_model",
            ProgressStage::Transcribing => "transcribing",
            ProgressStage::PostProcessing => "post_processing",
            ProgressStage::Complete => "complete",
        };
        FileTranscriptionProgressEvent { stage: String::from_str(name), text, progress }
    }
}

} // verus!
