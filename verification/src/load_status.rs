//! What the chat window shows while the model is being prepared.
use vstd::prelude::*;

verus! {

/// The stage the model preparation has reached.
#[derive(Debug, Clone, Copy, PartialEq, Eq, Structural)]
pub enum LoadStage {
    /// Execution providers are still being downloaded.
    DownloadingProviders,
    /// The providers are in place; the model is still being downloaded.
    DownloadingModel,
    /// Everything is downloaded and the model can be used.
    Ready,
}

/// The stage shown, given which progress reports have ended: the model's report
/// ends last, so its end means the model is ready; the end of the providers'
/// report alone means the model is downloading.
pub open spec fn stage_of(providers_done: bool, model_done: bool) -> LoadStage {
    if model_done {
        LoadStage::Ready
    } else if providers_done {
        LoadStage::DownloadingModel
    } else {
        LoadStage::DownloadingProviders
    }
}

impl LoadStage {
    /// Decides the stage from which progress reports have ended.
    pub fn from_progress(providers_done: bool, model_done: bool) -> (s: LoadStage)
        ensures
            s == stage_of(providers_done, model_done),
    {
        if model_done {
            LoadStage::Ready
        } else if providers_done {
            LoadStage::DownloadingModel
        } else {
            LoadStage::DownloadingProviders
        }
    }

    /// The text shown for the stage.
    pub fn label(self) -> (s: &'static str)
        ensures
            s@ == match self {
                LoadStage::DownloadingProviders => "Downloading execution providers"@,
                LoadStage::DownloadingModel => "Downloading model"@,
                LoadStage::Ready => "Model ready to be used"@,
            },
    {
        match self {
            LoadStage::DownloadingProviders => "Downloading execution providers",
            LoadStage::DownloadingModel => "Downloading model",
            LoadStage::Ready => "Model ready to be used",
        }
    }

    /// Whether a progress bar is shown beside the text: only while downloading.
    pub fn shows_progress(self) -> (b: bool)
        ensures
            b <==> self != LoadStage::Ready,
    {
        match self {
            LoadStage::Ready => false,
            _ => true,
        }
    }
}

/// The window reports the model ready exactly when the model's progress report
/// has ended, and shows a progress bar in every other stage.
pub proof fn lemma_ready_exactly_when_model_done(providers_done: bool, model_done: bool)
    ensures
        (stage_of(providers_done, model_done) == LoadStage::Ready) <==> model_done,
{
}

/// Before the model's report ends, the window shows the model downloading once the
/// providers' report has ended, and the providers downloading until then.
pub proof fn lemma_download_stage_follows_providers(providers_done: bool, model_done: bool)
    ensures
        (stage_of(providers_done, model_done) == LoadStage::DownloadingModel) <==> (providers_done
            && !model_done),
        (stage_of(providers_done, model_done) == LoadStage::DownloadingProviders) <==> (!providers_done
            && !model_done),
{
}

} // verus!
