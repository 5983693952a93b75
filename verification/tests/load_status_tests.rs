use ort_genai::load_status::LoadStage;

#[test]
fn stages_follow_the_progress_reports() {
    assert_eq!(LoadStage::from_progress(false, false), LoadStage::DownloadingProviders);
    assert_eq!(LoadStage::from_progress(true, false), LoadStage::DownloadingModel);
    assert_eq!(LoadStage::from_progress(true, true), LoadStage::Ready);
    assert_eq!(LoadStage::from_progress(false, true), LoadStage::Ready);
}

#[test]
fn stage_texts() {
    assert_eq!(LoadStage::DownloadingProviders.label(), "Downloading execution providers");
    assert_eq!(LoadStage::DownloadingModel.label(), "Downloading model");
    assert_eq!(LoadStage::Ready.label(), "Model ready to be used");
    assert!(LoadStage::DownloadingProviders.shows_progress());
    assert!(LoadStage::DownloadingModel.shows_progress());
    assert!(!LoadStage::Ready.shows_progress());
}
