//! Pipeline orchestrator: stage sequencing, the silence gate, skip paths,
//! fallbacks and error handling.

use mofa_ime::inject::InjectionError;
use mofa_ime::pipeline::audio_is_silent;
use mofa_ime::pipeline::PipelineAction;
use mofa_ime::pipeline::PipelineEvent;
use mofa_ime::pipeline::Session;
use mofa_ime::pipeline::Stage;
use mofa_ime::refine::build_refine_prompt;

#[test]
fn silence_gate_thresholds() {
    // Empty audio is silence.
    assert!(audio_is_silent(&vec![]));
    assert!(audio_is_silent(&vec![0, 0, 0]));
    // One sample right at the threshold is not below it.
    assert!(!audio_is_silent(&vec![1500]));
    assert!(audio_is_silent(&vec![1499]));
    // Loud audio is not silence.
    assert!(!audio_is_silent(&vec![500000, -400000, 300000]));
}

#[test]
fn silent_capture_goes_straight_back_to_idle() {
    let mut s = Session::new(true);
    assert_eq!(s.step(PipelineEvent::CaptureStarted), PipelineAction::NoAction);
    assert_eq!(s.stage(), Stage::Recording);
    let action = s.step(PipelineEvent::CaptureStopped { silent: true });
    // No transcription and no refinement is started.
    assert_eq!(action, PipelineAction::NoAction);
    assert_eq!(s.stage(), Stage::Idle);
}

#[test]
fn full_session_with_refinement() {
    let mut s = Session::new(true);
    s.step(PipelineEvent::CaptureStarted);
    let action = s.step(PipelineEvent::CaptureStopped { silent: false });
    assert_eq!(action, PipelineAction::StartTranscription);
    assert_eq!(s.stage(), Stage::Transcribing);

    let action = s.step(PipelineEvent::TranscriptionDone("你好  世界".to_string()));
    assert_eq!(s.stage(), Stage::Refining);
    // The prompt wraps the normalized transcript.
    assert_eq!(action, PipelineAction::StartRefinement(build_refine_prompt("你好 世界")));

    let action = s.step(PipelineEvent::RefinementDone("你好世界。".to_string()));
    assert_eq!(s.stage(), Stage::Injecting);
    // The raw text had no terminal period, so the added one is stripped.
    assert_eq!(action, PipelineAction::StartInjection("你好世界".to_string()));

    let action = s.step(PipelineEvent::InjectionSucceeded);
    assert_eq!(action, PipelineAction::RecordHistory("你好世界".to_string()));
    assert_eq!(s.stage(), Stage::Idle);
}

#[test]
fn english_transcript_skips_refinement() {
    let mut s = Session::new(true);
    s.step(PipelineEvent::CaptureStarted);
    s.step(PipelineEvent::CaptureStopped { silent: false });
    let text = "this is a long english sentence";
    let action = s.step(PipelineEvent::TranscriptionDone(text.to_string()));
    assert_eq!(s.stage(), Stage::Injecting);
    assert_eq!(action, PipelineAction::StartInjection(text.to_string()));
}

#[test]
fn short_english_transcript_is_refined() {
    let mut s = Session::new(true);
    s.step(PipelineEvent::CaptureStarted);
    s.step(PipelineEvent::CaptureStopped { silent: false });
    // 15 ASCII letters: below the skip floor, so it is sent to the model.
    let action = s.step(PipelineEvent::TranscriptionDone("abcdefghijklmno".to_string()));
    assert_eq!(s.stage(), Stage::Refining);
    assert_eq!(action, PipelineAction::StartRefinement(build_refine_prompt("abcdefghijklmno")));
}

#[test]
fn missing_model_skips_refinement_without_error() {
    let mut s = Session::new(false);
    s.step(PipelineEvent::CaptureStarted);
    s.step(PipelineEvent::CaptureStopped { silent: false });
    let action = s.step(PipelineEvent::TranscriptionDone("帮我写一下".to_string()));
    assert_eq!(s.stage(), Stage::Injecting);
    assert_eq!(action, PipelineAction::StartInjection("帮我写一下".to_string()));
}

#[test]
fn refinement_failure_falls_back_to_raw() {
    let mut s = Session::new(true);
    s.step(PipelineEvent::CaptureStarted);
    s.step(PipelineEvent::CaptureStopped { silent: false });
    s.step(PipelineEvent::TranscriptionDone("帮我写一下".to_string()));
    assert_eq!(s.stage(), Stage::Refining);
    let action = s.step(PipelineEvent::RefinementFailed);
    // Recovered, not surfaced: injection proceeds with the raw transcript.
    assert_eq!(s.stage(), Stage::Injecting);
    assert_eq!(action, PipelineAction::StartInjection("帮我写一下".to_string()));
}

#[test]
fn transcription_failure_reaches_the_error_stage() {
    let mut s = Session::new(true);
    s.step(PipelineEvent::CaptureStarted);
    s.step(PipelineEvent::CaptureStopped { silent: false });
    let action = s.step(PipelineEvent::TranscriptionFailed("引擎崩溃".to_string()));
    assert_eq!(action, PipelineAction::NoAction);
    assert_eq!(s.stage(), Stage::Error);
    assert_eq!(s.error_message(), Some("引擎崩溃".to_string()));
    let action = s.step(PipelineEvent::ErrorAcknowledged);
    assert_eq!(action, PipelineAction::NoAction);
    assert_eq!(s.stage(), Stage::Idle);
}

#[test]
fn injection_failure_carries_the_error_message() {
    let mut s = Session::new(true);
    s.step(PipelineEvent::CaptureStarted);
    s.step(PipelineEvent::CaptureStopped { silent: false });
    s.step(PipelineEvent::TranscriptionDone("帮我写一下".to_string()));
    s.step(PipelineEvent::RefinementFailed);
    assert_eq!(s.stage(), Stage::Injecting);
    s.step(PipelineEvent::InjectionFailed(InjectionError::DeliveryFailure));
    assert_eq!(s.stage(), Stage::Error);
    assert_eq!(s.error_message(), Some("剪贴板粘贴失败".to_string()));
}

#[test]
fn capture_start_mid_session_is_rejected() {
    let mut s = Session::new(true);
    s.step(PipelineEvent::CaptureStarted);
    assert_eq!(s.stage(), Stage::Recording);
    // A second capture gesture while a session is active changes nothing.
    let action = s.step(PipelineEvent::CaptureStarted);
    assert_eq!(action, PipelineAction::NoAction);
    assert_eq!(s.stage(), Stage::Recording);
}

#[test]
fn unexpected_events_change_nothing() {
    let mut s = Session::new(true);
    let action = s.step(PipelineEvent::InjectionSucceeded);
    assert_eq!(action, PipelineAction::NoAction);
    assert_eq!(s.stage(), Stage::Idle);
    let action = s.step(PipelineEvent::RefinementDone("x".to_string()));
    assert_eq!(action, PipelineAction::NoAction);
    assert_eq!(s.stage(), Stage::Idle);
}
