//! Injection engine: blank no-op, permission gate, delivery sequence,
//! retry policy.

use mofa_ime::inject::begin_injection;
use mofa_ime::inject::delivery_steps;
use mofa_ime::inject::injection_outcome;
use mofa_ime::inject::next_after_attempt;
use mofa_ime::inject::paste_chord_events;
use mofa_ime::inject::AttemptOutcome;
use mofa_ime::inject::DeliveryStep;
use mofa_ime::inject::InjectStart;
use mofa_ime::inject::InjectionError;
use mofa_ime::inject::CLIPBOARD_CLEAR_SETTLE_MS;
use mofa_ime::inject::CLIPBOARD_WRITE_SETTLE_MS;
use mofa_ime::inject::KEY_CODE_COMMAND;
use mofa_ime::inject::KEY_CODE_V;
use mofa_ime::inject::PASTE_SETTLE_MS;

#[test]
fn blank_text_is_a_no_op_success() {
    let report = injection_outcome("   \t", true, &vec![false, false]);
    assert!(report.outcome.is_ok());
    assert_eq!(report.attempts_used, 0);
    assert_eq!(report.backoff_sleeps, 0);
    // Blank text skips even before the permission check.
    let report = injection_outcome("", false, &vec![false, false]);
    assert!(report.outcome.is_ok());
    assert_eq!(report.attempts_used, 0);
}

#[test]
fn permission_is_checked_before_any_clipboard_mutation() {
    assert_eq!(begin_injection("hello", false), InjectStart::Denied);
    let report = injection_outcome("hello", false, &vec![true, true]);
    assert_eq!(report.outcome, Err(InjectionError::PermissionDenied));
    assert_eq!(report.attempts_used, 0);
    assert_eq!(report.backoff_sleeps, 0);
}

#[test]
fn first_attempt_success() {
    assert_eq!(begin_injection("hello", true), InjectStart::Deliver);
    let report = injection_outcome("hello", true, &vec![true, false]);
    assert!(report.outcome.is_ok());
    assert_eq!(report.attempts_used, 1);
    assert_eq!(report.backoff_sleeps, 0);
}

#[test]
fn second_attempt_success_after_one_backoff() {
    let report = injection_outcome("hello", true, &vec![false, true]);
    assert!(report.outcome.is_ok());
    assert_eq!(report.attempts_used, 2);
    assert_eq!(report.backoff_sleeps, 1);
}

#[test]
fn two_failures_exhaust_the_retries() {
    let report = injection_outcome("hello", true, &vec![false, false]);
    assert_eq!(report.outcome, Err(InjectionError::DeliveryFailure));
    assert_eq!(report.attempts_used, 2);
    assert_eq!(report.backoff_sleeps, 1);
}

#[test]
fn retry_decisions() {
    assert_eq!(next_after_attempt(1, true), AttemptOutcome::Success);
    assert_eq!(next_after_attempt(1, false), AttemptOutcome::RetryAfterBackoff);
    assert_eq!(next_after_attempt(2, true), AttemptOutcome::Success);
    assert_eq!(next_after_attempt(2, false), AttemptOutcome::Failed);
}

#[test]
fn delivery_sequence_order() {
    let steps = delivery_steps("text");
    assert_eq!(steps.len(), 9);
    assert_eq!(steps[0], DeliveryStep::ClearClipboard);
    assert_eq!(steps[1], DeliveryStep::Sleep(CLIPBOARD_CLEAR_SETTLE_MS));
    assert_eq!(steps[2], DeliveryStep::WriteClipboard("text".to_string()));
    assert_eq!(steps[3], DeliveryStep::Sleep(CLIPBOARD_WRITE_SETTLE_MS));
    for i in 0..4 {
        assert!(matches!(steps[4 + i], DeliveryStep::PostKeyEvent(_)));
    }
    assert_eq!(steps[8], DeliveryStep::Sleep(PASTE_SETTLE_MS));
}

#[test]
fn paste_chord_order() {
    let chord = paste_chord_events();
    assert_eq!(chord.len(), 4);
    assert_eq!(chord[0].key, KEY_CODE_COMMAND);
    assert!(chord[0].down);
    assert!(!chord[0].command_flag);
    assert_eq!(chord[1].key, KEY_CODE_V);
    assert!(chord[1].down);
    assert!(chord[1].command_flag);
    assert_eq!(chord[2].key, KEY_CODE_V);
    assert!(!chord[2].down);
    assert!(chord[2].command_flag);
    assert_eq!(chord[3].key, KEY_CODE_COMMAND);
    assert!(!chord[3].down);
    assert!(!chord[3].command_flag);
}

#[test]
fn error_messages() {
    assert_eq!(
        InjectionError::PermissionDenied.message(),
        "未授予辅助功能权限，请在 系统设置 -> 隐私与安全性 -> 辅助功能 中允许 MoFA IME"
    );
    assert_eq!(InjectionError::DeliveryFailure.message(), "剪贴板粘贴失败");
}
