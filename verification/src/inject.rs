//! Injection engine decisions: the permission gate, the blank-text no-op,
//! the exact clipboard-and-paste delivery sequence with its settle delays,
//! and the bounded retry policy with one backoff between attempts.
//!
//! The engine never snapshots or restores the previous clipboard contents:
//! doing so could clobber something the user copies while delivery is in
//! flight. That is a deliberate trade-off, not an oversight.

use vstd::prelude::*;

use crate::chars::is_blank;
use crate::chars::str_is_blank;

verus! {

/// The delivery sequence is attempted at most this many times.
pub const MAX_DELIVERY_ATTEMPTS: usize = 2;

/// Wait after clearing the clipboard, so the clear propagates.
pub const CLIPBOARD_CLEAR_SETTLE_MS: u64 = 20;

/// Wait after writing the clipboard, so the paste sees the new text.
pub const CLIPBOARD_WRITE_SETTLE_MS: u64 = 30;

/// Wait after the paste chord, for slow target applications such as
/// terminal emulators.
pub const PASTE_SETTLE_MS: u64 = 350;

/// Sleep between a failed delivery attempt and the next one.
pub const RETRY_BACKOFF_MS: u64 = 90;

/// Key code of the V key.
pub const KEY_CODE_V: u16 = 0x09;

/// Key code of the command modifier.
pub const KEY_CODE_COMMAND: u16 = 0x37;

/// One synthetic keyboard event, posted at the system event level.
#[derive(Clone, Copy, Debug, PartialEq, Eq, Structural)]
pub struct KeyEvent {
    /// Hardware key code.
    pub key: u16,
    /// Key pressed (`true`) or released (`false`).
    pub down: bool,
    /// Whether the command-modifier flag is set on the event.
    pub command_flag: bool,
}

/// The paste chord: command down, V down and up with the command flag set,
/// command up.
pub open spec fn paste_chord() -> Seq<KeyEvent> {
    seq![
        KeyEvent { key: KEY_CODE_COMMAND, down: true, command_flag: false },
        KeyEvent { key: KEY_CODE_V, down: true, command_flag: true },
        KeyEvent { key: KEY_CODE_V, down: false, command_flag: true },
        KeyEvent { key: KEY_CODE_COMMAND, down: false, command_flag: false },
    ]
}

/// The ordered key events of one synthetic paste.
pub fn paste_chord_events() -> (r: Vec<KeyEvent>)
    ensures
        r@ == paste_chord(),
{
    let mut r: Vec<KeyEvent> = Vec::new();
    r.push(KeyEvent { key: KEY_CODE_COMMAND, down: true, command_flag: false });
    r.push(KeyEvent { key: KEY_CODE_V, down: true, command_flag: true });
    r.push(KeyEvent { key: KEY_CODE_V, down: false, command_flag: true });
    r.push(KeyEvent { key: KEY_CODE_COMMAND, down: false, command_flag: false });
    proof {
        assert(r@ =~= paste_chord());
    }
    r
}

/// One step of the delivery sequence, to be performed against the OS.
#[derive(Clone, Debug, PartialEq, Eq)]
pub enum DeliveryStep {
    /// Clear the system clipboard.
    ClearClipboard,
    /// Wait this many milliseconds.
    Sleep(u64),
    /// Write this text as the clipboard's textual payload.
    WriteClipboard(String),
    /// Post this synthetic keyboard event.
    PostKeyEvent(KeyEvent),
}

/// The full delivery sequence for one attempt: clear the clipboard, wait,
/// write the text, wait, post the paste chord, wait for slow targets. The
/// previous clipboard contents are deliberately not saved or restored.
pub fn delivery_steps(text: &str) -> (r: Vec<DeliveryStep>)
    ensures
        r@.len() == 9,
        r@[0] is ClearClipboard,
        r@[1] == DeliveryStep::Sleep(CLIPBOARD_CLEAR_SETTLE_MS),
        r@[2] matches DeliveryStep::WriteClipboard(s) && s@ == text@,
        r@[3] == DeliveryStep::Sleep(CLIPBOARD_WRITE_SETTLE_MS),
        forall|i: int|
            0 <= i < 4 ==> r@[4 + i] == DeliveryStep::PostKeyEvent(paste_chord()[i]),
        r@[8] == DeliveryStep::Sleep(PASTE_SETTLE_MS),
{
    let mut r: Vec<DeliveryStep> = Vec::new();
    r.push(DeliveryStep::ClearClipboard);
    r.push(DeliveryStep::Sleep(CLIPBOARD_CLEAR_SETTLE_MS));
    r.push(DeliveryStep::WriteClipboard(text.to_owned()));
    r.push(DeliveryStep::Sleep(CLIPBOARD_WRITE_SETTLE_MS));
    let chord = paste_chord_events();
    let mut i: usize = 0;
    while i < 4
        invariant
            chord@ == paste_chord(),
            i <= 4,
            r@.len() == 4 + i,
            r@[0] is ClearClipboard,
            r@[1] == DeliveryStep::Sleep(CLIPBOARD_CLEAR_SETTLE_MS),
            r@[2] matches DeliveryStep::WriteClipboard(s) && s@ == text@,
            r@[3] == DeliveryStep::Sleep(CLIPBOARD_WRITE_SETTLE_MS),
            forall|k: int|
                0 <= k < i ==> r@[4 + k] == DeliveryStep::PostKeyEvent(paste_chord()[k]),
        decreases 4 - i,
    {
        r.push(DeliveryStep::PostKeyEvent(chord[i]));
        i = i + 1;
    }
    r.push(DeliveryStep::Sleep(PASTE_SETTLE_MS));
    r
}

/// Why an injection failed.
#[derive(Clone, Copy, Debug, PartialEq, Eq, Structural)]
pub enum InjectionError {
    /// The assistive permission has not been granted; the user must grant
    /// it in the system settings.
    PermissionDenied,
    /// The delivery sequence failed on every attempt.
    DeliveryFailure,
}

/// The user-facing message for an injection error; the permission case
/// names the settings panel to open.
pub open spec fn injection_error_text(e: InjectionError) -> Seq<char> {
    match e {
        InjectionError::PermissionDenied => {
            "未授予辅助功能权限，请在 系统设置 -> 隐私与安全性 -> 辅助功能 中允许 MoFA IME"@
        },
        InjectionError::DeliveryFailure => "剪贴板粘贴失败"@,
    }
}

impl InjectionError {
    /// The user-facing message, with remediation instructions for the
    /// permission case.
    pub fn message(&self) -> (r: String)
        ensures
            r@ == injection_error_text(*self),
    {
        match self {
            InjectionError::PermissionDenied => {
                "未授予辅助功能权限，请在 系统设置 -> 隐私与安全性 -> 辅助功能 中允许 MoFA IME".to_owned()
            },
            InjectionError::DeliveryFailure => "剪贴板粘贴失败".to_owned(),
        }
    }
}

/// How an injection begins.
#[derive(Clone, Copy, Debug, PartialEq, Eq, Structural)]
pub enum InjectStart {
    /// Blank text: succeed at once, with no clipboard or keyboard
    /// operation.
    SkipBlank,
    /// Permission missing: fail at once, before any clipboard mutation.
    Denied,
    /// Run the delivery sequence.
    Deliver,
}

/// Decides how an injection begins, before any OS interaction: blank text
/// succeeds at once, and without the assistive permission nothing touches
/// the clipboard.
pub fn begin_injection(text: &str, permission_granted: bool) -> (r: InjectStart)
    ensures
        is_blank(text@) ==> r is SkipBlank,
        !is_blank(text@) && !permission_granted ==> r is Denied,
        !is_blank(text@) && permission_granted ==> r is Deliver,
{
    if str_is_blank(text) {
        InjectStart::SkipBlank
    } else if !permission_granted {
        InjectStart::Denied
    } else {
        InjectStart::Deliver
    }
}

/// What to do after one delivery attempt.
#[derive(Clone, Copy, Debug, PartialEq, Eq, Structural)]
pub enum AttemptOutcome {
    /// Delivery succeeded; injection is done.
    Success,
    /// Delivery failed and attempts remain: sleep the backoff, then try
    /// again.
    RetryAfterBackoff,
    /// Delivery failed on the last attempt: injection fails.
    Failed,
}

/// The retry decision after attempt number `attempts_done` (counting from
/// one): a failed attempt is retried after one backoff until the attempt
/// budget is spent.
pub fn next_after_attempt(attempts_done: usize, delivered: bool) -> (r: AttemptOutcome)
    requires
        1 <= attempts_done <= MAX_DELIVERY_ATTEMPTS,
    ensures
        delivered ==> r is Success,
        !delivered && attempts_done < MAX_DELIVERY_ATTEMPTS ==> r is RetryAfterBackoff,
        !delivered && attempts_done == MAX_DELIVERY_ATTEMPTS ==> r is Failed,
{
    if delivered {
        AttemptOutcome::Success
    } else if attempts_done < MAX_DELIVERY_ATTEMPTS {
        AttemptOutcome::RetryAfterBackoff
    } else {
        AttemptOutcome::Failed
    }
}

/// Summary of one injection: its result, how many delivery attempts ran,
/// and how many backoff sleeps separated them.
pub struct InjectionReport {
    /// Success, or why the injection failed.
    pub outcome: Result<(), InjectionError>,
    /// Delivery attempts performed; zero means no clipboard or keyboard
    /// operation at all.
    pub attempts_used: usize,
    /// Backoff sleeps between attempts.
    pub backoff_sleeps: usize,
}

/// Runs the injection policy over the outcomes the OS would hand back for
/// each delivery attempt: blank text succeeds without any attempt, a
/// missing permission fails before any attempt, and otherwise attempts run
/// until one delivers or the budget of two is spent, with one backoff
/// sleep between the two attempts.
pub fn injection_outcome(text: &str, permission_granted: bool, attempt_delivered: &Vec<bool>) -> (r:
    InjectionReport)
    requires
        attempt_delivered@.len() >= MAX_DELIVERY_ATTEMPTS,
    ensures
        is_blank(text@) ==> r.outcome is Ok && r.attempts_used == 0 && r.backoff_sleeps == 0,
        !is_blank(text@) && !permission_granted ==> r.outcome == Result::<
            (),
            InjectionError,
        >::Err(InjectionError::PermissionDenied) && r.attempts_used == 0 && r.backoff_sleeps == 0,
        !is_blank(text@) && permission_granted && attempt_delivered@[0] ==> r.outcome is Ok
            && r.attempts_used == 1 && r.backoff_sleeps == 0,
        !is_blank(text@) && permission_granted && !attempt_delivered@[0] && attempt_delivered@[1]
            ==> r.outcome is Ok && r.attempts_used == 2 && r.backoff_sleeps == 1,
        !is_blank(text@) && permission_granted && !attempt_delivered@[0] && !attempt_delivered@[1]
            ==> r.outcome == Result::<(), InjectionError>::Err(InjectionError::DeliveryFailure)
            && r.attempts_used == 2 && r.backoff_sleeps == 1,
{
    match begin_injection(text, permission_granted) {
        InjectStart::SkipBlank => InjectionReport {
            outcome: Result::Ok(()),
            attempts_used: 0,
            backoff_sleeps: 0,
        },
        InjectStart::Denied => InjectionReport {
            outcome: Result::Err(InjectionError::PermissionDenied),
            attempts_used: 0,
            backoff_sleeps: 0,
        },
        InjectStart::Deliver => {
            let mut attempts_used: usize = 0;
            let mut backoff_sleeps: usize = 0;
            loop
                invariant_except_break
                    attempts_used < MAX_DELIVERY_ATTEMPTS,
                    backoff_sleeps == attempts_used,
                    forall|k: int| 0 <= k < attempts_used ==> !attempt_delivered@[k],
                invariant
                    attempt_delivered@.len() >= MAX_DELIVERY_ATTEMPTS,
                    forall|k: int| 0 <= k < attempts_used - 1 ==> !attempt_delivered@[k],
                ensures
                    1 <= attempts_used <= MAX_DELIVERY_ATTEMPTS,
                    backoff_sleeps == attempts_used - 1,
                    attempt_delivered@[attempts_used - 1] || attempts_used
                        == MAX_DELIVERY_ATTEMPTS,
                decreases MAX_DELIVERY_ATTEMPTS - attempts_used,
            {
                let delivered = attempt_delivered[attempts_used];
                attempts_used = attempts_used + 1;
                match next_after_attempt(attempts_used, delivered) {
                    AttemptOutcome::Success => {
                        break ;
                    },
                    AttemptOutcome::RetryAfterBackoff => {
                        backoff_sleeps = backoff_sleeps + 1;
                    },
                    AttemptOutcome::Failed => {
                        break ;
                    },
                }
            }
            let delivered = attempt_delivered[attempts_used - 1];
            InjectionReport {
                outcome: if delivered {
                    Result::Ok(())
                } else {
                    Result::Err(InjectionError::DeliveryFailure)
                },
                attempts_used,
                backoff_sleeps,
            }
        },
    }
}

} // verus!
