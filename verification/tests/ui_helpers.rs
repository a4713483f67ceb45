//! Presentation helpers: preview wrapping, line estimation, truncation,
//! tray labels.

use mofa_ime::ui::estimate_preview_lines;
use mofa_ime::ui::is_cjk_char;
use mofa_ime::ui::monitor_item_title;
use mofa_ime::ui::truncate;
use mofa_ime::ui::truncate_middle;
use mofa_ime::ui::wrap_preview_text;
use mofa_ime::ui::OrbCommand;
use mofa_ime::ui::TrayState;

#[test]
fn cjk_classification() {
    assert!(is_cjk_char('中'));
    assert!(is_cjk_char('あ'));
    assert!(is_cjk_char('ア'));
    assert!(is_cjk_char('한'));
    assert!(!is_cjk_char('a'));
    assert!(!is_cjk_char('1'));
    assert!(!is_cjk_char('…'));
}

#[test]
fn wrap_blank_is_empty() {
    assert_eq!(wrap_preview_text(""), "");
    assert_eq!(wrap_preview_text("  \r \n "), "");
}

#[test]
fn wrap_short_text_is_unchanged() {
    assert_eq!(wrap_preview_text("abc"), "abc");
    assert_eq!(wrap_preview_text("你好 世界"), "你好 世界");
}

#[test]
fn wrap_breaks_at_the_width_cap() {
    // 42 ASCII letters: 41 fit on one line (41 * 0.58 = 23.78 of 24), the
    // next would overflow and opens a new line.
    let long = "a".repeat(42);
    let wrapped = wrap_preview_text(&long);
    let expected = format!("{}\n{}", "a".repeat(41), "a");
    assert_eq!(wrapped, expected);
}

#[test]
fn wrap_breaks_cjk_earlier() {
    // CJK characters are a full cell: 24 fit, the 25th opens a new line.
    let long = "中".repeat(25);
    let wrapped = wrap_preview_text(&long);
    let expected = format!("{}\n{}", "中".repeat(24), "中");
    assert_eq!(wrapped, expected);
}

#[test]
fn wrap_respects_newlines_and_drops_carriage_returns() {
    assert_eq!(wrap_preview_text("a\r\nb"), "a\nb");
    assert_eq!(wrap_preview_text("a\tb"), "a b");
}

#[test]
fn wrap_truncates_after_six_lines() {
    assert_eq!(wrap_preview_text("1\n2\n3\n4\n5\n6\n7"), "1\n2\n3\n4\n5\n6…");
}

#[test]
fn line_estimates() {
    assert_eq!(estimate_preview_lines(""), 1);
    assert_eq!(estimate_preview_lines("a"), 1);
    assert_eq!(estimate_preview_lines("a\nb"), 2);
    assert_eq!(estimate_preview_lines("a\n"), 1);
    assert_eq!(estimate_preview_lines("a\nb\nc\nd\ne\nf\ng\nh"), 6);
}

#[test]
fn tail_truncation() {
    assert_eq!(truncate("hello", 10), "hello");
    assert_eq!(truncate("hello world", 5), "hell…");
    assert_eq!(truncate("你好世界真不错", 4), "你好世…");
    // Text that already fits is returned unchanged even with no room for
    // an ellipsis.
    assert_eq!(truncate("", 0), "");
    assert_eq!(truncate("ab", 2), "ab");
}

#[test]
fn middle_truncation() {
    assert_eq!(truncate_middle("short", 64), "short");
    assert_eq!(truncate_middle("abcdefghijklmnop", 9), "abcd…mnop");
    assert_eq!(truncate_middle("abcdefghijklmnop", 4), "abcd");
}

#[test]
fn monitor_titles() {
    assert_eq!(monitor_item_title("状态", "ready"), "状态: ready");
    let long = "x".repeat(100);
    let title = monitor_item_title("发送", &long);
    assert_eq!(title, format!("发送: {}…{}", "x".repeat(31), "x".repeat(32)));
}

#[test]
fn tray_labels() {
    assert_eq!(TrayState::Idle.title(), "就绪");
    assert_eq!(TrayState::Recording.title(), "录音中");
    assert_eq!(TrayState::Processing.title(), "识别中");
    assert_eq!(TrayState::Injected.title(), "已发送");
    assert_eq!(TrayState::Error.title(), "失败");
    assert_eq!(TrayState::Idle.symbol_name(), "circle");
    assert_eq!(TrayState::Recording.symbol_name(), "mic.fill");
    assert_eq!(TrayState::Processing.symbol_name(), "hourglass");
    assert_eq!(TrayState::Injected.symbol_name(), "checkmark.circle.fill");
    assert_eq!(TrayState::Error.symbol_name(), "exclamationmark.triangle.fill");
}

#[test]
fn orb_click_command() {
    let cmd = OrbCommand::ToggleHistory;
    assert!(matches!(cmd, OrbCommand::ToggleHistory));
}
