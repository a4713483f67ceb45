//! Refinement policy: skip heuristic, normalization, prompt construction,
//! and the anti-overcorrection post-processing.

use mofa_ime::refine::build_refine_prompt;
use mofa_ime::refine::has_terminal_punctuation;
use mofa_ime::refine::normalize_transcript;
use mofa_ime::refine::should_skip_llm_refine;
use mofa_ime::refine::trim_added_terminal_period;

#[test]
fn skip_blank_text() {
    assert!(should_skip_llm_refine(""));
    assert!(should_skip_llm_refine("   \t\n"));
}

#[test]
fn skip_sixteen_english_letters_full_ratio() {
    // 16 ASCII letters, no CJK: ratio 1.0, at the letter floor — skipped.
    assert!(should_skip_llm_refine("abcdefghijklmnop"));
}

#[test]
fn send_fifteen_english_letters_full_ratio() {
    // 15 ASCII letters, ratio 1.0: below the letter floor — sent.
    assert!(!should_skip_llm_refine("abcdefghijklmno"));
}

#[test]
fn skip_ratio_exactly_nine_tenths() {
    // 18 English letters, 2 ideographs: ratio exactly 0.9 — skipped.
    assert!(should_skip_llm_refine("abcdefghijklmnopqr你好"));
}

#[test]
fn send_ratio_below_nine_tenths() {
    // 18 English letters, 3 ideographs: ratio below 0.9 — sent.
    assert!(!should_skip_llm_refine("abcdefghijklmnopqr你好吗"));
}

#[test]
fn send_text_without_letters() {
    // No ASCII letter and no ideograph: ambiguous content is sent.
    assert!(!should_skip_llm_refine("1234 !!!"));
}

#[test]
fn send_mostly_chinese() {
    assert!(!should_skip_llm_refine("帮我写一下这个文档好吗"));
}

#[test]
fn normalize_collapses_whitespace() {
    assert_eq!(normalize_transcript("  a\t\tb\n\nc  "), "a b c");
}

#[test]
fn normalize_keeps_single_spaces() {
    assert_eq!(normalize_transcript("帮我 写一下 这个"), "帮我 写一下 这个");
}

#[test]
fn normalize_empty() {
    assert_eq!(normalize_transcript("   "), "");
}

#[test]
fn terminal_punctuation_detection() {
    assert!(has_terminal_punctuation("你好。"));
    assert!(has_terminal_punctuation("done!  "));
    assert!(has_terminal_punctuation("what?"));
    assert!(has_terminal_punctuation("嗯…"));
    assert!(!has_terminal_punctuation("你好"));
    assert!(!has_terminal_punctuation(""));
    assert!(!has_terminal_punctuation("你好，"));
}

#[test]
fn strips_added_period_when_raw_has_none() {
    assert_eq!(trim_added_terminal_period("abc", "abc."), "abc");
    assert_eq!(trim_added_terminal_period("abc", "abc。。"), "abc");
    assert_eq!(trim_added_terminal_period("abc", "abc. "), "abc");
}

#[test]
fn keeps_period_when_raw_has_one() {
    assert_eq!(trim_added_terminal_period("abc.", "abcd."), "abcd.");
    assert_eq!(trim_added_terminal_period("你好。", "你好。"), "你好。");
}

#[test]
fn post_processing_example() {
    // No terminal punctuation and no particle in the raw text: the model's
    // added particle and period are both removed.
    assert_eq!(trim_added_terminal_period("帮我 写一下 这个", "帮我写一下这个呢。"), "帮我写一下这个");
}

#[test]
fn strips_added_particle() {
    assert_eq!(trim_added_terminal_period("好的", "好的呀。"), "好的");
    assert_eq!(trim_added_terminal_period("好的", "好的呢"), "好的");
}

#[test]
fn keeps_particle_when_raw_ends_with_one() {
    assert_eq!(trim_added_terminal_period("好呢", "好呀"), "好呀");
}

#[test]
fn particle_removal_reattaches_punctuation() {
    // The raw text ends with punctuation, so the exclamation mark stays;
    // only the particle inside is dropped.
    assert_eq!(trim_added_terminal_period("你好！", "你好呢！"), "你好！");
}

#[test]
fn particle_removal_can_bare_a_carried_period() {
    // The model's answer carried a period before its added particle;
    // dropping the particle bares that period, and only one pass runs.
    assert_eq!(trim_added_terminal_period("帮我", "好。呢"), "好。");
}

#[test]
fn particle_removal_drops_exactly_one_particle() {
    // A doubled particle loses only its last copy.
    assert_eq!(trim_added_terminal_period("帮我", "好呢呢"), "好呢");
}

#[test]
fn output_is_trimmed() {
    assert_eq!(trim_added_terminal_period("abc.", "  abcd.  "), "abcd.");
}

#[test]
fn particle_removal_with_empty_core_is_still_trimmed() {
    // Dropping the particle leaves an empty core; the whitespace-led
    // punctuation tail is re-attached and the output trimmed.
    assert_eq!(trim_added_terminal_period(".", "呢 ."), ".");
}

#[test]
fn prompt_wraps_raw_text() {
    let p = build_refine_prompt("test 文本");
    assert!(p.starts_with("你是输入法润色器。"));
    assert!(p.contains("9) 若原文句末无“呀/呢”，输出句末也不要新增“呀/呢”；"));
    assert!(p.contains("11) 只输出最终文本，不解释、不提问。"));
    assert!(p.ends_with("\n\ntest 文本"));
}
