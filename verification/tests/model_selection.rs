//! Model selector: memory ladder, fallback order, explicit choices.

use mofa_ime::model_select::choose_asr_model;
use mofa_ime::model_select::choose_asr_model_auto;
use mofa_ime::model_select::choose_llm_model;
use mofa_ime::model_select::choose_llm_model_auto;
use mofa_ime::model_select::preferred_llm_model;
use mofa_ime::model_select::ModelChoice;

fn files(names: &[&str]) -> Vec<String> {
    names.iter().map(|s| s.to_string()).collect()
}

#[test]
fn memory_ladder() {
    assert_eq!(preferred_llm_model(4), "qwen2.5-0.5b-q4_k_m.gguf");
    assert_eq!(preferred_llm_model(8), "qwen2.5-0.5b-q4_k_m.gguf");
    assert_eq!(preferred_llm_model(12), "qwen2.5-1.5b-q4_k_m.gguf");
    assert_eq!(preferred_llm_model(16), "qwen2.5-1.5b-q4_k_m.gguf");
    assert_eq!(preferred_llm_model(24), "qwen2.5-3b-q4_k_m.gguf");
    assert_eq!(preferred_llm_model(32), "qwen3-4b-q4_k_m.gguf");
    assert_eq!(preferred_llm_model(64), "qwen2.5-7b-q4_k_m.gguf");
    assert_eq!(preferred_llm_model(96), "qwen3-8b-q4_k_m.gguf");
    assert_eq!(preferred_llm_model(128), "qwen3-14b-q4_k_m.gguf");
    assert_eq!(preferred_llm_model(192), "qwen3-30b-a3b-q4_k_m.gguf");
    assert_eq!(preferred_llm_model(256), "qwen3-32b-q4_k_m.gguf");
    assert_eq!(preferred_llm_model(512), "qwen2.5-72b-q4_k_m.gguf");
}

#[test]
fn twelve_gigabytes_falls_back_to_smallest_present() {
    // Preferred for 12 GB is the 1.5b file; it is absent, and the first
    // present candidate in fallback order wins.
    let present = files(&["qwen2.5-0.5b-q4_k_m.gguf"]);
    assert_eq!(choose_llm_model_auto(12, &present), Some("qwen2.5-0.5b-q4_k_m.gguf".to_string()));
}

#[test]
fn preferred_file_wins_when_present() {
    let present = files(&["qwen2.5-0.5b-q4_k_m.gguf", "qwen2.5-1.5b-q4_k_m.gguf"]);
    assert_eq!(choose_llm_model_auto(12, &present), Some("qwen2.5-1.5b-q4_k_m.gguf".to_string()));
}

#[test]
fn no_llm_file_present_means_none() {
    assert_eq!(choose_llm_model_auto(12, &files(&[])), None);
    assert_eq!(choose_llm_model_auto(12, &files(&["ggml-small.bin"])), None);
}

#[test]
fn explicit_llm_choice_checked_first() {
    let present = files(&["custom.gguf", "qwen2.5-0.5b-q4_k_m.gguf"]);
    let choice = ModelChoice::Explicit("custom.gguf".to_string());
    assert_eq!(choose_llm_model(&choice, 12, &present), Some("custom.gguf".to_string()));
}

#[test]
fn absent_explicit_llm_choice_falls_back_to_auto() {
    let present = files(&["qwen2.5-0.5b-q4_k_m.gguf"]);
    let choice = ModelChoice::Explicit("missing.gguf".to_string());
    assert_eq!(choose_llm_model(&choice, 12, &present), Some("qwen2.5-0.5b-q4_k_m.gguf".to_string()));
}

#[test]
fn asr_priority_order() {
    let present = files(&["ggml-tiny.bin", "ggml-base.bin"]);
    // The search order is small, base, tiny, medium.
    assert_eq!(choose_asr_model_auto(&present), Some("ggml-base.bin".to_string()));
    let present = files(&["ggml-medium.bin", "ggml-small.bin"]);
    assert_eq!(choose_asr_model_auto(&present), Some("ggml-small.bin".to_string()));
    assert_eq!(choose_asr_model_auto(&files(&[])), None);
}

#[test]
fn explicit_asr_choice() {
    let present = files(&["whisper-custom.bin", "ggml-tiny.bin"]);
    let choice = ModelChoice::Explicit("whisper-custom.bin".to_string());
    assert_eq!(choose_asr_model(&choice, &present), Some("whisper-custom.bin".to_string()));
    let missing = ModelChoice::Explicit("nope.bin".to_string());
    assert_eq!(choose_asr_model(&missing, &present), Some("ggml-tiny.bin".to_string()));
    assert_eq!(choose_asr_model(&ModelChoice::Auto, &present), Some("ggml-tiny.bin".to_string()));
}
