//! Model selection: maps an explicit user choice or the host's memory
//! capacity to a concrete model file, with a deterministic fallback search
//! over a fixed candidate order. The caller probes the filesystem and hands
//! in the names present in the models directory; selection itself is pure.

use vstd::prelude::*;

verus! {

/// Memory capacity assumed when the host's memory cannot be read, in whole
/// gigabytes.
pub const DEFAULT_MEMORY_GB: u64 = 32;

/// How a model is picked: a specific file, or automatic selection.
pub enum ModelChoice {
    /// Use this file name if it is present; fall back to automatic
    /// selection otherwise.
    Explicit(String),
    /// Automatic selection.
    Auto,
}

/// Whether `name` occurs among `files`.
pub open spec fn contains_name(files: Seq<Seq<char>>, name: Seq<char>) -> bool {
    exists|i: int| 0 <= i < files.len() && files[i] == name
}

/// The first candidate that occurs among `files`, in candidate order.
pub open spec fn first_present(cands: Seq<Seq<char>>, files: Seq<Seq<char>>) -> Option<Seq<char>>
    decreases cands.len(),
{
    if cands.len() == 0 {
        None
    } else if contains_name(files, cands[0]) {
        Some(cands[0])
    } else {
        first_present(cands.drop_first(), files)
    }
}

/// The refinement model preferred for a host with `mem_gb` gigabytes of
/// memory: a fixed monotonic capacity ladder.
pub open spec fn preferred_llm_name(mem_gb: u64) -> Seq<char> {
    if mem_gb <= 8 {
        "qwen2.5-0.5b-q4_k_m.gguf"@
    } else if mem_gb <= 16 {
        "qwen2.5-1.5b-q4_k_m.gguf"@
    } else if mem_gb <= 24 {
        "qwen2.5-3b-q4_k_m.gguf"@
    } else if mem_gb <= 40 {
        "qwen3-4b-q4_k_m.gguf"@
    } else if mem_gb <= 64 {
        "qwen2.5-7b-q4_k_m.gguf"@
    } else if mem_gb <= 96 {
        "qwen3-8b-q4_k_m.gguf"@
    } else if mem_gb <= 128 {
        "qwen3-14b-q4_k_m.gguf"@
    } else if mem_gb <= 192 {
        "qwen3-30b-a3b-q4_k_m.gguf"@
    } else if mem_gb <= 256 {
        "qwen3-32b-q4_k_m.gguf"@
    } else {
        "qwen2.5-72b-q4_k_m.gguf"@
    }
}

/// The fixed fallback order for refinement models, smallest and most
/// compatible first.
pub open spec fn llm_fallback_names() -> Seq<Seq<char>> {
    seq![
        "qwen2.5-1.5b-q4_k_m.gguf"@,
        "qwen2.5-0.5b-q4_k_m.gguf"@,
        "qwen2.5-3b-q4_k_m.gguf"@,
        "qwen3-4b-q4_k_m.gguf"@,
        "qwen2.5-7b-q4_k_m.gguf"@,
        "qwen3-8b-q4_k_m.gguf"@,
        "qwen2.5-14b-q4_k_m.gguf"@,
        "qwen3-14b-q4_k_m.gguf"@,
        "qwen3-30b-a3b-q4_k_m.gguf"@,
        "qwen2.5-32b-q4_k_m.gguf"@,
        "qwen3-32b-q4_k_m.gguf"@,
        "qwen2.5-72b-q4_k_m.gguf"@,
        "qwen2.5-coder-1.5b-q4_k_m.gguf"@,
        "qwen2.5-coder-0.5b-q4_k_m.gguf"@,
        "qwen2.5-coder-3b-q4_k_m.gguf"@,
        "qwen2.5-coder-7b-q4_k_m.gguf"@,
        "qwen2.5-coder-14b-q4_k_m.gguf"@,
        "qwen2.5-coder-32b-q4_k_m.gguf"@,
    ]
}

/// The automatic search order for refinement models: the preferred name
/// for this memory capacity, then the fixed fallback order.
pub open spec fn llm_candidate_names(mem_gb: u64) -> Seq<Seq<char>> {
    seq![preferred_llm_name(mem_gb)] + llm_fallback_names()
}

/// The fixed search order for speech-recognition models, by quality within
/// the same family.
pub open spec fn asr_candidate_names() -> Seq<Seq<char>> {
    seq!["ggml-small.bin"@, "ggml-base.bin"@, "ggml-tiny.bin"@, "ggml-medium.bin"@]
}

/// Whether `name` is one of `files`.
fn file_present(files: &Vec<String>, name: &str) -> (r: bool)
    ensures
        r == contains_name(files.deep_view(), name@),
{
    let n = files.len();
    let mut i: usize = 0;
    while i < n
        invariant
            n == files@.len(),
            i <= n,
            forall|k: int| 0 <= k < i ==> files.deep_view()[k] != name@,
        decreases n - i,
    {
        let name_string = name.to_owned();
        if files[i].eq(&name_string) {
            proof {
                assert(files.deep_view()[i as int] == name@);
            }
            return true;
        }
        i = i + 1;
    }
    false
}

/// Dropping candidates that are not present does not change the search
/// result.
proof fn lemma_first_present_skip(cands: Seq<Seq<char>>, files: Seq<Seq<char>>, i: int)
    requires
        0 <= i <= cands.len(),
        forall|k: int| 0 <= k < i ==> !contains_name(files, #[trigger] cands[k]),
    ensures
        first_present(cands, files) == first_present(cands.skip(i), files),
    decreases i,
{
    if i > 0 {
        lemma_first_present_skip(cands, files, i - 1);
        let rest = cands.skip(i - 1);
        assert(rest[0] == cands[i - 1]);
        assert(rest.drop_first() =~= cands.skip(i));
    } else {
        assert(cands.skip(0) =~= cands);
    }
}

/// The first of `cands` that occurs among `files`, as an owned name.
fn first_present_in(cands: &Vec<&str>, files: &Vec<String>) -> (r: Option<String>)
    ensures
        ({
            let fp = first_present(cands.deep_view(), files.deep_view());
            match r {
                Some(name) => fp == Some(name@),
                None => fp is None,
            }
        }),
{
    let n = cands.len();
    let mut i: usize = 0;
    while i < n
        invariant
            n == cands@.len(),
            i <= n,
            forall|k: int|
                0 <= k < i ==> !contains_name(files.deep_view(), #[trigger] cands.deep_view()[k]),
        decreases n - i,
    {
        let c = cands[i];
        if file_present(files, c) {
            proof {
                lemma_first_present_skip(cands.deep_view(), files.deep_view(), i as int);
                assert(cands.deep_view().skip(i as int)[0] == cands.deep_view()[i as int]);
            }
            return Some(c.to_owned());
        }
        i = i + 1;
    }
    proof {
        lemma_first_present_skip(cands.deep_view(), files.deep_view(), n as int);
        assert(cands.deep_view().skip(n as int) =~= Seq::<Seq<char>>::empty());
    }
    None
}

/// The refinement model preferred for this memory capacity.
pub fn preferred_llm_model(mem_gb: u64) -> (r: &'static str)
    ensures
        r@ == preferred_llm_name(mem_gb),
{
    if mem_gb <= 8 {
        "qwen2.5-0.5b-q4_k_m.gguf"
    } else if mem_gb <= 16 {
        "qwen2.5-1.5b-q4_k_m.gguf"
    } else if mem_gb <= 24 {
        "qwen2.5-3b-q4_k_m.gguf"
    } else if mem_gb <= 40 {
        "qwen3-4b-q4_k_m.gguf"
    } else if mem_gb <= 64 {
        "qwen2.5-7b-q4_k_m.gguf"
    } else if mem_gb <= 96 {
        "qwen3-8b-q4_k_m.gguf"
    } else if mem_gb <= 128 {
        "qwen3-14b-q4_k_m.gguf"
    } else if mem_gb <= 192 {
        "qwen3-30b-a3b-q4_k_m.gguf"
    } else if mem_gb <= 256 {
        "qwen3-32b-q4_k_m.gguf"
    } else {
        "qwen2.5-72b-q4_k_m.gguf"
    }
}

/// Automatic refinement-model selection: the first name present among
/// `files` in the search order for a host with `mem_gb` gigabytes of
/// memory, or `None` when no candidate is present (refinement is then
/// skipped, which is not an error).
pub fn choose_llm_model_auto(mem_gb: u64, files: &Vec<String>) -> (r: Option<String>)
    ensures
        ({
            let fp = first_present(llm_candidate_names(mem_gb), files.deep_view());
            match r {
                Some(name) => fp == Some(name@),
                None => fp is None,
            }
        }),
{
    let mut cands: Vec<&str> = Vec::new();
    cands.push(preferred_llm_model(mem_gb));
    cands.push("qwen2.5-1.5b-q4_k_m.gguf");
    cands.push("qwen2.5-0.5b-q4_k_m.gguf");
    cands.push("qwen2.5-3b-q4_k_m.gguf");
    cands.push("qwen3-4b-q4_k_m.gguf");
    cands.push("qwen2.5-7b-q4_k_m.gguf");
    cands.push("qwen3-8b-q4_k_m.gguf");
    cands.push("qwen2.5-14b-q4_k_m.gguf");
    cands.push("qwen3-14b-q4_k_m.gguf");
    cands.push("qwen3-30b-a3b-q4_k_m.gguf");
    cands.push("qwen2.5-32b-q4_k_m.gguf");
    cands.push("qwen3-32b-q4_k_m.gguf");
    cands.push("qwen2.5-72b-q4_k_m.gguf");
    cands.push("qwen2.5-coder-1.5b-q4_k_m.gguf");
    cands.push("qwen2.5-coder-0.5b-q4_k_m.gguf");
    cands.push("qwen2.5-coder-3b-q4_k_m.gguf");
    cands.push("qwen2.5-coder-7b-q4_k_m.gguf");
    cands.push("qwen2.5-coder-14b-q4_k_m.gguf");
    cands.push("qwen2.5-coder-32b-q4_k_m.gguf");
    proof {
        assert(cands.deep_view() =~= llm_candidate_names(mem_gb));
    }
    first_present_in(&cands, files)
}

/// Refinement-model selection: an explicit choice whose file is present
/// wins; otherwise automatic selection decides.
pub fn choose_llm_model(choice: &ModelChoice, mem_gb: u64, files: &Vec<String>) -> (r: Option<
    String,
>)
    ensures
        ({
            let auto = first_present(llm_candidate_names(mem_gb), files.deep_view());
            match choice {
                ModelChoice::Explicit(name) => {
                    if contains_name(files.deep_view(), name@) {
                        match r {
                            Some(sel) => sel@ == name@,
                            None => false,
                        }
                    } else {
                        match r {
                            Some(sel) => auto == Some(sel@),
                            None => auto is None,
                        }
                    }
                },
                ModelChoice::Auto => match r {
                    Some(sel) => auto == Some(sel@),
                    None => auto is None,
                },
            }
        }),
{
    if let ModelChoice::Explicit(name) = choice {
        if file_present(files, name.as_str()) {
            return Some(name.clone());
        }
    }
    choose_llm_model_auto(mem_gb, files)
}

/// Automatic speech-model selection: the first name present among `files`
/// in the fixed quality order.
pub fn choose_asr_model_auto(files: &Vec<String>) -> (r: Option<String>)
    ensures
        ({
            let fp = first_present(asr_candidate_names(), files.deep_view());
            match r {
                Some(name) => fp == Some(name@),
                None => fp is None,
            }
        }),
{
    let mut cands: Vec<&str> = Vec::new();
    cands.push("ggml-small.bin");
    cands.push("ggml-base.bin");
    cands.push("ggml-tiny.bin");
    cands.push("ggml-medium.bin");
    proof {
        assert(cands.deep_view() =~= asr_candidate_names());
    }
    first_present_in(&cands, files)
}

/// Speech-model selection: an explicit choice whose file is present wins;
/// otherwise automatic selection decides.
pub fn choose_asr_model(choice: &ModelChoice, files: &Vec<String>) -> (r: Option<String>)
    ensures
        ({
            let auto = first_present(asr_candidate_names(), files.deep_view());
            match choice {
                ModelChoice::Explicit(name) => {
                    if contains_name(files.deep_view(), name@) {
                        match r {
                            Some(sel) => sel@ == name@,
                            None => false,
                        }
                    } else {
                        match r {
                            Some(sel) => auto == Some(sel@),
                            None => auto is None,
                        }
                    }
                },
                ModelChoice::Auto => match r {
                    Some(sel) => auto == Some(sel@),
                    None => auto is None,
                },
            }
        }),
{
    if let ModelChoice::Explicit(name) = choice {
        if file_present(files, name.as_str()) {
            return Some(name.clone());
        }
    }
    choose_asr_model_auto(files)
}

} // verus!
