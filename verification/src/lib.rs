//! Core logic of a voice-dictation input helper: the capture-to-injection
//! pipeline state machine, the transcript refinement policy, the model
//! selection heuristic, the text-injection engine's decisions, and the
//! bounded history of finalized transcripts.
//!
//! Everything here is pure logic over plain values. The operating-system
//! edges (audio capture, speech and language engines, clipboard, synthetic
//! key events, filesystem probes) live outside this crate and exchange
//! plain strings, integers and booleans with it.

pub mod chars;
pub mod history;
pub mod inject;
pub mod model_select;
pub mod pipeline;
pub mod refine;
pub mod ui;
