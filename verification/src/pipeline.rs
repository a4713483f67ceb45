//! Pipeline orchestration: the state machine that sequences one dictation
//! session from capture through transcription, refinement and injection,
//! and the silence gate that short-circuits the pipeline for non-speech
//! audio.
//!
//! The orchestrator is a pure transition function from stage and event to
//! next stage and action. The caller performs the action (an engine call,
//! a delivery) against the outside world and feeds the outcome back as the
//! next event. At most one session is active at a time; a capture-start
//! signal arriving mid-session is rejected, not pipelined.

use vstd::prelude::*;

use crate::inject::InjectionError;
use crate::refine::build_refine_prompt;
use crate::refine::normalize_spec;
use crate::refine::normalize_transcript;
use crate::refine::post_process;
use crate::refine::refine_prompt_template;
use crate::refine::should_skip_llm_refine;
use crate::refine::should_skip_refine;
use crate::refine::trim_added_terminal_period;

verus! {

/// Silence threshold on root-mean-square amplitude, in millionths of full
/// scale.
pub const SILENCE_RMS_THRESHOLD_MICRO: i64 = 1500;

/// Full scale of a sample handed to the silence gate, in millionths.
pub const SAMPLE_FULL_SCALE_MICRO: i64 = 1000000;

/// Sum of the squares of the first `i` samples.
pub open spec fn sum_squares(s: Seq<i64>, i: int) -> int
    decreases i,
{
    if i <= 0 {
        0
    } else {
        sum_squares(s, i - 1) + s[i - 1] * s[i - 1]
    }
}

/// Audio counts as silence when its root-mean-square amplitude is below
/// the silence threshold: the sum of squared samples is below the sample
/// count times the squared threshold. Empty audio is silence.
pub open spec fn is_silent_audio(s: Seq<i64>) -> bool {
    s.len() == 0 || sum_squares(s, s.len() as int) < s.len() * (SILENCE_RMS_THRESHOLD_MICRO as int)
        * (SILENCE_RMS_THRESHOLD_MICRO as int)
}

proof fn lemma_sum_squares_bound(s: Seq<i64>, i: int)
    requires
        0 <= i <= s.len(),
        forall|k: int|
            0 <= k < s.len() ==> -SAMPLE_FULL_SCALE_MICRO <= #[trigger] s[k]
                <= SAMPLE_FULL_SCALE_MICRO,
    ensures
        0 <= sum_squares(s, i) <= i * 1000000000000,
    decreases i,
{
    if i > 0 {
        lemma_sum_squares_bound(s, i - 1);
        assert(s[i - 1] * s[i - 1] <= 1000000000000) by (nonlinear_arith)
            requires
                -1000000 <= s[i - 1] <= 1000000,
        ;
        assert(s[i - 1] * s[i - 1] >= 0) by (nonlinear_arith);
    }
}

/// The silence gate: whether the audio's root-mean-square amplitude lies
/// below the silence threshold. Samples are in millionths of full scale.
pub fn audio_is_silent(samples: &Vec<i64>) -> (r: bool)
    requires
        forall|k: int|
            0 <= k < samples@.len() ==> -SAMPLE_FULL_SCALE_MICRO <= #[trigger] samples@[k]
                <= SAMPLE_FULL_SCALE_MICRO,
    ensures
        r == is_silent_audio(samples@),
{
    let n = samples.len();
    if n == 0 {
        return true;
    }
    let mut sum: u128 = 0;
    let mut i: usize = 0;
    while i < n
        invariant
            n == samples@.len(),
            i <= n,
            forall|k: int|
                0 <= k < samples@.len() ==> -SAMPLE_FULL_SCALE_MICRO <= #[trigger] samples@[k]
                    <= SAMPLE_FULL_SCALE_MICRO,
            sum == sum_squares(samples@, i as int),
            sum <= (i as int) * 1000000000000,
        decreases n - i,
    {
        let x = samples[i];
        proof {
            lemma_sum_squares_bound(samples@, i as int + 1);
            assert(x * x <= 1000000000000) by (nonlinear_arith)
                requires
                    -1000000 <= x <= 1000000,
            ;
            assert(x * x >= 0) by (nonlinear_arith);
        }
        let sq = x * x;
        sum = sum + (sq as u128);
        i = i + 1;
    }
    proof {
        lemma_sum_squares_bound(samples@, n as int);
    }
    sum < (n as u128) * 2250000
}

/// A discrete phase of one dictation session.
#[derive(Clone, Copy, Debug, PartialEq, Eq, Structural)]
pub enum Stage {
    /// No session is active; initial and terminal.
    Idle,
    /// Audio capture is running.
    Recording,
    /// The speech engine is transcribing the captured audio.
    Transcribing,
    /// The language model is rewriting the transcript.
    Refining,
    /// The injection engine is delivering the final text.
    Injecting,
    /// The session failed; the error message awaits the user.
    Error,
}

/// How far a stage lies along the pipeline; the error stage lies beyond
/// every working stage.
pub open spec fn stage_rank(s: Stage) -> int {
    match s {
        Stage::Idle => 0,
        Stage::Recording => 1,
        Stage::Transcribing => 2,
        Stage::Refining => 3,
        Stage::Injecting => 4,
        Stage::Error => 5,
    }
}

/// An outside happening fed into the orchestrator.
#[derive(Clone, Debug, PartialEq, Eq)]
pub enum PipelineEvent {
    /// The user started a capture gesture.
    CaptureStarted,
    /// The capture stopped; the silence gate has judged the audio.
    CaptureStopped { silent: bool },
    /// The speech engine returned this transcript.
    TranscriptionDone(String),
    /// The speech engine failed with this message.
    TranscriptionFailed(String),
    /// The language model returned this answer.
    RefinementDone(String),
    /// The language model failed or timed out.
    RefinementFailed,
    /// The injection engine delivered the text.
    InjectionSucceeded,
    /// The injection engine gave up with this error.
    InjectionFailed(InjectionError),
    /// The presentation layer consumed the error message.
    ErrorAcknowledged,
}

/// The ghost image of an event: payload strings as character sequences.
pub enum EventModel {
    CaptureStarted,
    CaptureStopped { silent: bool },
    TranscriptionDone(Seq<char>),
    TranscriptionFailed(Seq<char>),
    RefinementDone(Seq<char>),
    RefinementFailed,
    InjectionSucceeded,
    InjectionFailed(InjectionError),
    ErrorAcknowledged,
}

impl View for PipelineEvent {
    type V = EventModel;

    open spec fn view(&self) -> EventModel {
        match self {
            PipelineEvent::CaptureStarted => EventModel::CaptureStarted,
            PipelineEvent::CaptureStopped { silent } => EventModel::CaptureStopped {
                silent: *silent,
            },
            PipelineEvent::TranscriptionDone(t) => EventModel::TranscriptionDone(t@),
            PipelineEvent::TranscriptionFailed(m) => EventModel::TranscriptionFailed(m@),
            PipelineEvent::RefinementDone(a) => EventModel::RefinementDone(a@),
            PipelineEvent::RefinementFailed => EventModel::RefinementFailed,
            PipelineEvent::InjectionSucceeded => EventModel::InjectionSucceeded,
            PipelineEvent::InjectionFailed(e) => EventModel::InjectionFailed(*e),
            PipelineEvent::ErrorAcknowledged => EventModel::ErrorAcknowledged,
        }
    }
}

/// What the caller must perform next against the engines and the OS.
#[derive(Clone, Debug, PartialEq, Eq)]
pub enum PipelineAction {
    /// Nothing to perform.
    NoAction,
    /// Run the speech engine on the captured audio.
    StartTranscription,
    /// Run the language model on this prompt.
    StartRefinement(String),
    /// Deliver this text to the input focus.
    StartInjection(String),
    /// Record this finalized text into the history store.
    RecordHistory(String),
}

/// The ghost image of an action.
pub enum ActionModel {
    NoAction,
    StartTranscription,
    StartRefinement(Seq<char>),
    StartInjection(Seq<char>),
    RecordHistory(Seq<char>),
}

impl View for PipelineAction {
    type V = ActionModel;

    open spec fn view(&self) -> ActionModel {
        match self {
            PipelineAction::NoAction => ActionModel::NoAction,
            PipelineAction::StartTranscription => ActionModel::StartTranscription,
            PipelineAction::StartRefinement(p) => ActionModel::StartRefinement(p@),
            PipelineAction::StartInjection(t) => ActionModel::StartInjection(t@),
            PipelineAction::RecordHistory(t) => ActionModel::RecordHistory(t@),
        }
    }
}

/// The ghost image of a session.
pub struct SessionModel {
    /// Current stage.
    pub stage: Stage,
    /// Whether a refinement model is available; when not, refinement is
    /// silently skipped for the whole session.
    pub llm_available: bool,
    /// The normalized raw transcript, once transcription succeeded.
    pub raw: Option<Seq<char>>,
    /// The post-processed model answer, once refinement succeeded; always
    /// derived from this session's own raw transcript.
    pub refined: Option<Seq<char>>,
    /// The user-facing error message, in the error stage.
    pub error: Option<Seq<char>>,
}

/// A session model with no transcripts, at this stage.
pub open spec fn blank_session(stage: Stage, llm_available: bool) -> SessionModel {
    SessionModel { stage, llm_available, raw: None, refined: None, error: None }
}

/// Internal consistency of a session: transcripts and errors exist exactly
/// where the stage calls for them.
pub open spec fn session_inv(m: SessionModel) -> bool {
    &&& (m.stage is Refining || m.stage is Injecting) ==> m.raw is Some
    &&& m.refined is Some ==> m.raw is Some
    &&& m.stage is Error ==> m.error is Some
}

/// The finalized text of a session: the refined transcript when one was
/// produced, the normalized raw transcript otherwise.
pub open spec fn final_text(m: SessionModel) -> Seq<char> {
    match m.refined {
        Some(f) => f,
        None => match m.raw {
            Some(r) => r,
            None => Seq::<char>::empty(),
        },
    }
}

/// The transition function: from session and event to next session and
/// action. Unexpected events leave the session unchanged. A capture-start
/// while a session is active is rejected: sessions are never pipelined.
pub open spec fn step_spec(m: SessionModel, e: EventModel) -> (SessionModel, ActionModel) {
    match (m.stage, e) {
        (Stage::Idle, EventModel::CaptureStarted) => (
            blank_session(Stage::Recording, m.llm_available),
            ActionModel::NoAction,
        ),
        (Stage::Recording, EventModel::CaptureStopped { silent }) => {
            if silent {
                (blank_session(Stage::Idle, m.llm_available), ActionModel::NoAction)
            } else {
                (blank_session(Stage::Transcribing, m.llm_available), ActionModel::StartTranscription)
            }
        },
        (Stage::Transcribing, EventModel::TranscriptionDone(t)) => {
            let norm = normalize_spec(t);
            if m.llm_available && !should_skip_refine(norm) {
                (
                    SessionModel {
                        stage: Stage::Refining,
                        llm_available: m.llm_available,
                        raw: Some(norm),
                        refined: None,
                        error: None,
                    },
                    ActionModel::StartRefinement(refine_prompt_template() + norm),
                )
            } else {
                (
                    SessionModel {
                        stage: Stage::Injecting,
                        llm_available: m.llm_available,
                        raw: Some(norm),
                        refined: None,
                        error: None,
                    },
                    ActionModel::StartInjection(norm),
                )
            }
        },
        (Stage::Transcribing, EventModel::TranscriptionFailed(msg)) => (
            SessionModel {
                stage: Stage::Error,
                llm_available: m.llm_available,
                raw: m.raw,
                refined: m.refined,
                error: Some(msg),
            },
            ActionModel::NoAction,
        ),
        (Stage::Refining, EventModel::RefinementDone(ans)) => {
            match m.raw {
                Some(raw) => {
                    let fixed = post_process(raw, ans);
                    (
                        SessionModel {
                            stage: Stage::Injecting,
                            llm_available: m.llm_available,
                            raw: Some(raw),
                            refined: Some(fixed),
                            error: None,
                        },
                        ActionModel::StartInjection(fixed),
                    )
                },
                None => (m, ActionModel::NoAction),
            }
        },
        (Stage::Refining, EventModel::RefinementFailed) => {
            match m.raw {
                Some(raw) => (
                    SessionModel {
                        stage: Stage::Injecting,
                        llm_available: m.llm_available,
                        raw: Some(raw),
                        refined: None,
                        error: None,
                    },
                    ActionModel::StartInjection(raw),
                ),
                None => (m, ActionModel::NoAction),
            }
        },
        (Stage::Injecting, EventModel::InjectionSucceeded) => (
            blank_session(Stage::Idle, m.llm_available),
            ActionModel::RecordHistory(final_text(m)),
        ),
        (Stage::Injecting, EventModel::InjectionFailed(err)) => (
            SessionModel {
                stage: Stage::Error,
                llm_available: m.llm_available,
                raw: m.raw,
                refined: m.refined,
                error: Some(crate::inject::injection_error_text(err)),
            },
            ActionModel::NoAction,
        ),
        (Stage::Error, EventModel::ErrorAcknowledged) => (
            blank_session(Stage::Idle, m.llm_available),
            ActionModel::NoAction,
        ),
        _ => (m, ActionModel::NoAction),
    }
}

/// One dictation session driven by the orchestrator.
pub struct Session {
    stage: Stage,
    llm_available: bool,
    raw: Option<String>,
    refined: Option<String>,
    error: Option<String>,
}

impl View for Session {
    type V = SessionModel;

    closed spec fn view(&self) -> SessionModel {
        SessionModel {
            stage: self.stage,
            llm_available: self.llm_available,
            raw: self.raw.deep_view(),
            refined: self.refined.deep_view(),
            error: self.error.deep_view(),
        }
    }
}

impl Session {
    /// Internal consistency; established by `new` and preserved by `step`.
    pub open spec fn wf(&self) -> bool {
        session_inv(self@)
    }

    /// A fresh idle session. `llm_available` says whether a refinement
    /// model could be loaded; without one, refinement is silently skipped.
    pub fn new(llm_available: bool) -> (r: Session)
        ensures
            r.wf(),
            r@ == blank_session(Stage::Idle, llm_available),
    {
        Session { stage: Stage::Idle, llm_available, raw: None, refined: None, error: None }
    }

    /// Current stage.
    pub fn stage(&self) -> (r: Stage)
        ensures
            r == self@.stage,
    {
        self.stage
    }

    /// The pending user-facing error message, in the error stage.
    pub fn error_message(&self) -> (r: Option<String>)
        ensures
            r.deep_view() == self@.error,
    {
        match &self.error {
            Some(m) => Some(m.clone()),
            None => None,
        }
    }

    /// Feeds one event into the session and returns the action the caller
    /// must perform next.
    pub fn step(&mut self, event: PipelineEvent) -> (action: PipelineAction)
        requires
            old(self).wf(),
        ensures
            final(self).wf(),
            (final(self)@, action@) == step_spec(old(self)@, event@),
    {
        let stage = self.stage;
        match (stage, event) {
            (Stage::Idle, PipelineEvent::CaptureStarted) => {
                self.stage = Stage::Recording;
                self.raw = None;
                self.refined = None;
                self.error = None;
                PipelineAction::NoAction
            },
            (Stage::Recording, PipelineEvent::CaptureStopped { silent }) => {
                self.raw = None;
                self.refined = None;
                self.error = None;
                if silent {
                    self.stage = Stage::Idle;
                    PipelineAction::NoAction
                } else {
                    self.stage = Stage::Transcribing;
                    PipelineAction::StartTranscription
                }
            },
            (Stage::Transcribing, PipelineEvent::TranscriptionDone(t)) => {
                let norm = normalize_transcript(t.as_str());
                self.refined = None;
                self.error = None;
                if self.llm_available && !should_skip_llm_refine(norm.as_str()) {
                    let prompt = build_refine_prompt(norm.as_str());
                    self.raw = Some(norm);
                    self.stage = Stage::Refining;
                    PipelineAction::StartRefinement(prompt)
                } else {
                    self.raw = Some(norm.clone());
                    self.stage = Stage::Injecting;
                    PipelineAction::StartInjection(norm)
                }
            },
            (Stage::Transcribing, PipelineEvent::TranscriptionFailed(msg)) => {
                self.stage = Stage::Error;
                self.error = Some(msg);
                PipelineAction::NoAction
            },
            (Stage::Refining, PipelineEvent::RefinementDone(ans)) => {
                let fixed_opt = match &self.raw {
                    Some(r) => Some(trim_added_terminal_period(r.as_str(), ans.as_str())),
                    None => None,
                };
                match fixed_opt {
                    Some(fixed) => {
                        self.refined = Some(fixed.clone());
                        self.error = None;
                        self.stage = Stage::Injecting;
                        PipelineAction::StartInjection(fixed)
                    },
                    None => PipelineAction::NoAction,
                }
            },
            (Stage::Refining, PipelineEvent::RefinementFailed) => {
                let raw_opt = match &self.raw {
                    Some(r) => Some(r.clone()),
                    None => None,
                };
                match raw_opt {
                    Some(raw) => {
                        self.refined = None;
                        self.error = None;
                        self.stage = Stage::Injecting;
                        PipelineAction::StartInjection(raw)
                    },
                    None => PipelineAction::NoAction,
                }
            },
            (Stage::Injecting, PipelineEvent::InjectionSucceeded) => {
                let text = match &self.refined {
                    Some(f) => f.clone(),
                    None => match &self.raw {
                        Some(r) => r.clone(),
                        None => String::new(),
                    },
                };
                self.stage = Stage::Idle;
                self.raw = None;
                self.refined = None;
                self.error = None;
                PipelineAction::RecordHistory(text)
            },
            (Stage::Injecting, PipelineEvent::InjectionFailed(err)) => {
                self.stage = Stage::Error;
                self.error = Some(err.message());
                PipelineAction::NoAction
            },
            (Stage::Error, PipelineEvent::ErrorAcknowledged) => {
                self.stage = Stage::Idle;
                self.raw = None;
                self.refined = None;
                self.error = None;
                PipelineAction::NoAction
            },
            (_, _) => PipelineAction::NoAction,
        }
    }
}

/// Silence gate law: audio below the silence threshold sends a recording
/// session straight back to idle, with nothing to perform — neither
/// transcription nor refinement is ever started.
pub proof fn lemma_silence_short_circuits(m: SessionModel)
    requires
        m.stage is Recording,
    ensures
        step_spec(m, EventModel::CaptureStopped { silent: true }).0.stage is Idle,
        step_spec(m, EventModel::CaptureStopped { silent: true }).1 is NoAction,
{
}

/// English-ratio law: when the normalized transcript is judged mostly
/// English, the transcription result goes straight to injection and the
/// refinement engine is never started.
pub proof fn lemma_english_skip_goes_to_injection(m: SessionModel, t: Seq<char>)
    requires
        m.stage is Transcribing,
        should_skip_refine(normalize_spec(t)),
    ensures
        step_spec(m, EventModel::TranscriptionDone(t)).0.stage is Injecting,
        step_spec(m, EventModel::TranscriptionDone(t)).1 == ActionModel::StartInjection(
            normalize_spec(t),
        ),
{
}

/// English-ratio law, stated over the letter counts themselves: a
/// transcript whose normalized text has at least 16 ASCII letters and at
/// least nine English letters for every CJK ideograph is never handed to
/// the refinement engine; it goes straight to injection.
pub proof fn lemma_mostly_english_never_refined(m: SessionModel, t: Seq<char>)
    requires
        m.stage is Transcribing,
        ({
            let norm = normalize_spec(t);
            let e = crate::refine::count_ascii_letters(norm, norm.len() as int);
            let c = crate::refine::count_cjk_ideographs(norm, norm.len() as int);
            e >= crate::refine::ENGLISH_SKIP_MIN_LETTERS && 10 * e >= 9 * (e + c)
        }),
    ensures
        !(step_spec(m, EventModel::TranscriptionDone(t)).1 is StartRefinement),
        step_spec(m, EventModel::TranscriptionDone(t)).1 == ActionModel::StartInjection(
            normalize_spec(t),
        ),
{
    crate::refine::lemma_english_ratio_skip(normalize_spec(t));
}

/// Forward-only law: a step either resets the session to idle or never
/// moves it backwards along the pipeline.
pub proof fn lemma_stage_never_regresses(m: SessionModel, e: EventModel)
    ensures
        ({
            let next = step_spec(m, e).0;
            next.stage is Idle || stage_rank(next.stage) >= stage_rank(m.stage)
        }),
{
}

/// Same-session law: a refined transcript is derived from this session's
/// own raw transcript by the anti-overcorrection pass, never from another
/// session's text.
pub proof fn lemma_refined_from_same_session(m: SessionModel, ans: Seq<char>)
    requires
        m.stage is Refining,
        m.raw is Some,
    ensures
        ({
            let next = step_spec(m, EventModel::RefinementDone(ans)).0;
            match (next.refined, m.raw) {
                (Some(f), Some(raw)) => f == post_process(raw, ans),
                _ => false,
            }
        }),
{
}

} // verus!
