//! The streaming coordinator: the state machine that decides, for each command,
//! tick and transcript, what to publish and which text to type.
use vstd::prelude::*;
use vstd::utf8::{encode_utf8, is_char_boundary};

use crate::text::{byte_slice, common_prefix_bytes, stable_prefix_len, utf8_len};

verus! {

/// Minimum number of 16 kHz samples (one second) worth transcribing.
pub const MIN_AUDIO_SAMPLES: usize = 16000;

/// Interval between streaming transcription passes, in milliseconds.
pub const STREAM_INTERVAL_MS: u64 = 3000;

/// The coordinator's phase, as published to the shell.
#[derive(Debug, Clone, Copy, PartialEq, Eq, Structural)]
pub enum AppStatus {
    Idle,
    Recording,
    Transcribing,
}

/// User configuration read by the coordinator.
#[derive(Debug, Clone)]
pub struct Settings {
    pub model_path: String,
    pub language: String,
}

/// A command delivered to the coordinator over its channel.
#[derive(Debug, Clone)]
pub enum WorkerCmd {
    Toggle,
    UpdateSettings(Settings),
}

/// What the caller must do after a `Toggle`.
#[derive(Debug, Clone, Copy, PartialEq, Eq, Structural)]
pub enum ToggleAction {
    /// Open the recorder; report back with `recording_started` on success.
    StartRecording,
    /// Publish `Transcribing`, snapshot and stop the recorder, then `finish`.
    Finalize,
    /// Nothing to do.
    Ignore,
}

/// What the caller must do when a streaming tick fires.
#[derive(Debug, Clone, Copy, PartialEq, Eq, Structural)]
pub enum TickAction {
    Skip,
    ReportNoModel,
    Transcribe,
}

/// Abstract state of a coordinator.
pub ghost struct SessionView {
    pub phase: AppStatus,
    /// Transcript of the latest streaming pass of this session.
    pub prev: Seq<char>,
    /// Bytes already handed to the typing sink in this session.
    pub typed: nat,
    /// Everything handed to the typing sink in this session, in order.
    pub emitted: Seq<u8>,
    /// Path of the loaded model, if any.
    pub model: Option<Seq<char>>,
}

/// Byte length of the prefix that two consecutive transcripts agree on.
pub open spec fn tick_stable(prev: Seq<char>, curr: Seq<char>) -> nat {
    common_prefix_bytes(prev, curr)
}

/// Whether a streaming pass yielding `curr` types anything: the stable prefix
/// must reach past what was typed, and the typed length must fall on a
/// character boundary of `curr`.
pub open spec fn tick_emits(prev: Seq<char>, typed: nat, curr: Seq<char>) -> bool {
    tick_stable(prev, curr) > typed && is_char_boundary(encode_utf8(curr), typed as int)
}

/// The bytes that a streaming pass yielding `curr` types.
pub open spec fn tick_emission(prev: Seq<char>, typed: nat, curr: Seq<char>) -> Seq<u8> {
    encode_utf8(curr).subrange(typed as int, tick_stable(prev, curr) as int)
}

/// Typed length after a streaming pass yielding `curr`.
pub open spec fn tick_typed(prev: Seq<char>, typed: nat, curr: Seq<char>) -> nat {
    if tick_emits(prev, typed, curr) {
        tick_stable(prev, curr)
    } else {
        typed
    }
}

/// Whether the final pass yielding `text` types its untyped tail.
pub open spec fn final_emits(typed: nat, text: Seq<char>) -> bool {
    utf8_len(text) > typed && is_char_boundary(encode_utf8(text), typed as int)
}

/// The untyped tail of the final transcript.
pub open spec fn final_emission(typed: nat, text: Seq<char>) -> Seq<u8> {
    encode_utf8(text).subrange(typed as int, utf8_len(text) as int)
}

/// An event that may move the coordinator's phase.
pub ghost enum PhaseEvent {
    Toggle,
    Started,
    Tick,
    Finished,
    Reload,
}

/// Phase after `e` arrives in phase `p`.
pub open spec fn phase_after(p: AppStatus, e: PhaseEvent) -> AppStatus {
    match (p, e) {
        (AppStatus::Idle, PhaseEvent::Started) => AppStatus::Recording,
        (AppStatus::Recording, PhaseEvent::Toggle) => AppStatus::Transcribing,
        (AppStatus::Transcribing, PhaseEvent::Finished) => AppStatus::Idle,
        _ => p,
    }
}

/// The one phase that may follow `p`.
pub open spec fn cycle_next(p: AppStatus) -> AppStatus {
    match p {
        AppStatus::Idle => AppStatus::Recording,
        AppStatus::Recording => AppStatus::Transcribing,
        AppStatus::Transcribing => AppStatus::Idle,
    }
}

/// Phases passed through from `Idle` as `es` arrive: entry `i` is the phase
/// after the first `i` events.
pub open spec fn phase_trace(es: Seq<PhaseEvent>) -> Seq<AppStatus>
    decreases es.len(),
{
    if es.len() == 0 {
        seq![AppStatus::Idle]
    } else {
        let t = phase_trace(es.drop_last());
        t.push(phase_after(t.last(), es.last()))
    }
}

/// Every published phase change follows `Idle`, `Recording`, `Transcribing`,
/// `Idle` in turn: no session reaches `Transcribing` without `Recording`.
pub proof fn law_phase_follows_cycle(es: Seq<PhaseEvent>)
    ensures
        phase_trace(es).len() == es.len() + 1,
        phase_trace(es)[0] == AppStatus::Idle,
        forall|i: int|
            0 <= i < es.len() ==> phase_trace(es)[i + 1] == phase_trace(es)[i]
                || phase_trace(es)[i + 1] == cycle_next(phase_trace(es)[i]),
    decreases es.len(),
{
    if es.len() > 0 {
        law_phase_follows_cycle(es.drop_last());
        let t = phase_trace(es.drop_last());
        assert forall|i: int|
            0 <= i < es.len() implies phase_trace(es)[i + 1] == phase_trace(es)[i]
                || phase_trace(es)[i + 1] == cycle_next(phase_trace(es)[i]) by {
            if i + 1 < es.len() {
                assert(phase_trace(es)[i + 1] == t[i + 1]);
                assert(phase_trace(es)[i] == t[i]);
            }
        }
    }
}

/// Transcript held after a fresh session's streaming passes yield `ts`.
pub open spec fn ticks_prev(ts: Seq<Seq<char>>) -> Seq<char> {
    if ts.len() == 0 {
        Seq::empty()
    } else {
        ts.last()
    }
}

/// Typed length after a fresh session's streaming passes yield `ts`.
pub open spec fn ticks_typed(ts: Seq<Seq<char>>) -> nat
    decreases ts.len(),
{
    if ts.len() == 0 {
        0
    } else {
        tick_typed(ticks_prev(ts.drop_last()), ticks_typed(ts.drop_last()), ts.last())
    }
}

/// All bytes typed during a fresh session's streaming passes yielding `ts`.
pub open spec fn ticks_emitted(ts: Seq<Seq<char>>) -> Seq<u8>
    decreases ts.len(),
{
    if ts.len() == 0 {
        Seq::empty()
    } else {
        let p = ts.drop_last();
        if tick_emits(ticks_prev(p), ticks_typed(p), ts.last()) {
            ticks_emitted(p) + tick_emission(ticks_prev(p), ticks_typed(p), ts.last())
        } else {
            ticks_emitted(p)
        }
    }
}

/// All bytes typed in a session whose streaming passes yield `ts` and whose
/// final pass yields `last`.
pub open spec fn session_emitted(ts: Seq<Seq<char>>, last: Seq<char>) -> Seq<u8> {
    if final_emits(ticks_typed(ts), last) {
        ticks_emitted(ts) + final_emission(ticks_typed(ts), last)
    } else {
        ticks_emitted(ts)
    }
}

pub open spec fn is_prefix_of(a: Seq<u8>, b: Seq<u8>) -> bool {
    a.len() <= b.len() && b.take(a.len() as int) == a
}

/// No streaming transcript contradicts the text already typed before it.
pub open spec fn never_revises_typed(ts: Seq<Seq<char>>) -> bool {
    forall|i: int|
        0 <= i < ts.len() ==> is_prefix_of(ticks_emitted(ts.take(i)), encode_utf8(#[trigger] ts[i]))
}

/// The typed length never decreases from one tick to the next, and stays
/// within the latest transcript whenever that transcript is at least as long
/// as what was typed.
pub proof fn law_typed_len_between_ticks(prev: Seq<char>, typed: nat, curr: Seq<char>)
    ensures
        tick_typed(prev, typed, curr) >= typed,
        typed <= utf8_len(curr) ==> tick_typed(prev, typed, curr) <= utf8_len(curr),
{
    crate::text::law_stable_prefix_is_split_point(prev, curr);
}

/// The typed byte count is the length of everything typed.
pub proof fn lemma_ticks_emitted_len(ts: Seq<Seq<char>>)
    ensures
        ticks_emitted(ts).len() == ticks_typed(ts),
    decreases ts.len(),
{
    if ts.len() > 0 {
        let p = ts.drop_last();
        lemma_ticks_emitted_len(p);
        crate::text::law_stable_prefix_is_split_point(ticks_prev(p), ts.last());
    }
}

/// While no transcript revises what was typed, everything typed in the session
/// is a prefix of the latest transcript.
pub proof fn law_typed_text_prefix_of_latest(ts: Seq<Seq<char>>)
    requires
        never_revises_typed(ts),
    ensures
        is_prefix_of(ticks_emitted(ts), encode_utf8(ticks_prev(ts))),
{
    if ts.len() == 0 {
        assert(encode_utf8(ticks_prev(ts)).take(0) =~= ticks_emitted(ts));
    } else {
        let n = ts.len() - 1;
        assert(ts.take(n) == ts.drop_last());
        assert(is_prefix_of(ticks_emitted(ts.drop_last()), encode_utf8(ts[n])));
        lemma_last_tick_keeps_prefix(ts.drop_last(), ts[n]);
        assert(ts.drop_last().push(ts[n]) =~= ts);
    }
}

/// One more tick whose transcript keeps the typed text leaves everything typed
/// a prefix of that transcript.
proof fn lemma_last_tick_keeps_prefix(p: Seq<Seq<char>>, c: Seq<char>)
    requires
        is_prefix_of(ticks_emitted(p), encode_utf8(c)),
    ensures
        is_prefix_of(ticks_emitted(p.push(c)), encode_utf8(c)),
{
    let ts = p.push(c);
    assert(ts.drop_last() =~= p);
    assert(ts.last() == c);
    lemma_ticks_emitted_len(p);
    crate::text::law_stable_prefix_is_split_point(ticks_prev(p), c);
    let e = encode_utf8(c);
    assert(ticks_emitted(p) =~= e.take(ticks_typed(p) as int));
    if tick_emits(ticks_prev(p), ticks_typed(p), c) {
        let st = tick_stable(ticks_prev(p), c) as int;
        assert(ticks_emitted(ts) =~= e.take(st));
    }
}

/// Everything typed in a session, the final tail included, is a prefix of the
/// final transcript whenever that transcript keeps the text typed while
/// streaming.
pub proof fn law_typed_text_prefix_of_final(ts: Seq<Seq<char>>, last: Seq<char>)
    requires
        is_prefix_of(ticks_emitted(ts), encode_utf8(last)),
    ensures
        is_prefix_of(session_emitted(ts, last), encode_utf8(last)),
{
    lemma_ticks_emitted_len(ts);
    if final_emits(ticks_typed(ts), last) {
        assert(session_emitted(ts, last) =~= encode_utf8(last).take(utf8_len(last) as int));
    }
}

/// The coordinator of one recorder and one model.
pub struct Coordinator {
    phase: AppStatus,
    prev_text: String,
    typed_len: usize,
    model_path: Option<String>,
    emitted: Ghost<Seq<u8>>,
}

impl View for Coordinator {
    type V = SessionView;

    closed spec fn view(&self) -> SessionView {
        SessionView {
            phase: self.phase,
            prev: self.prev_text@,
            typed: self.typed_len as nat,
            emitted: self.emitted@,
            model: match self.model_path {
                Some(p) => Some(p@),
                None => None,
            },
        }
    }
}

impl Coordinator {
    /// The session invariant: the typed length counts exactly the bytes
    /// emitted, and outside a session nothing is held.
    pub open spec fn wf(&self) -> bool {
        &&& self@.emitted.len() == self@.typed
        &&& self@.typed <= usize::MAX
        &&& self@.phase == AppStatus::Idle ==> self@.prev.len() == 0 && self@.typed == 0
        &&& self@.phase == AppStatus::Idle ==> self@.emitted.len() == 0
    }

    /// A coordinator with no model and no session.
    pub fn new() -> (r: Self)
        ensures
            r.wf(),
            r@.phase == AppStatus::Idle,
            r@.prev.len() == 0,
            r@.typed == 0,
            r@.model is None,
    {
        Coordinator {
            phase: AppStatus::Idle,
            prev_text: String::new(),
            typed_len: 0,
            model_path: None,
            emitted: Ghost(Seq::empty()),
        }
    }

    pub fn phase(&self) -> (r: AppStatus)
        ensures
            r == self@.phase,
    {
        self.phase
    }

    pub fn prev_text(&self) -> (r: &str)
        ensures
            r@ == self@.prev,
    {
        self.prev_text.as_str()
    }

    pub fn typed_len(&self) -> (r: usize)
        ensures
            r == self@.typed,
    {
        self.typed_len
    }

    /// Whether streaming ticks are due (the command wait is timed).
    pub fn is_recording(&self) -> (r: bool)
        ensures
            r == (self@.phase == AppStatus::Recording),
    {
        self.phase == AppStatus::Recording
    }

    /// Handles `Toggle`: starting is requested from `Idle`, finalization
    /// begins from `Recording`, and `Transcribing` ignores it.
    pub fn toggle(&mut self) -> (r: ToggleAction)
        requires
            old(self).wf(),
        ensures
            final(self).wf(),
            final(self)@.phase == phase_after(old(self)@.phase, PhaseEvent::Toggle),
            old(self)@.phase == AppStatus::Idle ==> r == ToggleAction::StartRecording && final(self)@
                == old(self)@,
            old(self)@.phase == AppStatus::Recording ==> r == ToggleAction::Finalize && final(self)@
                == (SessionView { phase: AppStatus::Transcribing, ..old(self)@ }),
            old(self)@.phase == AppStatus::Transcribing ==> r == ToggleAction::Ignore && final(self)@
                == old(self)@,
    {
        match self.phase {
            AppStatus::Idle => ToggleAction::StartRecording,
            AppStatus::Recording => {
                self.phase = AppStatus::Transcribing;
                ToggleAction::Finalize
            },
            AppStatus::Transcribing => ToggleAction::Ignore,
        }
    }

    /// The recorder started: a fresh session begins in `Recording`.
    pub fn recording_started(&mut self)
        requires
            old(self).wf(),
            old(self)@.phase == AppStatus::Idle,
        ensures
            final(self).wf(),
            final(self)@.phase == AppStatus::Recording,
            final(self)@.phase == phase_after(old(self)@.phase, PhaseEvent::Started),
            final(self)@.prev.len() == 0,
            final(self)@.typed == 0,
            final(self)@.emitted.len() == 0,
            final(self)@.model == old(self)@.model,
    {
        self.prev_text = String::new();
        self.typed_len = 0;
        self.emitted = Ghost(Seq::empty());
        self.phase = AppStatus::Recording;
    }

    /// Decides a streaming tick over `audio_len` captured samples.
    pub fn tick_action(&self, audio_len: usize) -> (r: TickAction)
        ensures
            r == (if self@.phase != AppStatus::Recording || audio_len < MIN_AUDIO_SAMPLES {
                TickAction::Skip
            } else if self@.model is None {
                TickAction::ReportNoModel
            } else {
                TickAction::Transcribe
            }),
    {
        if self.phase != AppStatus::Recording || audio_len < MIN_AUDIO_SAMPLES {
            TickAction::Skip
        } else if self.model_path.is_none() {
            TickAction::ReportNoModel
        } else {
            TickAction::Transcribe
        }
    }

    /// Takes the transcript of a streaming pass and returns the text to type:
    /// the part of the stable prefix not typed yet.
    pub fn on_tick(&mut self, transcript: String) -> (r: Option<String>)
        requires
            old(self).wf(),
            old(self)@.phase == AppStatus::Recording,
        ensures
            final(self).wf(),
            final(self)@.phase == AppStatus::Recording,
            final(self)@.phase == phase_after(old(self)@.phase, PhaseEvent::Tick),
            final(self)@.model == old(self)@.model,
            final(self)@.prev == transcript@,
            final(self)@.typed == tick_typed(old(self)@.prev, old(self)@.typed, transcript@),
            r is Some <==> tick_emits(old(self)@.prev, old(self)@.typed, transcript@),
            r is Some ==> encode_utf8(r->0@) == tick_emission(
                old(self)@.prev,
                old(self)@.typed,
                transcript@,
            ),
            final(self)@.emitted == (if r is Some {
                old(self)@.emitted + encode_utf8(r->0@)
            } else {
                old(self)@.emitted
            }),
            final(self)@.typed >= old(self)@.typed,
    {
        let stable = stable_prefix_len(self.prev_text.as_str(), transcript.as_str());
        proof {
            crate::text::law_stable_prefix_is_split_point(self.prev_text@, transcript@);
        }
        let mut out: Option<String> = None;
        if stable > self.typed_len {
            out = byte_slice(transcript.as_str(), self.typed_len, stable);
            match &out {
                Some(s) => {
                    self.typed_len = stable;
                    self.emitted = Ghost(self.emitted@ + encode_utf8(s@));
                },
                None => {},
            }
        }
        self.prev_text = transcript;
        out
    }

    /// Whether the final pass over `audio_len` samples runs a transcription.
    pub fn should_transcribe_final(&self, audio_len: usize) -> (r: bool)
        ensures
            r == (self@.phase == AppStatus::Transcribing && audio_len >= MIN_AUDIO_SAMPLES
                && self@.model is Some),
    {
        self.phase == AppStatus::Transcribing && audio_len >= MIN_AUDIO_SAMPLES
            && self.model_path.is_some()
    }

    /// Ends the session: returns the untyped tail of the final transcript, if
    /// any, and goes back to `Idle`.
    pub fn finish(&mut self, transcript: Option<&str>) -> (r: Option<String>)
        requires
            old(self).wf(),
            old(self)@.phase == AppStatus::Transcribing,
        ensures
            final(self).wf(),
            final(self)@.phase == AppStatus::Idle,
            final(self)@.phase == phase_after(old(self)@.phase, PhaseEvent::Finished),
            final(self)@.model == old(self)@.model,
            r is Some <==> (transcript is Some && final_emits(old(self)@.typed, transcript->0@)),
            r is Some ==> encode_utf8(r->0@) == final_emission(old(self)@.typed, transcript->0@),
    {
        let out = match transcript {
            Some(t) => {
                let n = t.as_bytes().len();
                proof {
                    vstd::utf8::encode_utf8_valid_utf8(t@);
                    vstd::utf8::is_char_boundary_start_end_of_seq(encode_utf8(t@));
                }
                if n > self.typed_len {
                    byte_slice(t, self.typed_len, n)
                } else {
                    None
                }
            },
            None => None,
        };
        self.prev_text = String::new();
        self.typed_len = 0;
        self.emitted = Ghost(Seq::empty());
        self.phase = AppStatus::Idle;
        out
    }

    /// Whether `UpdateSettings` naming `new_path` loads a model: only a path
    /// that exists and differs from the loaded model's.
    pub fn should_reload(&self, new_path: &str, exists: bool) -> (r: bool)
        ensures
            r == (exists && self@.model != Some(new_path@)),
    {
        if !exists {
            return false;
        }
        match &self.model_path {
            Some(p) => {
                let candidate = new_path.to_owned();
                !p.eq(&candidate)
            },
            None => true,
        }
    }

    /// A model was loaded from `path`; the session is untouched.
    pub fn model_loaded(&mut self, path: String)
        requires
            old(self).wf(),
        ensures
            final(self).wf(),
            final(self)@ == (SessionView { model: Some(path@), ..old(self)@ }),
            final(self)@.phase == phase_after(old(self)@.phase, PhaseEvent::Reload),
    {
        self.model_path = Some(path);
    }
}

} // verus!
