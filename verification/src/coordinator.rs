//! The transcription pipeline's lifecycle, decided on one thread.
//!
//! Keyboard shortcuts, signals and the asynchronous transcribe-and-paste
//! pipeline all report to a single coordinator, which owns the pipeline stage
//! (`Idle`, `Recording(binding)`, `Processing`). This module holds the
//! coordinator's decisions as a state machine over plain values: the thread
//! that receives the commands, runs the start/stop actions and reads the clock
//! feeds each event to a `CoordinatorState` and performs what it answers.
//!
//! Timestamps are monotonic nanoseconds.

use vstd::prelude::*;
use vstd::string::*;
use crate::clock::{elapsed, saturating_diff};
use crate::text::str_eq;
use std::sync::mpsc::Sender;

verus! {

/// Presses of a transcription binding closer together than this (key repeat,
/// double taps) are dropped.
pub const DEBOUNCE_NS: u64 = 30_000_000;

/// Nanoseconds per millisecond, for the durations that are reported.
pub const NS_PER_MS: u64 = 1_000_000;

/// Pipeline lifecycle, owned exclusively by the coordinator.
pub enum Stage {
    Idle,
    /// Recording for the binding with this id.
    Recording(String),
    Processing,
}

/// The mathematical value of a [`Stage`].
pub enum StageView {
    Idle,
    Recording(Seq<char>),
    Processing,
}

impl View for Stage {
    type V = StageView;

    open spec fn view(&self) -> StageView {
        match self {
            Stage::Idle => StageView::Idle,
            Stage::Recording(id) => StageView::Recording(id@),
            Stage::Processing => StageView::Processing,
        }
    }
}

/// Commands processed sequentially by the coordinator thread.
pub enum Command {
    Input {
        binding_id: String,
        hotkey_string: String,
        is_pressed: bool,
        /// `None`: resolve from the user's settings on the coordinator
        /// thread. `Some(false)`: signal/CLI toggles, always toggle-mode.
        push_to_talk: Option<bool>,
    },
    Cancel { recording_was_active: bool },
    ProcessingFinished,
    /// Bypasses the Processing-state guard that blocks `Cancel`.
    ForceIdle,
}

impl Command {
    /// The input command for a key event of a transcription binding.
    pub fn input(binding_id: &str, hotkey_string: &str, is_pressed: bool, push_to_talk: Option<bool>) -> (c: Command)
        ensures
            c matches Command::Input { binding_id: b, hotkey_string: h, is_pressed: p, push_to_talk: t }
                && b@ == binding_id@ && h@ == hotkey_string@ && p == is_pressed && t == push_to_talk,
    {
        Command::Input {
            binding_id: String::from_str(binding_id),
            hotkey_string: String::from_str(hotkey_string),
            is_pressed,
            push_to_talk,
        }
    }
}

/// What the coordinator does with an input event once it has been let through.
#[derive(Clone, Copy, PartialEq, Eq, Structural, Debug)]
pub enum InputDecision {
    /// A press too soon after the previous accepted press: dropped.
    Debounced,
    /// Run the binding's start action.
    Start,
    /// Run the binding's stop action.
    Stop,
    /// A toggle press while the pipeline is busy with something else: ignored.
    Busy,
    /// Nothing to do for this event.
    Ignored,
}

/// How a start action went.
#[derive(Clone, Copy, PartialEq, Eq, Structural, Debug)]
pub enum StartOutcome {
    /// No action is registered for the binding.
    Unbound,
    /// The action ran; `recording` tells whether the recorder is now running.
    Ran { recording: bool },
}

/// How a stop action went.
#[derive(Clone, Copy, PartialEq, Eq, Structural, Debug)]
pub enum StopOutcome {
    /// No action is registered for the binding.
    Unbound,
    /// The action ran.
    Ran,
}

/// The coordinator's state: the stage, the time of the last accepted press
/// and, while processing, when processing began.
pub struct CoordinatorState {
    pub stage: Stage,
    pub last_press: Option<u64>,
    pub processing_started: Option<u64>,
}

/// The mathematical value of a [`CoordinatorState`].
pub struct CoordinatorView {
    pub stage: StageView,
    pub last_press: Option<u64>,
    pub processing_started: Option<u64>,
}

impl View for CoordinatorState {
    type V = CoordinatorView;

    open spec fn view(&self) -> CoordinatorView {
        CoordinatorView {
            stage: self.stage@,
            last_press: self.last_press,
            processing_started: self.processing_started,
        }
    }
}

/// The processing timer runs exactly while the pipeline is processing.
pub open spec fn timer_tracks_stage(s: CoordinatorView) -> bool {
    s.processing_started is Some <==> s.stage is Processing
}

/// A press at `now` comes too soon after the last accepted press.
pub open spec fn is_debounced(last_press: Option<u64>, now: u64) -> bool {
    match last_press {
        Some(t) => saturating_diff(now, t) < DEBOUNCE_NS,
        None => false,
    }
}

/// The decision for an event that passed the debounce.
pub open spec fn decide_input(stage: StageView, binding: Seq<char>, is_pressed: bool, push_to_talk: bool) -> InputDecision {
    if push_to_talk {
        if is_pressed && stage is Idle {
            InputDecision::Start
        } else if !is_pressed && stage == StageView::Recording(binding) {
            InputDecision::Stop
        } else {
            InputDecision::Ignored
        }
    } else if is_pressed {
        match stage {
            StageView::Idle => InputDecision::Start,
            StageView::Recording(id) => if id == binding { InputDecision::Stop } else { InputDecision::Busy },
            StageView::Processing => InputDecision::Busy,
        }
    } else {
        InputDecision::Ignored
    }
}

/// State and decision after an input event.
pub open spec fn after_input(s: CoordinatorView, binding: Seq<char>, is_pressed: bool, push_to_talk: bool, now: u64) -> (CoordinatorView, InputDecision) {
    if is_pressed && is_debounced(s.last_press, now) {
        (s, InputDecision::Debounced)
    } else {
        (
            CoordinatorView { last_press: if is_pressed { Some(now) } else { s.last_press }, ..s },
            decide_input(s.stage, binding, is_pressed, push_to_talk),
        )
    }
}

/// State after a start action for `binding` ran with `outcome`.
pub open spec fn after_start(s: CoordinatorView, binding: Seq<char>, outcome: StartOutcome) -> CoordinatorView {
    match outcome {
        StartOutcome::Ran { recording: true } => CoordinatorView { stage: StageView::Recording(binding), ..s },
        _ => s,
    }
}

/// State after a stop action ran with `outcome`, finishing at `now`.
pub open spec fn after_stop(s: CoordinatorView, outcome: StopOutcome, now: u64) -> CoordinatorView {
    match outcome {
        StopOutcome::Ran => CoordinatorView { stage: StageView::Processing, processing_started: Some(now), ..s },
        StopOutcome::Unbound => s,
    }
}

/// Whether a cancel resets the pipeline: never while processing, otherwise
/// when a recording was active or the stage is recording.
pub open spec fn cancel_resets(s: CoordinatorView, recording_was_active: bool) -> bool {
    !(s.stage is Processing) && (recording_was_active || s.stage is Recording)
}

/// State after a cancel.
pub open spec fn after_cancel(s: CoordinatorView, recording_was_active: bool) -> CoordinatorView {
    if cancel_resets(s, recording_was_active) {
        CoordinatorView { stage: StageView::Idle, ..s }
    } else {
        s
    }
}

/// Milliseconds since `started` at `now`, if the timer runs.
pub open spec fn elapsed_ms(started: Option<u64>, now: u64) -> Option<u64> {
    match started {
        Some(t) => Some((saturating_diff(now, t) / NS_PER_MS) as u64),
        None => None,
    }
}

/// State after the pipeline is put back to idle (processing finished, or forced).
pub open spec fn after_reset(s: CoordinatorView) -> CoordinatorView {
    CoordinatorView { stage: StageView::Idle, processing_started: None, ..s }
}

impl CoordinatorState {
    /// The coordinator's state at start-up: idle, no press seen yet.
    pub fn new() -> (s: CoordinatorState)
        ensures
            s@ == (CoordinatorView { stage: StageView::Idle, last_press: None, processing_started: None }),
            timer_tracks_stage(s@),
    {
        CoordinatorState { stage: Stage::Idle, last_press: None, processing_started: None }
    }

    /// The stage is `Idle`.
    pub fn is_idle(&self) -> (r: bool)
        ensures
            r == (self@.stage is Idle),
    {
        match self.stage {
            Stage::Idle => true,
            _ => false,
        }
    }

    /// The stage is `Recording` for the binding `binding_id`.
    pub fn is_recording_for(&self, binding_id: &str) -> (r: bool)
        ensures
            r == (self@.stage == StageView::Recording(binding_id@)),
    {
        match &self.stage {
            Stage::Recording(id) => str_eq(id.as_str(), binding_id),
            _ => false,
        }
    }

    /// Takes a key event of a transcription binding at `now` (push-to-talk
    /// already resolved). Presses closer than `DEBOUNCE_NS` to the previous
    /// accepted press are dropped; releases always pass. Push-to-talk starts
    /// on a press while idle and stops on the release of the recording
    /// binding; toggle mode starts on a press while idle and stops on a press
    /// of the recording binding. The stage itself changes only when the
    /// start or stop action has run (`complete_start`, `complete_stop`).
    pub fn on_input(&mut self, binding_id: &str, is_pressed: bool, push_to_talk: bool, now: u64) -> (d: InputDecision)
        ensures
            (final(self)@, d) == after_input(old(self)@, binding_id@, is_pressed, push_to_talk, now),
            timer_tracks_stage(old(self)@) ==> timer_tracks_stage(final(self)@),
    {
        if is_pressed {
            let debounced = match self.last_press {
                Some(t) => {
                    let gap: u64 = elapsed(now, t);
                    gap < DEBOUNCE_NS
                },
                None => false,
            };
            if debounced {
                return InputDecision::Debounced;
            }
            self.last_press = Some(now);
        }
        if push_to_talk {
            if is_pressed && self.is_idle() {
                InputDecision::Start
            } else if !is_pressed && self.is_recording_for(binding_id) {
                InputDecision::Stop
            } else {
                InputDecision::Ignored
            }
        } else if is_pressed {
            if self.is_idle() {
                InputDecision::Start
            } else if self.is_recording_for(binding_id) {
                InputDecision::Stop
            } else {
                InputDecision::Busy
            }
        } else {
            InputDecision::Ignored
        }
    }

    /// Records how the start action for `binding_id` went: the stage becomes
    /// `Recording(binding_id)` when the recorder is running afterwards.
    /// Returns whether the stage is to be published (the action ran).
    pub fn complete_start(&mut self, binding_id: &str, outcome: StartOutcome) -> (publish: bool)
        ensures
            final(self)@ == after_start(old(self)@, binding_id@, outcome),
            publish == (outcome is Ran),
            timer_tracks_stage(old(self)@) && !(old(self)@.stage is Processing) ==> timer_tracks_stage(final(self)@),
    {
        match outcome {
            StartOutcome::Unbound => false,
            StartOutcome::Ran { recording } => {
                if recording {
                    self.stage = Stage::Recording(String::from_str(binding_id));
                }
                true
            },
        }
    }

    /// Records how the stop action went, finishing at `now`: the pipeline
    /// is processing from then on. Returns whether the stage is to be
    /// published (the action ran).
    pub fn complete_stop(&mut self, outcome: StopOutcome, now: u64) -> (publish: bool)
        ensures
            final(self)@ == after_stop(old(self)@, outcome, now),
            publish == (outcome is Ran),
            timer_tracks_stage(old(self)@) ==> timer_tracks_stage(final(self)@),
    {
        match outcome {
            StopOutcome::Unbound => false,
            StopOutcome::Ran => {
                self.processing_started = Some(now);
                self.stage = Stage::Processing;
                true
            },
        }
    }

    /// A cancel: back to `Idle` unless processing (wait for the pipeline to
    /// finish), and only when a recording was active or the stage is
    /// recording. Returns whether the stage was reset (and is to be published).
    pub fn on_cancel(&mut self, recording_was_active: bool) -> (reset: bool)
        ensures
            final(self)@ == after_cancel(old(self)@, recording_was_active),
            reset == cancel_resets(old(self)@, recording_was_active),
            timer_tracks_stage(old(self)@) ==> timer_tracks_stage(final(self)@),
    {
        let resets = match self.stage {
            Stage::Processing => false,
            Stage::Recording(_) => true,
            Stage::Idle => recording_was_active,
        };
        if resets {
            self.stage = Stage::Idle;
        }
        resets
    }

    /// The pipeline finished processing at `now`: back to `Idle`. Returns
    /// how long processing took in milliseconds (0 when no timer ran).
    pub fn on_processing_finished(&mut self, now: u64) -> (took_ms: u64)
        ensures
            final(self)@ == after_reset(old(self)@),
            took_ms == match elapsed_ms(old(self)@.processing_started, now) {
                Some(ms) => ms,
                None => 0u64,
            },
            timer_tracks_stage(final(self)@),
    {
        let took = self.stop_timer(now);
        self.stage = Stage::Idle;
        match took {
            Some(ms) => ms,
            None => 0,
        }
    }

    /// Forces the pipeline back to `Idle` from any stage, processing
    /// included. Returns how long processing had run, if it was running.
    pub fn on_force_idle(&mut self, now: u64) -> (took_ms: Option<u64>)
        ensures
            final(self)@ == after_reset(old(self)@),
            took_ms == elapsed_ms(old(self)@.processing_started, now),
            timer_tracks_stage(final(self)@),
    {
        let took = self.stop_timer(now);
        self.stage = Stage::Idle;
        took
    }

    fn stop_timer(&mut self, now: u64) -> (took_ms: Option<u64>)
        ensures
            final(self)@ == (CoordinatorView { processing_started: None, ..old(self)@ }),
            took_ms == elapsed_ms(old(self)@.processing_started, now),
    {
        match self.processing_started.take() {
            Some(t) => {
                let gap: u64 = elapsed(now, t);
                Some(gap / NS_PER_MS)
            },
            None => None,
        }
    }
}

/// The label under which a stage is reported.
pub open spec fn stage_label_spec(stage: StageView) -> Seq<char> {
    match stage {
        StageView::Idle => "Idle"@,
        StageView::Recording(_) => "Recording"@,
        StageView::Processing => "Processing"@,
    }
}

/// The code under which a stage is mirrored into the watchdog:
/// 0 = Idle, 1 = Recording, 2 = Processing.
pub open spec fn stage_code_spec(stage: StageView) -> u8 {
    match stage {
        StageView::Idle => 0,
        StageView::Recording(_) => 1,
        StageView::Processing => 2,
    }
}

/// The label under which a stage is reported in logs.
pub fn stage_label(stage: &Stage) -> (label: &'static str)
    ensures
        label@ == stage_label_spec(stage@),
{
    match stage {
        Stage::Idle => "Idle",
        Stage::Recording(_) => "Recording",
        Stage::Processing => "Processing",
    }
}

/// The code that mirrors a stage into the watchdog, so stall reports can
/// say what the pipeline was doing.
pub fn stage_code(stage: &Stage) -> (code: u8)
    ensures
        code == stage_code_spec(stage@),
{
    match stage {
        Stage::Idle => 0,
        Stage::Recording(_) => 1,
        Stage::Processing => 2,
    }
}

/// Whether a binding is one of the transcription bindings that the
/// coordinator handles.
pub open spec fn is_transcribe_binding_spec(id: Seq<char>) -> bool {
    id == "transcribe"@ || id == "transcribe_with_post_process"@
}

/// Whether `id` names a transcription binding (`transcribe` or
/// `transcribe_with_post_process`).
pub fn is_transcribe_binding(id: &str) -> (r: bool)
    ensures
        r == is_transcribe_binding_spec(id@),
{
    str_eq(id, "transcribe") || str_eq(id, "transcribe_with_post_process")
}

#[verifier::external_type_specification]
#[verifier::external_body]
#[verifier::reject_recursive_types(T)]
pub struct ExSender<T>(std::sync::mpsc::Sender<T>);

/// Hands `command` to the coordinator thread with
/// `std::sync::mpsc::Sender::send`. The result tells whether the channel took
/// it, which depends only on whether the receiving thread is still alive, so
/// nothing is promised about it.
#[verifier::external_body]
fn deliver(tx: &Sender<Command>, command: Command) -> (accepted: bool) {
    tx.send(command).is_ok()
}

/// Serialises all transcription lifecycle events through a single thread to
/// eliminate race conditions between keyboard shortcuts, signals and the
/// asynchronous transcribe-and-paste pipeline: every notification is a
/// `Command` sent to the thread that owns the `CoordinatorState`.
pub struct TranscriptionCoordinator {
    tx: Sender<Command>,
}

impl TranscriptionCoordinator {
    /// The sending end that the handle holds.
    pub closed spec fn sender(&self) -> Sender<Command> {
        self.tx
    }

    /// A coordinator handle that sends to the thread reading from the other
    /// end of `tx`.
    pub fn new(tx: Sender<Command>) -> (c: TranscriptionCoordinator)
        ensures
            c.sender() == tx,
    {
        TranscriptionCoordinator { tx }
    }

    /// Sends a keyboard/signal input event for a transcription binding.
    /// `push_to_talk`: `None` resolves the user's setting on the coordinator
    /// thread; signal/CLI toggles pass `Some(false)` (always toggle mode).
    /// Returns whether the channel took the command (`false` once the
    /// coordinator thread has exited), for the caller to report.
    pub fn send_input(&self, binding_id: &str, hotkey_string: &str, is_pressed: bool, push_to_talk: Option<bool>) -> (delivered: bool) {
        let command = Command::input(binding_id, hotkey_string, is_pressed, push_to_talk);
        deliver(&self.tx, command)
    }

    /// Tells the coordinator that the recording was cancelled. Returns
    /// whether the channel took the command.
    pub fn notify_cancel(&self, recording_was_active: bool) -> (delivered: bool) {
        deliver(&self.tx, Command::Cancel { recording_was_active })
    }

    /// Tells the coordinator that the pipeline finished processing. Returns
    /// whether the channel took the command.
    pub fn notify_processing_finished(&self) -> (delivered: bool) {
        deliver(&self.tx, Command::ProcessingFinished)
    }

    /// Forces the coordinator back to `Idle`, bypassing the guard that
    /// normally blocks `Cancel` while processing; the recovery when the
    /// pipeline is stuck. Returns whether the channel took the command.
    pub fn force_idle(&self) -> (delivered: bool) {
        deliver(&self.tx, Command::ForceIdle)
    }
}

/// One event as the coordinator thread handles it: an input together with
/// the outcome of the start or stop action it may trigger (the stop action
/// finishing at `stopped_at`), a cancel, the end of processing, or a forced
/// reset.
pub enum CoordinatorEvent {
    Input {
        binding: Seq<char>,
        is_pressed: bool,
        push_to_talk: bool,
        now: u64,
        start: StartOutcome,
        stop: StopOutcome,
        stopped_at: u64,
    },
    Cancel { recording_was_active: bool },
    ProcessingFinished,
    ForceIdle,
}

/// An input handled to the end: the decision and, for `Start` or `Stop`,
/// the completion of the action with its outcome.
pub open spec fn input_cycle(
    s: CoordinatorView,
    binding: Seq<char>,
    is_pressed: bool,
    push_to_talk: bool,
    now: u64,
    start: StartOutcome,
    stop: StopOutcome,
    stopped_at: u64,
) -> (CoordinatorView, InputDecision) {
    let (s1, d) = after_input(s, binding, is_pressed, push_to_talk, now);
    match d {
        InputDecision::Start => (after_start(s1, binding, start), d),
        InputDecision::Stop => (after_stop(s1, stop, stopped_at), d),
        _ => (s1, d),
    }
}

/// The coordinator's state after handling `ev`.
pub open spec fn step(s: CoordinatorView, ev: CoordinatorEvent) -> CoordinatorView {
    match ev {
        CoordinatorEvent::Input { binding, is_pressed, push_to_talk, now, start, stop, stopped_at } =>
            input_cycle(s, binding, is_pressed, push_to_talk, now, start, stop, stopped_at).0,
        CoordinatorEvent::Cancel { recording_was_active } => after_cancel(s, recording_was_active),
        CoordinatorEvent::ProcessingFinished => after_reset(s),
        CoordinatorEvent::ForceIdle => after_reset(s),
    }
}

/// Every event the coordinator handles keeps the processing timer in step
/// with the stage: the timer runs exactly while the pipeline is processing.
pub proof fn law_timer_tracks_stage(s: CoordinatorView, ev: CoordinatorEvent)
    requires
        timer_tracks_stage(s),
    ensures
        timer_tracks_stage(step(s, ev)),
{
}

/// A start is only ever decided from `Idle`, and a stop only for the
/// binding that is recording.
pub proof fn law_start_from_idle_stop_own_binding(s: CoordinatorView, binding: Seq<char>, is_pressed: bool, push_to_talk: bool, now: u64)
    ensures
        after_input(s, binding, is_pressed, push_to_talk, now).1 == InputDecision::Start ==> s.stage is Idle,
        after_input(s, binding, is_pressed, push_to_talk, now).1 == InputDecision::Stop ==> s.stage == StageView::Recording(binding),
{
}

/// While one binding records, events of any other binding never change
/// the stage.
pub proof fn law_other_binding_cannot_stop(
    s: CoordinatorView,
    recording: Seq<char>,
    binding: Seq<char>,
    is_pressed: bool,
    push_to_talk: bool,
    now: u64,
    start: StartOutcome,
    stop: StopOutcome,
    stopped_at: u64,
)
    requires
        s.stage == StageView::Recording(recording),
        binding != recording,
    ensures
        input_cycle(s, binding, is_pressed, push_to_talk, now, start, stop, stopped_at).0.stage == s.stage,
{
}

/// Releases are never debounced and never touch the press timestamp.
pub proof fn law_releases_pass_debounce(s: CoordinatorView, binding: Seq<char>, push_to_talk: bool, now: u64)
    ensures
        after_input(s, binding, false, push_to_talk, now).1 != InputDecision::Debounced,
        after_input(s, binding, false, push_to_talk, now).0 == s,
{
}

/// After an accepted press at `t1`, and whatever its action did, any press
/// at `t2` within `DEBOUNCE_NS` after it is dropped and changes nothing.
pub proof fn law_debounce_window(
    s: CoordinatorView,
    b1: Seq<char>,
    ptt1: bool,
    t1: u64,
    start1: StartOutcome,
    stop1: StopOutcome,
    stopped_at1: u64,
    b2: Seq<char>,
    ptt2: bool,
    t2: u64,
    start2: StartOutcome,
    stop2: StopOutcome,
    stopped_at2: u64,
)
    requires
        input_cycle(s, b1, true, ptt1, t1, start1, stop1, stopped_at1).1 != InputDecision::Debounced,
        t1 <= t2,
        t2 - t1 < DEBOUNCE_NS,
    ensures
        ({
            let s1 = input_cycle(s, b1, true, ptt1, t1, start1, stop1, stopped_at1).0;
            input_cycle(s1, b2, true, ptt2, t2, start2, stop2, stopped_at2) == (s1, InputDecision::Debounced)
        }),
{
}

/// Push-to-talk: from `Idle`, a press starts recording for the binding
/// (when the recorder comes up) and its release stops it, after which the
/// pipeline is processing.
pub proof fn law_push_to_talk_press_then_release(s: CoordinatorView, binding: Seq<char>, t1: u64, t2: u64, stop: StopOutcome, stopped_at: u64)
    requires
        s.stage is Idle,
        !is_debounced(s.last_press, t1),
    ensures
        ({
            let (s1, d1) = input_cycle(s, binding, true, true, t1, StartOutcome::Ran { recording: true }, stop, stopped_at);
            let (s2, d2) = input_cycle(s1, binding, false, true, t2, StartOutcome::Unbound, StopOutcome::Ran, stopped_at);
            &&& d1 == InputDecision::Start
            &&& s1.stage == StageView::Recording(binding)
            &&& d2 == InputDecision::Stop
            &&& s2.stage is Processing
            &&& s2.processing_started == Some(stopped_at)
        }),
{
}

/// Toggle mode: from `Idle`, a press starts recording for the binding and a
/// second press of the same binding, once out of the debounce window,
/// stops it.
pub proof fn law_toggle_press_twice(s: CoordinatorView, binding: Seq<char>, t1: u64, t2: u64, stopped_at: u64)
    requires
        s.stage is Idle,
        !is_debounced(s.last_press, t1),
        t2 >= t1 + DEBOUNCE_NS,
    ensures
        ({
            let (s1, d1) = input_cycle(s, binding, true, false, t1, StartOutcome::Ran { recording: true }, StopOutcome::Ran, stopped_at);
            let (s2, d2) = input_cycle(s1, binding, true, false, t2, StartOutcome::Unbound, StopOutcome::Ran, stopped_at);
            &&& d1 == InputDecision::Start
            &&& s1.stage == StageView::Recording(binding)
            &&& d2 == InputDecision::Stop
            &&& s2.stage is Processing
        }),
{
}

/// A cancel never interrupts processing; a forced reset always returns to
/// `Idle`, from processing too.
pub proof fn law_force_idle_bypasses_cancel_guard(s: CoordinatorView, recording_was_active: bool)
    requires
        s.stage is Processing,
    ensures
        step(s, CoordinatorEvent::Cancel { recording_was_active }) == s,
        step(s, CoordinatorEvent::ForceIdle).stage is Idle,
        step(s, CoordinatorEvent::ForceIdle).processing_started is None,
{
}

/// Push-to-talk: a press starts a recording from `Idle` and otherwise does
/// nothing (a held key's repeated press never stops the recording); a
/// release stops the recording exactly when it is the recording binding's,
/// and otherwise does nothing.
pub proof fn law_push_to_talk_stops_only_on_release(s: CoordinatorView, binding: Seq<char>, now: u64)
    ensures
        after_input(s, binding, true, true, now).1 != InputDecision::Stop,
        after_input(s, binding, true, true, now).1 != InputDecision::Busy,
        !is_debounced(s.last_press, now) ==> (after_input(s, binding, true, true, now).1 == InputDecision::Start <==> s.stage is Idle),
        !is_debounced(s.last_press, now) && !(s.stage is Idle) ==> after_input(s, binding, true, true, now).1 == InputDecision::Ignored,
        after_input(s, binding, false, true, now).1 == InputDecision::Stop <==> s.stage == StageView::Recording(binding),
        after_input(s, binding, false, true, now).1 != InputDecision::Stop ==> after_input(s, binding, false, true, now).1 == InputDecision::Ignored,
{
}

/// Toggle mode: a release never does anything; a press (out of the
/// debounce window) starts from `Idle`, stops the binding's own recording,
/// and is refused as busy otherwise.
pub proof fn law_toggle_decisions(s: CoordinatorView, binding: Seq<char>, now: u64)
    ensures
        after_input(s, binding, false, false, now).1 == InputDecision::Ignored,
        !is_debounced(s.last_press, now) ==> {
            let d = after_input(s, binding, true, false, now).1;
            &&& (s.stage is Idle ==> d == InputDecision::Start)
            &&& (s.stage == StageView::Recording(binding) ==> d == InputDecision::Stop)
            &&& (s.stage is Processing ==> d == InputDecision::Busy)
            &&& ((s.stage is Recording && s.stage->0 != binding) ==> d == InputDecision::Busy)
        },
{
}

/// Debounce: a press is dropped, changing nothing, exactly when it comes
/// less than `DEBOUNCE_NS` after the last accepted press (or the clock went
/// back); an accepted press becomes the last accepted press, and no input
/// changes the stage or the processing timer by itself.
pub proof fn law_debounce_exactly(s: CoordinatorView, binding: Seq<char>, is_pressed: bool, push_to_talk: bool, now: u64)
    ensures
        ({
            let (s1, d) = after_input(s, binding, is_pressed, push_to_talk, now);
            &&& (d == InputDecision::Debounced <==> (is_pressed && s.last_press is Some && (now < s.last_press->0 || now - s.last_press->0 < DEBOUNCE_NS)))
            &&& (d == InputDecision::Debounced ==> s1 == s)
            &&& (is_pressed && d != InputDecision::Debounced ==> s1.last_press == Some(now))
            &&& (!is_pressed ==> s1.last_press == s.last_press)
            &&& s1.stage == s.stage
            &&& s1.processing_started == s.processing_started
        }),
{
}

/// A start that brought the recorder up records for that binding; a start
/// that did not, or found no action, leaves everything as it was. A stop
/// that ran moves to processing with the timer started at its finish; an
/// unbound stop changes nothing. Neither touches the press timestamp.
pub proof fn law_action_completions(s: CoordinatorView, binding: Seq<char>, now: u64)
    ensures
        after_start(s, binding, StartOutcome::Ran { recording: true }).stage == StageView::Recording(binding),
        after_start(s, binding, StartOutcome::Ran { recording: true }).processing_started == s.processing_started,
        after_start(s, binding, StartOutcome::Ran { recording: true }).last_press == s.last_press,
        after_start(s, binding, StartOutcome::Ran { recording: false }) == s,
        after_start(s, binding, StartOutcome::Unbound) == s,
        after_stop(s, StopOutcome::Ran, now).stage is Processing,
        after_stop(s, StopOutcome::Ran, now).processing_started == Some(now),
        after_stop(s, StopOutcome::Ran, now).last_press == s.last_press,
        after_stop(s, StopOutcome::Unbound, now) == s,
{
}

/// A cancel outside processing always returns to `Idle` when the stage is
/// recording, whatever the flag, and when a recording was active, whatever
/// the stage; with neither it changes nothing, and while processing it
/// changes nothing. A cancel never touches the press timestamp or the
/// processing timer, and says it reset exactly when the stage changed to
/// `Idle` from something other than `Idle`, or a recording was active.
pub proof fn law_cancel_resets_recording(s: CoordinatorView, recording_was_active: bool)
    ensures
        s.stage is Recording ==> after_cancel(s, recording_was_active).stage is Idle,
        s.stage is Recording ==> cancel_resets(s, recording_was_active),
        !(s.stage is Processing) ==> after_cancel(s, true).stage is Idle && cancel_resets(s, true),
        s.stage is Idle && !recording_was_active ==> after_cancel(s, false) == s && !cancel_resets(s, false),
        s.stage is Processing ==> after_cancel(s, recording_was_active) == s && !cancel_resets(s, recording_was_active),
        after_cancel(s, recording_was_active).last_press == s.last_press,
        after_cancel(s, recording_was_active).processing_started == s.processing_started,
{
}

/// The end of processing and a forced reset both leave the pipeline `Idle`
/// with no timer, keep the press timestamp, and report the time processing
/// ran: whole milliseconds from the timer's start to `now` (0 when the
/// clock went back), nothing when no timer ran.
pub proof fn law_reset_reports_processing_time(s: CoordinatorView, now: u64, t: u64)
    ensures
        after_reset(s).stage is Idle,
        after_reset(s).processing_started is None,
        after_reset(s).last_press == s.last_press,
        elapsed_ms(None, now) is None,
        now >= t ==> elapsed_ms(Some(t), now) == Some(((now - t) / 1_000_000) as u64),
        now < t ==> elapsed_ms(Some(t), now) == Some(0u64),
{
}

/// The transcription bindings are exactly `transcribe` and
/// `transcribe_with_post_process`.
pub proof fn law_transcribe_bindings(id: Seq<char>)
    ensures
        is_transcribe_binding_spec("transcribe"@),
        is_transcribe_binding_spec("transcribe_with_post_process"@),
        id != "transcribe"@ && id != "transcribe_with_post_process"@ ==> !is_transcribe_binding_spec(id),
{
}

/// Stages are labelled and mirrored by their own names and codes 0, 1, 2.
pub proof fn law_stage_labels_and_codes(binding: Seq<char>)
    ensures
        stage_label_spec(StageView::Idle) == "Idle"@ && stage_code_spec(StageView::Idle) == 0,
        stage_label_spec(StageView::Recording(binding)) == "Recording"@ && stage_code_spec(StageView::Recording(binding)) == 1,
        stage_label_spec(StageView::Processing) == "Processing"@ && stage_code_spec(StageView::Processing) == 2,
{
}

} // verus!
