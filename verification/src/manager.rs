//! The state of the transcription manager: the loaded engine and model, the
//! single model load in progress, idle unloading, and the cancellation flag
//! of file transcription. The engine and the cancel token of a whisper run
//! are opaque to this module (type parameters); threads, locks and the
//! engines themselves stay with the caller.
use vstd::prelude::*;
use vstd::string::*;
use crate::engine::{EngineType, ModelInfo};

verus! {

/// What the manager state is, as far as its behaviour goes.
pub struct ManagerView {
    pub loaded: bool,
    pub current_model: Option<Seq<char>>,
    pub last_activity_ms: nat,
    pub loading: bool,
    pub cancelled: bool,
    pub has_cancel_token: bool,
    /// Whether a run has the engine checked out.
    pub checked_out: bool,
}

/// Proof that a model load was started; handing it back ends the load.
pub struct LoadingGuard {
    started: bool,
}

/// What the idle watcher does on one of its checks.
#[derive(Clone, Copy, PartialEq, Eq, Debug)]
pub enum IdleAction {
    /// The timeout is "immediately": unloading happens after each
    /// transcription instead.
    Skip,
    /// Recording is going on: the idle timer is refreshed.
    KeepAlive,
    /// The model has been idle past the limit: unload it.
    Unload,
    /// Nothing to do.
    Nothing,
}

/// The state after a load is asked to start, and whether it may.
pub open spec fn try_start_spec(v: ManagerView) -> (ManagerView, bool) {
    if v.loading {
        (v, false)
    } else {
        (ManagerView { loading: true, ..v }, true)
    }
}

/// The state after a background load is asked for: none starts while one
/// runs or a model is loaded.
pub open spec fn initiate_spec(v: ManagerView) -> (ManagerView, bool) {
    if v.loading || v.loaded {
        (v, false)
    } else {
        (ManagerView { loading: true, ..v }, true)
    }
}

/// The state after a load ends.
pub open spec fn finish_spec(v: ManagerView) -> ManagerView {
    ManagerView { loading: false, ..v }
}

/// The state after unloading: no engine, no model, no cancel token.
pub open spec fn unload_spec(v: ManagerView) -> ManagerView {
    ManagerView { loaded: false, current_model: None, has_cancel_token: false, ..v }
}

/// The state after a loaded engine is installed at time `now`.
pub open spec fn install_spec(v: ManagerView, id: Seq<char>, has_token: bool, now: nat) -> ManagerView {
    ManagerView {
        loaded: true,
        current_model: Some(id),
        last_activity_ms: now,
        has_cancel_token: has_token || v.has_cancel_token,
        ..v
    }
}

/// The idle timer refreshed at `now`.
pub open spec fn touch_spec(v: ManagerView, now: nat) -> ManagerView {
    ManagerView { last_activity_ms: now, ..v }
}

/// The state while the engine is checked out for a run.
pub open spec fn take_spec(v: ManagerView) -> ManagerView {
    ManagerView { loaded: false, checked_out: v.checked_out || v.loaded, ..v }
}

/// The state after the engine is put back.
pub open spec fn put_back_spec(v: ManagerView) -> ManagerView {
    ManagerView { loaded: true, checked_out: false, ..v }
}

/// The state after the model is forgotten because its engine panicked.
pub open spec fn forget_spec(v: ManagerView) -> ManagerView {
    ManagerView { current_model: None, checked_out: false, ..v }
}

/// A model is loaded exactly when a current model is recorded.
pub open spec fn model_recorded_iff_loaded(v: ManagerView) -> bool {
    v.loaded == (v.current_model is Some)
}

/// The decision of one idle-watcher check. `immediately` is the
/// "unload immediately" timeout and `limit_seconds` the idle limit of the
/// timeout, if it has one.
pub open spec fn idle_spec(
    v: ManagerView,
    immediately: bool,
    limit_seconds: Option<u64>,
    recording: bool,
    now: nat,
) -> IdleAction {
    if immediately {
        IdleAction::Skip
    } else if recording {
        IdleAction::KeepAlive
    } else {
        match limit_seconds {
            Some(limit) => {
                let idle = if now >= v.last_activity_ms {
                    now - v.last_activity_ms
                } else {
                    0
                };
                if idle > limit * 1000 && v.loaded {
                    IdleAction::Unload
                } else {
                    IdleAction::Nothing
                }
            },
            None => IdleAction::Nothing,
        }
    }
}

/// The loaded engine, the model and the flags of the transcription manager.
pub struct TranscriptionManager<E, C> {
    engine: Option<E>,
    current_model_id: Option<String>,
    last_activity_ms: u64,
    is_loading: bool,
    file_transcription_cancelled: bool,
    transcribe_cancel_token: Option<C>,
    checked_out: Ghost<bool>,
}

impl<E, C> View for TranscriptionManager<E, C> {
    type V = ManagerView;

    closed spec fn view(&self) -> ManagerView {
        ManagerView {
            loaded: self.engine is Some,
            current_model: match self.current_model_id {
                Some(s) => Some(s@),
                None => None,
            },
            last_activity_ms: self.last_activity_ms as nat,
            loading: self.is_loading,
            cancelled: self.file_transcription_cancelled,
            has_cancel_token: self.transcribe_cancel_token is Some,
            checked_out: self.checked_out@,
        }
    }
}

impl<E, C> TranscriptionManager<E, C> {
    /// The loaded engine, if any.
    pub closed spec fn engine(&self) -> Option<E> {
        self.engine
    }

    /// The cancel token of the loaded whisper session, if any.
    pub closed spec fn token(&self) -> Option<C> {
        self.transcribe_cancel_token
    }

    /// A manager with nothing loaded, created at time `now_ms`.
    pub fn new(now_ms: u64) -> (r: Self)
        ensures
            r@ == (ManagerView {
                loaded: false,
                current_model: None,
                last_activity_ms: now_ms as nat,
                loading: false,
                cancelled: false,
                has_cancel_token: false,
                checked_out: false,
            }),
            r.engine() is None,
            r.token() is None,
    {
        TranscriptionManager {
            engine: None,
            current_model_id: None,
            last_activity_ms: now_ms,
            is_loading: false,
            file_transcription_cancelled: false,
            transcribe_cancel_token: None,
            checked_out: Ghost(false),
        }
    }

    /// Whether an engine is loaded.
    pub fn is_model_loaded(&self) -> (r: bool)
        ensures
            r == self@.loaded,
    {
        self.engine.is_some()
    }

    /// Whether a model load is in progress.
    pub fn is_loading(&self) -> (r: bool)
        ensures
            r == self@.loading,
    {
        self.is_loading
    }

    /// Marks a load as starting unless one is in progress; the guard ends
    /// it.
    pub fn try_start_loading(&mut self) -> (r: Option<LoadingGuard>)
        ensures
            final(self)@ == try_start_spec(old(self)@).0,
            (r is Some) == try_start_spec(old(self)@).1,
            final(self).engine() == old(self).engine(),
            final(self).token() == old(self).token(),
    {
        if self.is_loading {
            None
        } else {
            self.is_loading = true;
            Some(LoadingGuard { started: true })
        }
    }

    /// Starts a background load unless one is in progress or a model is
    /// loaded; the guard ends it.
    pub fn initiate_model_load(&mut self) -> (r: Option<LoadingGuard>)
        ensures
            final(self)@ == initiate_spec(old(self)@).0,
            (r is Some) == initiate_spec(old(self)@).1,
            final(self).engine() == old(self).engine(),
            final(self).token() == old(self).token(),
    {
        if self.is_loading || self.engine.is_some() {
            None
        } else {
            self.is_loading = true;
            Some(LoadingGuard { started: true })
        }
    }

    /// Ends the load the guard stands for.
    pub fn finish_loading(&mut self, guard: LoadingGuard)
        ensures
            final(self)@ == finish_spec(old(self)@),
            final(self).engine() == old(self).engine(),
            final(self).token() == old(self).token(),
    {
        let _ = guard.started;
        self.is_loading = false;
    }

    /// Drops the engine, its cancel token and the current model.
    pub fn unload_model(&mut self)
        ensures
            final(self)@ == unload_spec(old(self)@),
            final(self).engine() is None,
            final(self).token() is None,
    {
        self.engine = None;
        self.transcribe_cancel_token = None;
        self.current_model_id = None;
    }

    /// Refreshes the idle timer.
    pub fn touch_activity(&mut self, now_ms: u64)
        ensures
            final(self)@ == touch_spec(old(self)@, now_ms as nat),
            final(self).engine() == old(self).engine(),
            final(self).token() == old(self).token(),
    {
        self.last_activity_ms = now_ms;
    }

    /// Unloads the model when the timeout is "immediately" and a model is
    /// loaded; says whether it did.
    pub fn maybe_unload_immediately(&mut self, immediately: bool) -> (unloaded: bool)
        ensures
            unloaded == (immediately && old(self)@.loaded),
            final(self)@ == if unloaded {
                unload_spec(old(self)@)
            } else {
                old(self)@
            },
            final(self).engine() == if unloaded {
                None
            } else {
                old(self).engine()
            },
            final(self).token() == if unloaded {
                None
            } else {
                old(self).token()
            },
    {
        if immediately && self.engine.is_some() {
            self.unload_model();
            true
        } else {
            false
        }
    }

    /// Installs a loaded engine for `model_id` (with the cancel token of a
    /// whisper session, if any) and refreshes the idle timer.
    pub fn install_engine(&mut self, model_id: String, engine: E, cancel_token: Option<C>, now_ms: u64)
        ensures
            final(self)@ == install_spec(old(self)@, model_id@, cancel_token is Some, now_ms as nat),
            final(self).engine() == Some(engine),
            final(self).token() == if cancel_token is Some {
                cancel_token
            } else {
                old(self).token()
            },
    {
        if cancel_token.is_some() {
            self.transcribe_cancel_token = cancel_token;
        }
        self.engine = Some(engine);
        self.current_model_id = Some(model_id);
        self.last_activity_ms = now_ms;
    }

    /// The id of the loaded model.
    pub fn get_current_model(&self) -> (r: Option<String>)
        ensures
            match r {
                Some(s) => self@.current_model == Some(s@),
                None => self@.current_model is None,
            },
    {
        match &self.current_model_id {
            Some(s) => Some(s.clone()),
            None => None,
        }
    }

    /// Requests cancellation of the file transcription in progress. The
    /// caller also cancels the token returned by `cancel_token`, which
    /// aborts a whisper run in flight.
    pub fn cancel_file_transcription(&mut self)
        ensures
            final(self)@ == (ManagerView { cancelled: true, ..old(self)@ }),
            final(self).engine() == old(self).engine(),
            final(self).token() == old(self).token(),
    {
        self.file_transcription_cancelled = true;
    }

    /// Whether cancellation was requested.
    pub fn is_file_transcription_cancelled(&self) -> (r: bool)
        ensures
            r == self@.cancelled,
    {
        self.file_transcription_cancelled
    }

    /// Clears the cancellation request; the caller also resets the token
    /// returned by `cancel_token`.
    pub fn reset_file_transcription_cancelled(&mut self)
        ensures
            final(self)@ == (ManagerView { cancelled: false, ..old(self)@ }),
            final(self).engine() == old(self).engine(),
            final(self).token() == old(self).token(),
    {
        self.file_transcription_cancelled = false;
    }

    /// The cancel token installed with the loaded whisper session.
    pub fn cancel_token(&self) -> (r: Option<&C>)
        ensures
            r == match self.token() {
                Some(t) => Some(&t),
                None => None,
            },
            (r is Some) == self@.has_cancel_token,
    {
        match &self.transcribe_cancel_token {
            Some(t) => Some(t),
            None => None,
        }
    }

    /// Checks the engine out for a run, leaving none loaded meanwhile.
    pub fn take_engine(&mut self) -> (r: Option<E>)
        ensures
            r == old(self).engine(),
            (r is Some) == old(self)@.loaded,
            final(self)@ == take_spec(old(self)@),
            final(self).engine() is None,
            final(self).token() == old(self).token(),
    {
        let mut e = None;
        std::mem::swap(&mut e, &mut self.engine);
        proof {
            self.checked_out@ = self.checked_out@ || e is Some;
        }
        e
    }

    /// Puts the engine back after a run that returned.
    pub fn put_back_engine(&mut self, engine: E)
        ensures
            final(self)@ == put_back_spec(old(self)@),
            final(self).engine() == Some(engine),
            final(self).token() == old(self).token(),
    {
        self.engine = Some(engine);
        proof {
            self.checked_out@ = false;
        }
    }

    /// After an engine panicked during a run (and so was not put back), the
    /// model is forgotten so it is loaded again on the next attempt.
    pub fn forget_model_after_panic(&mut self)
        ensures
            final(self)@ == forget_spec(old(self)@),
            final(self).engine() == old(self).engine(),
            final(self).token() == old(self).token(),
    {
        self.current_model_id = None;
        proof {
            self.checked_out@ = false;
        }
    }

    /// The view records whether an engine and a cancel token are there.
    pub proof fn lemma_view_of_engine_and_token(&self)
        ensures
            self@.loaded == (self.engine() is Some),
            self@.has_cancel_token == (self.token() is Some),
    {
    }

    /// One check of the idle watcher at time `now_ms`.
    pub fn idle_action(
        &self,
        immediately: bool,
        limit_seconds: Option<u64>,
        recording: bool,
        now_ms: u64,
    ) -> (r: IdleAction)
        requires
            limit_seconds matches Some(l) ==> l * 1000 <= u64::MAX,
        ensures
            r == idle_spec(self@, immediately, limit_seconds, recording, now_ms as nat),
    {
        if immediately {
            return IdleAction::Skip;
        }
        if recording {
            return IdleAction::KeepAlive;
        }
        match limit_seconds {
            Some(limit) => {
                let idle_ms = now_ms.saturating_sub(self.last_activity_ms);
                let limit_ms = limit * 1000;
                if idle_ms > limit_ms && self.engine.is_some() {
                    IdleAction::Unload
                } else {
                    IdleAction::Nothing
                }
            },
            None => IdleAction::Nothing,
        }
    }
}

/// Only one model load runs at a time: once a load has started, asking to
/// start another is refused until it ends, and then granted again.
pub proof fn lemma_single_model_load(v: ManagerView)
    ensures
        try_start_spec(v).1 ==> !try_start_spec(try_start_spec(v).0).1,
        try_start_spec(v).1 ==> !initiate_spec(try_start_spec(v).0).1,
        initiate_spec(v).1 ==> !try_start_spec(initiate_spec(v).0).1,
        try_start_spec(finish_spec(v)).1,
{
}

/// A background load is never started while a model is loaded.
pub proof fn lemma_no_reload_when_loaded(v: ManagerView)
    requires
        v.loaded,
    ensures
        !initiate_spec(v).1,
        initiate_spec(v).0 == v,
{
}

/// Unloading leaves no engine and no current model.
pub proof fn lemma_unload_clears(v: ManagerView)
    ensures
        !unload_spec(v).loaded,
        unload_spec(v).current_model is None,
        !unload_spec(v).has_cancel_token,
{
}

/// A freshly installed model reports as loaded under its id.
pub proof fn lemma_install_then_query(v: ManagerView, id: Seq<char>, has_token: bool, now: nat)
    ensures
        install_spec(v, id, has_token, now).loaded,
        install_spec(v, id, has_token, now).current_model == Some(id),
{
}

/// The idle watcher never unloads while recording, and a model loaded at
/// time `now` is not idle at `now`.
pub proof fn lemma_idle_watcher_keeps_busy_model(
    v: ManagerView,
    id: Seq<char>,
    has_token: bool,
    limit_seconds: Option<u64>,
    now: nat,
)
    ensures
        idle_spec(v, false, limit_seconds, true, now) == IdleAction::KeepAlive,
        idle_spec(install_spec(v, id, has_token, now), false, limit_seconds, false, now)
            == IdleAction::Nothing,
        forall|rec: bool| idle_spec(v, true, limit_seconds, rec, now) == IdleAction::Skip,
{
}

/// A model that is not loaded is never unloaded by the watcher.
pub proof fn lemma_idle_unload_needs_model(
    v: ManagerView,
    immediately: bool,
    limit_seconds: Option<u64>,
    recording: bool,
    now: nat,
)
    ensures
        idle_spec(v, immediately, limit_seconds, recording, now) == IdleAction::Unload ==> v.loaded,
{
}

/// A cancellation request is seen until it is cleared.
pub proof fn lemma_cancel_then_reset(v: ManagerView)
    ensures
        (ManagerView { cancelled: true, ..v }).cancelled,
        !(ManagerView { cancelled: false, ..(ManagerView { cancelled: true, ..v }) }).cancelled,
{
}

/// A model is loaded exactly when a current model is recorded: a new
/// manager starts so, and loading, unloading, refreshing and cancelling keep
/// it. A run checks the engine out only while it is loaded, and after the
/// run the engine is either put back or, after a panic, the model is
/// forgotten; either way the property holds again.
pub proof fn lemma_model_recorded_iff_loaded(
    v: ManagerView,
    id: Seq<char>,
    has_token: bool,
    now: nat,
    cancelled: bool,
)
    requires
        model_recorded_iff_loaded(v),
    ensures
        model_recorded_iff_loaded(unload_spec(v)),
        model_recorded_iff_loaded(install_spec(v, id, has_token, now)),
        model_recorded_iff_loaded(touch_spec(v, now)),
        model_recorded_iff_loaded(try_start_spec(v).0),
        model_recorded_iff_loaded(initiate_spec(v).0),
        model_recorded_iff_loaded(finish_spec(v)),
        model_recorded_iff_loaded(ManagerView { cancelled, ..v }),
        v.loaded ==> model_recorded_iff_loaded(put_back_spec(take_spec(v))),
        v.loaded ==> model_recorded_iff_loaded(forget_spec(take_spec(v))),
{
}

/// An operation on the manager state.
pub enum ManagerOp {
    Unload,
    Install { id: Seq<char>, has_token: bool, now: nat },
    Touch { now: nat },
    TryStartLoad,
    InitiateLoad,
    FinishLoad,
    SetCancelled { cancelled: bool },
    TakeEngine,
    PutBackEngine,
    ForgetModel,
}

/// The state after one operation.
pub open spec fn apply_op(v: ManagerView, op: ManagerOp) -> ManagerView {
    match op {
        ManagerOp::Unload => unload_spec(v),
        ManagerOp::Install { id, has_token, now } => install_spec(v, id, has_token, now),
        ManagerOp::Touch { now } => touch_spec(v, now),
        ManagerOp::TryStartLoad => try_start_spec(v).0,
        ManagerOp::InitiateLoad => initiate_spec(v).0,
        ManagerOp::FinishLoad => finish_spec(v),
        ManagerOp::SetCancelled { cancelled } => ManagerView { cancelled, ..v },
        ManagerOp::TakeEngine => take_spec(v),
        ManagerOp::PutBackEngine => put_back_spec(v),
        ManagerOp::ForgetModel => forget_spec(v),
    }
}

/// The order the manager's runs keep: a model is installed or unloaded only
/// while no run has the engine checked out, and the engine is put back, or
/// its model forgotten, only by the run that checked it out.
pub open spec fn op_in_order(v: ManagerView, op: ManagerOp) -> bool {
    match op {
        ManagerOp::Unload | ManagerOp::Install { .. } => !v.checked_out,
        ManagerOp::PutBackEngine | ManagerOp::ForgetModel => v.checked_out,
        _ => true,
    }
}

/// The state after the operations `ops`, from `v`.
pub open spec fn run_ops(v: ManagerView, ops: Seq<ManagerOp>) -> ManagerView
    decreases ops.len(),
{
    if ops.len() == 0 {
        v
    } else {
        apply_op(run_ops(v, ops.drop_last()), ops.last())
    }
}

/// Whether every operation of `ops`, from `v`, comes in order.
pub open spec fn ops_in_order(v: ManagerView, ops: Seq<ManagerOp>) -> bool
    decreases ops.len(),
{
    if ops.len() == 0 {
        true
    } else {
        ops_in_order(v, ops.drop_last()) && op_in_order(run_ops(v, ops.drop_last()), ops.last())
    }
}

/// A model is recorded exactly when an engine is loaded or checked out by a
/// run, and never both.
pub open spec fn load_status_consistent(v: ManagerView) -> bool {
    &&& (v.loaded || v.checked_out) == (v.current_model is Some)
    &&& !(v.loaded && v.checked_out)
}

/// In every state reached from a fresh manager by operations in order, the
/// load status is consistent; in particular, whenever no run has the engine
/// checked out, a model is loaded exactly when a current model is recorded.
pub proof fn lemma_load_status_always_consistent(v0: ManagerView, ops: Seq<ManagerOp>)
    requires
        !v0.loaded,
        v0.current_model is None,
        !v0.checked_out,
        ops_in_order(v0, ops),
    ensures
        load_status_consistent(run_ops(v0, ops)),
        !run_ops(v0, ops).checked_out ==> model_recorded_iff_loaded(run_ops(v0, ops)),
    decreases ops.len(),
{
    if ops.len() > 0 {
        lemma_load_status_always_consistent(v0, ops.drop_last());
    }
}

/// The idle watcher unloads exactly when the timeout is not "immediately",
/// it has a limit, nothing is being recorded, a model is loaded, and more
/// than the limit has passed since the last activity.
pub proof fn lemma_idle_unload_exactly(
    v: ManagerView,
    immediately: bool,
    limit_seconds: Option<u64>,
    recording: bool,
    now: nat,
)
    ensures
        idle_spec(v, immediately, limit_seconds, recording, now) == IdleAction::Unload <==> {
            &&& !immediately
            &&& !recording
            &&& v.loaded
            &&& limit_seconds matches Some(l) && now > v.last_activity_ms + l * 1000
        },
{
}

/// Over time: after activity at `now` (a transcription, a load, or a check
/// that found a recording going on), no check unloads the model until more
/// than the limit has passed; and a check while recording never unloads and
/// refreshes the timer, so a model is never unloaded during a recording.
pub proof fn lemma_idle_no_unload_within_limit(
    v: ManagerView,
    immediately: bool,
    limit: u64,
    recording: bool,
    now: nat,
    later: nat,
)
    requires
        later <= now + limit * 1000,
    ensures
        idle_spec(touch_spec(v, now), immediately, Some(limit), recording, later)
            != IdleAction::Unload,
        idle_spec(v, immediately, Some(limit), true, now) != IdleAction::Unload,
{
}

/// Where one transcription run stands.
#[derive(Clone, Copy, PartialEq, Eq, Debug)]
pub enum RunPhase {
    /// Nothing done yet.
    Start,
    /// Waiting until no model load is in progress.
    WaitingForLoad,
    /// Checking the engine out of the manager.
    CheckingOut,
    /// The engine is running on the audio.
    Running,
    /// The engine returned a result; its segment positions are checked.
    CheckingOffsets,
    /// The run has ended.
    Done,
}

/// What happened in a run, as reported by the caller.
#[derive(Clone, Copy, PartialEq, Eq, Debug)]
pub enum RunEvent {
    /// The run begins on audio that is or is not empty.
    Begin { audio_empty: bool },
    /// No load is in progress any more; whether a model is loaded.
    LoadSettled { loaded: bool },
    /// Whether the engine could be checked out.
    CheckedOut { got_engine: bool },
    /// The engine returned, with a result or with an error.
    EngineReturned { ok: bool },
    /// The engine panicked; it is gone.
    EnginePanicked,
    /// Whether the result's segment positions, shifted by the chunk
    /// offset, fit the sample timeline.
    OffsetsChecked { fit: bool },
}

/// What the caller does next in a run.
#[derive(Clone, Copy, PartialEq, Eq, Debug)]
pub enum RunAction {
    /// Check the "unload immediately" setting, then return an empty text.
    ReturnEmpty,
    /// Wait until no load is in progress, then report whether a model is
    /// loaded.
    WaitForLoad,
    /// Check the engine out of the manager.
    CheckOutEngine,
    /// Run the engine.
    RunEngine,
    /// Put the engine back, then check the result's segment positions.
    PutBackAndCheckOffsets,
    /// Put the engine back, then fail with the engine's error.
    PutBackAndFail,
    /// The engine is dropped: forget the model, tell the user interface,
    /// and fail as panicked.
    ForgetModelAndFail,
    /// Fail: no model is loaded.
    FailNotLoaded,
    /// Fail: the engine was gone.
    FailLoadFailed,
    /// Fail: segment positions out of range.
    FailOutOfRange,
    /// Build the text and return it, checking the "unload immediately"
    /// setting first when `unload_check` is set.
    ReturnText { unload_check: bool },
    /// The event does not belong to this phase: nothing happens.
    Ignore,
}

/// The state of one run: its phase, and whether the "unload immediately"
/// check after a successful run is skipped (as for all but the last chunk of
/// a file).
#[derive(Clone, Copy, PartialEq, Eq, Debug)]
pub struct RunState {
    pub phase: RunPhase,
    pub skip_immediate_unload: bool,
}

/// One step of a run: the next state and the caller's next action.
pub open spec fn run_step_spec(state: RunState, event: RunEvent) -> (RunState, RunAction) {
    let done = RunState { phase: RunPhase::Done, ..state };
    match (state.phase, event) {
        (RunPhase::Start, RunEvent::Begin { audio_empty }) => if audio_empty {
            (done, RunAction::ReturnEmpty)
        } else {
            (RunState { phase: RunPhase::WaitingForLoad, ..state }, RunAction::WaitForLoad)
        },
        (RunPhase::WaitingForLoad, RunEvent::LoadSettled { loaded }) => if loaded {
            (RunState { phase: RunPhase::CheckingOut, ..state }, RunAction::CheckOutEngine)
        } else {
            (done, RunAction::FailNotLoaded)
        },
        (RunPhase::CheckingOut, RunEvent::CheckedOut { got_engine }) => if got_engine {
            (RunState { phase: RunPhase::Running, ..state }, RunAction::RunEngine)
        } else {
            (done, RunAction::FailLoadFailed)
        },
        (RunPhase::Running, RunEvent::EngineReturned { ok }) => if ok {
            (
                RunState { phase: RunPhase::CheckingOffsets, ..state },
                RunAction::PutBackAndCheckOffsets,
            )
        } else {
            (done, RunAction::PutBackAndFail)
        },
        (RunPhase::Running, RunEvent::EnginePanicked) => (done, RunAction::ForgetModelAndFail),
        (RunPhase::CheckingOffsets, RunEvent::OffsetsChecked { fit }) => if fit {
            (done, RunAction::ReturnText { unload_check: !state.skip_immediate_unload })
        } else {
            (done, RunAction::FailOutOfRange)
        },
        _ => (state, RunAction::Ignore),
    }
}

impl RunState {
    /// A run that has not begun.
    pub fn new(skip_immediate_unload: bool) -> (r: Self)
        ensures
            r == (RunState { phase: RunPhase::Start, skip_immediate_unload }),
    {
        RunState { phase: RunPhase::Start, skip_immediate_unload }
    }

    /// Takes the reported event and says what to do next.
    pub fn step(&mut self, event: RunEvent) -> (r: RunAction)
        ensures
            (*final(self), r) == run_step_spec(*old(self), event),
    {
        let done = RunState { phase: RunPhase::Done, skip_immediate_unload: self.skip_immediate_unload };
        let (next, action) = match (self.phase, event) {
            (RunPhase::Start, RunEvent::Begin { audio_empty }) => if audio_empty {
                (done, RunAction::ReturnEmpty)
            } else {
                (RunState { phase: RunPhase::WaitingForLoad, ..*self }, RunAction::WaitForLoad)
            },
            (RunPhase::WaitingForLoad, RunEvent::LoadSettled { loaded }) => if loaded {
                (RunState { phase: RunPhase::CheckingOut, ..*self }, RunAction::CheckOutEngine)
            } else {
                (done, RunAction::FailNotLoaded)
            },
            (RunPhase::CheckingOut, RunEvent::CheckedOut { got_engine }) => if got_engine {
                (RunState { phase: RunPhase::Running, ..*self }, RunAction::RunEngine)
            } else {
                (done, RunAction::FailLoadFailed)
            },
            (RunPhase::Running, RunEvent::EngineReturned { ok }) => if ok {
                (
                    RunState { phase: RunPhase::CheckingOffsets, ..*self },
                    RunAction::PutBackAndCheckOffsets,
                )
            } else {
                (done, RunAction::PutBackAndFail)
            },
            (RunPhase::Running, RunEvent::EnginePanicked) => (done, RunAction::ForgetModelAndFail),
            (RunPhase::CheckingOffsets, RunEvent::OffsetsChecked { fit }) => if fit {
                (done, RunAction::ReturnText { unload_check: !self.skip_immediate_unload })
            } else {
                (done, RunAction::FailOutOfRange)
            },
            _ => (*self, RunAction::Ignore),
        };
        *self = next;
        action
    }
}

/// Whether an action checks the "unload immediately" setting.
pub open spec fn checks_unload(a: RunAction) -> bool {
    a is ReturnEmpty || a matches RunAction::ReturnText { unload_check: true }
}

/// Whether an action ends the run with an error.
pub open spec fn fails(a: RunAction) -> bool {
    ||| a is PutBackAndFail
    ||| a is ForgetModelAndFail
    ||| a is FailNotLoaded
    ||| a is FailLoadFailed
    ||| a is FailOutOfRange
}

/// The rules of a run: empty audio gives an empty text at once; a run that
/// finds no model loaded once loading has settled fails; an engine that
/// returned, with a result or an error, is always put back, and one that
/// panicked is not and its model is forgotten; a failed run never checks
/// the "unload immediately" setting, and a successful one checks it unless
/// told to skip it; every run that ends stays ended.
pub proof fn lemma_run_rules(state: RunState, event: RunEvent)
    ensures
        state.phase == RunPhase::Start ==> run_step_spec(state, RunEvent::Begin { audio_empty: true })
            == (RunState { phase: RunPhase::Done, ..state }, RunAction::ReturnEmpty),
        state.phase == RunPhase::WaitingForLoad ==> run_step_spec(
            state,
            RunEvent::LoadSettled { loaded: false },
        ).1 == RunAction::FailNotLoaded,
        state.phase == RunPhase::Running ==> forall|ok: bool|
            #![trigger run_step_spec(state, RunEvent::EngineReturned { ok })]
            run_step_spec(state, RunEvent::EngineReturned { ok }).1 is PutBackAndCheckOffsets
                || run_step_spec(state, RunEvent::EngineReturned { ok }).1 is PutBackAndFail,
        state.phase == RunPhase::Running ==> run_step_spec(state, RunEvent::EnginePanicked).1
            == RunAction::ForgetModelAndFail,
        fails(run_step_spec(state, event).1) ==> !checks_unload(run_step_spec(state, event).1),
        run_step_spec(state, event).1 is ReturnText ==> (checks_unload(
            run_step_spec(state, event).1,
        ) <==> !state.skip_immediate_unload),
        state.phase == RunPhase::Done ==> run_step_spec(state, event) == (state, RunAction::Ignore),
{
}

/// A model-state event, as emitted to the user interface.
pub struct ModelStateEvent {
    pub event_type: String,
    pub model_id: Option<String>,
    pub model_name: Option<String>,
    pub error: Option<String>,
}

/// The view of an optional string.
pub open spec fn opt_view(o: Option<String>) -> Option<Seq<char>> {
    match o {
        Some(s) => Some(s@),
        None => None,
    }
}

impl ModelStateEvent {
    /// The event of a model unloaded by request or by the idle watcher.
    pub fn unloaded() -> (r: Self)
        ensures
            r.event_type@ == "unloaded"@,
            r.model_id is None,
            r.model_name is None,
            r.error is None,
    {
        ModelStateEvent {
            event_type: String::from_str("unloaded"),
            model_id: None,
            model_name: None,
            error: None,
        }
    }

    /// The event of an engine that panicked and was dropped.
    pub fn unloaded_after_panic(panic_message: &str) -> (r: Self)
        ensures
            r.event_type@ == "unloaded"@,
            r.model_id is None,
            r.model_name is None,
            opt_view(r.error) == Some("Engine panicked: "@ + panic_message@),
    {
        let mut e = String::from_str("Engine panicked: ");
        e.append(panic_message);
        ModelStateEvent {
            event_type: String::from_str("unloaded"),
            model_id: None,
            model_name: None,
            error: Some(e),
        }
    }

    /// The event of a load that starts.
    pub fn loading_started(model_id: &str) -> (r: Self)
        ensures
            r.event_type@ == "loading_started"@,
            opt_view(r.model_id) == Some(model_id@),
            r.model_name is None,
            r.error is None,
    {
        ModelStateEvent {
            event_type: String::from_str("loading_started"),
            model_id: Some(String::from_str(model_id)),
            model_name: None,
            error: None,
        }
    }

    /// The event of a load that failed.
    pub fn loading_failed(model_id: &str, model_name: &str, error: &str) -> (r: Self)
        ensures
            r.event_type@ == "loading_failed"@,
            opt_view(r.model_id) == Some(model_id@),
            opt_view(r.model_name) == Some(model_name@),
            opt_view(r.error) == Some(error@),
    {
        ModelStateEvent {
            event_type: String::from_str("loading_failed"),
            model_id: Some(String::from_str(model_id)),
            model_name: Some(String::from_str(model_name)),
            error: Some(String::from_str(error)),
        }
    }

    /// The event of a load that completed.
    pub fn loading_completed(model_id: &str, model_name: &str) -> (r: Self)
        ensures
            r.event_type@ == "loading_completed"@,
            opt_view(r.model_id) == Some(model_id@),
            opt_view(r.model_name) == Some(model_name@),
            r.error is None,
    {
        ModelStateEvent {
            event_type: String::from_str("loading_completed"),
            model_id: Some(String::from_str(model_id)),
            model_name: Some(String::from_str(model_name)),
            error: None,
        }
    }
}

/// Progress reported by an engine run: partial text and percentage.
pub struct TranscriptionProgress {
    pub text: Option<String>,
    pub progress: Option<i32>,
}

/// Why a model could not be loaded before any engine was tried.
pub enum LoadRefusal {
    /// The model is not in the catalogue.
    NotFound,
    /// The model's files are not downloaded.
    NotDownloaded,
}

/// The engine to load a model with, or why it cannot be loaded.
pub fn plan_model_load(info: Option<&ModelInfo>) -> (r: Result<EngineType, LoadRefusal>)
    ensures
        match info {
            None => r matches Err(LoadRefusal::NotFound),
            Some(i) => if i.is_downloaded {
                r == Ok::<EngineType, LoadRefusal>(i.engine_type)
            } else {
                r matches Err(LoadRefusal::NotDownloaded)
            },
        },
{
    match info {
        None => Err(LoadRefusal::NotFound),
        Some(i) => if i.is_downloaded {
            Ok(i.engine_type)
        } else {
            Err(LoadRefusal::NotDownloaded)
        },
    }
}

/// The message of a refused load.
pub fn load_refusal_message(refusal: &LoadRefusal, model_id: &str) -> (r: String)
    ensures
        r@ == match refusal {
            LoadRefusal::NotFound => "Model not found: "@ + model_id@,
            LoadRefusal::NotDownloaded => "Model not downloaded"@,
        },
{
    match refusal {
        LoadRefusal::NotFound => {
            let mut s = String::from_str("Model not found: ");
            s.append(model_id);
            s
        },
        LoadRefusal::NotDownloaded => String::from_str("Model not downloaded"),
    }
}

/// How an engine kind is named in load-failure messages.
pub open spec fn engine_load_name(engine: EngineType) -> Seq<char> {
    match engine {
        EngineType::Whisper => "whisper"@,
        EngineType::Parakeet => "parakeet"@,
        EngineType::Moonshine => "moonshine"@,
        EngineType::MoonshineStreaming => "moonshine streaming"@,
        EngineType::SenseVoice => "SenseVoice"@,
        EngineType::GigaAM => "gigaam"@,
        EngineType::Canary => "canary"@,
        EngineType::Cohere => "cohere"@,
    }
}

/// How an engine kind is named in transcription-failure messages.
pub open spec fn engine_run_name(engine: EngineType) -> Seq<char> {
    match engine {
        EngineType::Whisper => "Whisper"@,
        EngineType::Parakeet => "Parakeet"@,
        EngineType::Moonshine => "Moonshine"@,
        EngineType::MoonshineStreaming => "Moonshine streaming"@,
        EngineType::SenseVoice => "SenseVoice"@,
        EngineType::GigaAM => "GigaAM"@,
        EngineType::Canary => "Canary"@,
        EngineType::Cohere => "Cohere"@,
    }
}

/// `Failed to load <engine> model <id>: <error>`.
pub fn load_failure_message(engine: EngineType, model_id: &str, error: &str) -> (r: String)
    ensures
        r@ == "Failed to load "@ + engine_load_name(engine) + " model "@ + model_id@ + ": "@
            + error@,
{
    let mut s = String::from_str("Failed to load ");
    let name = match engine {
        EngineType::Whisper => "whisper",
        EngineType::Parakeet => "parakeet",
        EngineType::Moonshine => "moonshine",
        EngineType::MoonshineStreaming => "moonshine streaming",
        EngineType::SenseVoice => "SenseVoice",
        EngineType::GigaAM => "gigaam",
        EngineType::Canary => "canary",
        EngineType::Cohere => "cohere",
    };
    s.append(name);
    s.append(" model ");
    s.append(model_id);
    s.append(": ");
    s.append(error);
    s
}

/// Why a transcription run failed.
pub enum TranscriptionError {
    /// No engine is loaded.
    NotLoaded,
    /// The engine was gone when the run wanted it.
    LoadFailed,
    /// The engine panicked (its message) and was dropped.
    Panicked(String),
    /// The user cancelled the whisper run.
    Cancelled,
    /// The engine reported an error (its message).
    EngineFailed(EngineType, String),
}

/// The message of a failed run.
pub open spec fn transcription_error_message(e: TranscriptionError) -> Seq<char> {
    match e {
        TranscriptionError::NotLoaded => "Model is not loaded for transcription."@,
        TranscriptionError::LoadFailed => "Model failed to load after auto-load attempt. Please check your model settings."@,
        TranscriptionError::Panicked(m) => "Transcription engine panicked: "@ + m@
            + ". The model has been unloaded and will reload on next attempt."@,
        TranscriptionError::Cancelled => "Cancelled"@,
        TranscriptionError::EngineFailed(engine, m) => engine_run_name(engine)
            + " transcription failed: "@ + m@,
    }
}

impl TranscriptionError {
    /// The message shown for the error.
    pub fn message(&self) -> (r: String)
        ensures
            r@ == transcription_error_message(*self),
    {
        match self {
            TranscriptionError::NotLoaded => String::from_str(
                "Model is not loaded for transcription.",
            ),
            TranscriptionError::LoadFailed => String::from_str(
                "Model failed to load after auto-load attempt. Please check your model settings.",
            ),
            TranscriptionError::Panicked(m) => {
                let mut s = String::from_str("Transcription engine panicked: ");
                s.append(m.as_str());
                s.append(". The model has been unloaded and will reload on next attempt.");
                s
            },
            TranscriptionError::Cancelled => String::from_str("Cancelled"),
            TranscriptionError::EngineFailed(engine, m) => {
                let mut s = String::from_str(
                    match engine {
                        EngineType::Whisper => "Whisper",
                        EngineType::Parakeet => "Parakeet",
                        EngineType::Moonshine => "Moonshine",
                        EngineType::MoonshineStreaming => "Moonshine streaming",
                        EngineType::SenseVoice => "SenseVoice",
                        EngineType::GigaAM => "GigaAM",
                        EngineType::Canary => "Canary",
                        EngineType::Cohere => "Cohere",
                    },
                );
                s.append(" transcription failed: ");
                s.append(m.as_str());
                s
            },
        }
    }
}

/// A failed whisper run counts as cancelled when the run was aborted and
/// cancellation was requested.
pub fn classify_whisper_failure(aborted: bool, cancelled: bool, error: String) -> (r:
    TranscriptionError)
    ensures
        aborted && cancelled ==> r matches TranscriptionError::Cancelled,
        !(aborted && cancelled) ==> r == TranscriptionError::EngineFailed(EngineType::Whisper, error),
{
    if aborted && cancelled {
        TranscriptionError::Cancelled
    } else {
        TranscriptionError::EngineFailed(EngineType::Whisper, error)
    }
}

} // verus!
