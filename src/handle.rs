use vstd::prelude::*;
use crate::config::{SlicerConfig, opt_view, clone_opt};
use crate::error::{SlicerError, SLICER_SUCCESS, translates, diagnostic};

verus! {

/// How far a handle has come: what has succeeded on it so far.
#[derive(Debug, Clone, Copy, PartialEq, Eq)]
pub enum Stage {
    Empty,
    ModelLoaded,
    Processed,
}

/// One operation to be performed on the native context.
#[derive(Debug, Clone, PartialEq, Eq)]
pub enum NativeCall {
    LoadModel(String),
    LoadPreset(Option<String>, Option<String>, Option<String>),
    SetParam(String, String),
    Process,
    Export(String),
    ReadStats,
}

/// The kind of a native operation, without its arguments.
#[derive(Debug, Clone, Copy, PartialEq, Eq)]
pub enum CallKind {
    LoadModel,
    LoadPreset,
    SetParam,
    Process,
    Export,
    ReadStats,
}

/// A native operation with its arguments as text.
pub enum CallView {
    LoadModel(Seq<char>),
    LoadPreset(Option<Seq<char>>, Option<Seq<char>>, Option<Seq<char>>),
    SetParam(Seq<char>, Seq<char>),
    Process,
    Export(Seq<char>),
    ReadStats,
}

impl View for NativeCall {
    type V = CallView;

    open spec fn view(&self) -> CallView {
        match self {
            NativeCall::LoadModel(p) => CallView::LoadModel(p@),
            NativeCall::LoadPreset(a, b, c) => CallView::LoadPreset(
                opt_view(*a),
                opt_view(*b),
                opt_view(*c),
            ),
            NativeCall::SetParam(k, v) => CallView::SetParam(k@, v@),
            NativeCall::Process => CallView::Process,
            NativeCall::Export(p) => CallView::Export(p@),
            NativeCall::ReadStats => CallView::ReadStats,
        }
    }
}

impl CallView {
    /// The kind of this operation.
    pub open spec fn kind(self) -> CallKind {
        match self {
            CallView::LoadModel(_) => CallKind::LoadModel,
            CallView::LoadPreset(_, _, _) => CallKind::LoadPreset,
            CallView::SetParam(_, _) => CallKind::SetParam,
            CallView::Process => CallKind::Process,
            CallView::Export(_) => CallKind::Export,
            CallView::ReadStats => CallKind::ReadStats,
        }
    }
}

impl NativeCall {
    /// The kind of this operation.
    pub fn kind(&self) -> (r: CallKind)
        ensures
            r == self@.kind(),
    {
        match self {
            NativeCall::LoadModel(_) => CallKind::LoadModel,
            NativeCall::LoadPreset(_, _, _) => CallKind::LoadPreset,
            NativeCall::SetParam(_, _) => CallKind::SetParam,
            NativeCall::Process => CallKind::Process,
            NativeCall::Export(_) => CallKind::Export,
            NativeCall::ReadStats => CallKind::ReadStats,
        }
    }
}

/// What became of a statistics read: decoded, no payload, a payload that
/// is not UTF-8 text, or a payload that did not decode (with the decoder's
/// diagnostic).
#[derive(Debug, Clone, PartialEq, Eq)]
pub enum StatsOutcome {
    Decoded,
    Absent,
    NotUtf8,
    Malformed(String),
}

/// The state of a handle: its stage, the operation in flight, and whether
/// the native context has been released.
pub struct SlicerView {
    pub stage: Stage,
    pub pending: Option<CallKind>,
    pub released: bool,
}

impl SlicerView {
    /// No operation in flight and the context still owned.
    pub open spec fn idle(self) -> bool {
        self.pending.is_none() && !self.released
    }

    /// The same state with `call` in flight.
    pub open spec fn issuing(self, call: CallKind) -> SlicerView {
        SlicerView { stage: self.stage, pending: Some(call), released: self.released }
    }
}

/// The stage reached once `call` has succeeded at stage `s`.
pub open spec fn advanced(s: Stage, call: CallKind) -> Stage {
    match call {
        CallKind::LoadModel => Stage::ModelLoaded,
        CallKind::Process => Stage::Processed,
        _ => s,
    }
}

/// The stage reached from `s` once every one of `calls` has succeeded.
pub open spec fn stage_after(s: Stage, calls: Seq<CallView>) -> Stage
    decreases calls.len(),
{
    if calls.len() == 0 {
        s
    } else {
        advanced(stage_after(s, calls.drop_last()), calls.last().kind())
    }
}

/// An operation of this kind may run at stage `s`: processing needs a
/// model, export and the statistics read need a processed model.
pub open spec fn admits(s: Stage, k: CallKind) -> bool {
    match k {
        CallKind::Process => s != Stage::Empty,
        CallKind::Export => s == Stage::Processed,
        CallKind::ReadStats => s == Stage::Processed,
        _ => true,
    }
}

/// Some text of the operation holds a NUL character.
pub open spec fn call_has_nul(c: CallView) -> bool {
    match c {
        CallView::LoadModel(p) => has_nul(p),
        CallView::LoadPreset(a, b, d) => opt_has_nul(a) || opt_has_nul(b) || opt_has_nul(d),
        CallView::SetParam(k, v) => has_nul(k) || has_nul(v),
        CallView::Export(p) => has_nul(p),
        _ => false,
    }
}

/// The error with which the handle refuses operation `c` at stage `s`, if
/// it does: out of order first, then text the native layer cannot take.
pub open spec fn refusal(s: Stage, c: CallView) -> Option<SlicerError> {
    if !admits(s, c.kind()) {
        Some(SlicerError::NoModel)
    } else if call_has_nul(c) {
        Some(SlicerError::InvalidUtf8)
    } else {
        None
    }
}

/// `e` is the error that a failed statistics read with outcome `o` gives.
pub open spec fn stats_failure(o: StatsOutcome, e: SlicerError) -> bool {
    match o {
        StatsOutcome::Decoded => false,
        StatsOutcome::Absent => is_internal(e, "Failed to get statistics"@),
        StatsOutcome::NotUtf8 => is_internal(e, "Invalid UTF-8 in statistics"@),
        StatsOutcome::Malformed(d) => is_internal(e, "Failed to parse statistics: "@ + d@),
    }
}

/// `e` is an internal failure with text `t`.
pub open spec fn is_internal(e: SlicerError, t: Seq<char>) -> bool {
    match e {
        SlicerError::Internal(m) => m@ == t,
        _ => false,
    }
}

/// A NUL character, which no text passed to the native layer may hold.
pub open spec fn has_nul(s: Seq<char>) -> bool {
    s.contains('\0')
}

/// An optional text that is present and holds a NUL character.
pub open spec fn opt_has_nul(s: Option<Seq<char>>) -> bool {
    match s {
        Some(t) => has_nul(t),
        None => false,
    }
}

/// Whether `s` holds a NUL character.
pub fn contains_nul(s: &str) -> (r: bool)
    ensures
        r == has_nul(s@),
{
    let n = s.unicode_len();
    let mut i: usize = 0;
    while i < n
        invariant
            n == s@.len(),
            i <= n,
            forall|j: int| 0 <= j < i ==> s@[j] != '\0',
        decreases n - i,
    {
        if s.get_char(i) == '\0' {
            assert(s@[i as int] == '\0');
            return true;
        }
        i += 1;
    }
    false
}

fn opt_contains_nul(s: &Option<String>) -> (r: bool)
    ensures
        r == opt_has_nul(opt_view(*s)),
{
    match s {
        Some(t) => contains_nul(t.as_str()),
        None => false,
    }
}

/// The safe handle over one native slicing context.
///
/// Operations come in two halves: a method that decides whether the
/// operation may reach the native layer and hands out the call to make, and
/// `complete` (or `complete_stats`), which takes the native result and
/// translates it. Out-of-order operations are rejected here, before the
/// native layer sees them.
pub struct Slicer {
    stage: Stage,
    pending: Option<CallKind>,
    released: bool,
}

impl View for Slicer {
    type V = SlicerView;

    closed spec fn view(&self) -> SlicerView {
        SlicerView {
            stage: self.stage,
            pending: self.pending,
            released: self.released,
        }
    }
}

impl Slicer {
    /// Takes ownership of a native context; `created` tells whether the
    /// native `create` returned one.
    pub fn new(created: bool) -> (r: Result<Slicer, SlicerError>)
        ensures
            created <==> r is Ok,
            created ==> r->Ok_0@ == (SlicerView {
                stage: Stage::Empty,
                pending: None,
                released: false,
            }),
            !created ==> is_internal(r->Err_0, "Failed to create slicer context"@),
    {
        if !created {
            return Err(SlicerError::Internal(String::from_str("Failed to create slicer context")));
        }
        Ok(Slicer { stage: Stage::Empty, pending: None, released: false })
    }

    fn issue(&mut self, call: NativeCall) -> (r: Result<NativeCall, SlicerError>)
        ensures
            final(self)@ == old(self)@.issuing(call@.kind()),
            r is Ok && r->Ok_0 == call,
    {
        self.pending = Some(call.kind());
        Ok(call)
    }

    /// Whether the handle is ready for a new operation.
    pub fn is_idle(&self) -> (r: bool)
        ensures
            r == self@.idle(),
    {
        self.pending.is_none() && !self.released
    }

    /// Starts loading the model at `path`.
    pub fn load_model(&mut self, path: &str) -> (r: Result<NativeCall, SlicerError>)
        requires
            old(self)@.idle(),
        ensures
            has_nul(path@) ==> r == Err::<NativeCall, SlicerError>(SlicerError::InvalidUtf8)
                && final(self)@ == old(self)@,
            !has_nul(path@) ==> r is Ok && r->Ok_0@ == CallView::LoadModel(path@)
                && final(self)@ == old(self)@.issuing(CallKind::LoadModel),
    {
        if contains_nul(path) {
            return Err(SlicerError::InvalidUtf8);
        }
        self.issue(NativeCall::LoadModel(String::from_str(path)))
    }

    /// Starts configuring by preset names; absent names stay absent.
    pub fn load_preset(&mut self, config: &SlicerConfig) -> (r: Result<NativeCall, SlicerError>)
        requires
            old(self)@.idle(),
        ensures
            ({
                let p = opt_view(config.printer_preset);
                let f = opt_view(config.filament_preset);
                let q = opt_view(config.process_preset);
                &&& (opt_has_nul(p) || opt_has_nul(f) || opt_has_nul(q)) ==> r
                    == Err::<NativeCall, SlicerError>(SlicerError::InvalidUtf8) && final(self)@
                    == old(self)@
                &&& !(opt_has_nul(p) || opt_has_nul(f) || opt_has_nul(q)) ==> r is Ok
                    && r->Ok_0@ == CallView::LoadPreset(p, f, q) && final(self)@ == old(
                    self,
                )@.issuing(CallKind::LoadPreset)
            }),
    {
        if opt_contains_nul(&config.printer_preset) || opt_contains_nul(&config.filament_preset)
            || opt_contains_nul(&config.process_preset) {
            return Err(SlicerError::InvalidUtf8);
        }
        self.issue(
            NativeCall::LoadPreset(
                clone_opt(&config.printer_preset),
                clone_opt(&config.filament_preset),
                clone_opt(&config.process_preset),
            ),
        )
    }

    /// Starts setting one parameter override.
    pub fn set_config_param(&mut self, key: &str, value: &str) -> (r: Result<
        NativeCall,
        SlicerError,
    >)
        requires
            old(self)@.idle(),
        ensures
            (has_nul(key@) || has_nul(value@)) ==> r == Err::<NativeCall, SlicerError>(
                SlicerError::InvalidUtf8,
            ) && final(self)@ == old(self)@,
            !(has_nul(key@) || has_nul(value@)) ==> r is Ok && r->Ok_0@ == CallView::SetParam(
                key@,
                value@,
            ) && final(self)@ == old(self)@.issuing(CallKind::SetParam),
    {
        if contains_nul(key) || contains_nul(value) {
            return Err(SlicerError::InvalidUtf8);
        }
        self.issue(NativeCall::SetParam(String::from_str(key), String::from_str(value)))
    }

    /// Starts the slicing computation; refused with `NoModel` before a
    /// model has been loaded.
    pub fn slice(&mut self) -> (r: Result<NativeCall, SlicerError>)
        requires
            old(self)@.idle(),
        ensures
            old(self)@.stage == Stage::Empty ==> r == Err::<NativeCall, SlicerError>(
                SlicerError::NoModel,
            ) && final(self)@ == old(self)@,
            old(self)@.stage != Stage::Empty ==> r is Ok && r->Ok_0@ == CallView::Process
                && final(self)@ == old(self)@.issuing(CallKind::Process),
    {
        match self.stage {
            Stage::Empty => Err(SlicerError::NoModel),
            _ => self.issue(NativeCall::Process),
        }
    }

    /// Starts writing the toolpath to `path`; refused with `NoModel` before
    /// a successful `slice`.
    pub fn export_gcode(&mut self, path: &str) -> (r: Result<NativeCall, SlicerError>)
        requires
            old(self)@.idle(),
        ensures
            old(self)@.stage != Stage::Processed ==> r == Err::<NativeCall, SlicerError>(
                SlicerError::NoModel,
            ) && final(self)@ == old(self)@,
            old(self)@.stage == Stage::Processed && has_nul(path@) ==> r == Err::<
                NativeCall,
                SlicerError,
            >(SlicerError::InvalidUtf8) && final(self)@ == old(self)@,
            old(self)@.stage == Stage::Processed && !has_nul(path@) ==> r is Ok && r->Ok_0@
                == CallView::Export(path@) && final(self)@ == old(self)@.issuing(
                CallKind::Export,
            ),
    {
        match self.stage {
            Stage::Processed => {},
            _ => {
                return Err(SlicerError::NoModel);
            },
        }
        if contains_nul(path) {
            return Err(SlicerError::InvalidUtf8);
        }
        self.issue(NativeCall::Export(String::from_str(path)))
    }

    /// Starts reading the statistics; refused with `NoModel` before a
    /// successful `slice`.
    pub fn read_stats(&mut self) -> (r: Result<NativeCall, SlicerError>)
        requires
            old(self)@.idle(),
        ensures
            old(self)@.stage != Stage::Processed ==> r == Err::<NativeCall, SlicerError>(
                SlicerError::NoModel,
            ) && final(self)@ == old(self)@,
            old(self)@.stage == Stage::Processed ==> r is Ok && r->Ok_0@ == CallView::ReadStats
                && final(self)@ == old(self)@.issuing(CallKind::ReadStats),
    {
        match self.stage {
            Stage::Processed => self.issue(NativeCall::ReadStats),
            _ => Err(SlicerError::NoModel),
        }
    }

    /// Takes the native result of the operation in flight: the result code
    /// and the last-error text read right after it.
    pub fn complete(&mut self, code: i32, message: Option<String>) -> (r: Result<(), SlicerError>)
        requires
            old(self)@.pending is Some,
            old(self)@.pending != Some(CallKind::ReadStats),
        ensures
            final(self)@.pending is None,
            final(self)@.released == old(self)@.released,
            code == SLICER_SUCCESS ==> r is Ok && final(self)@.stage == advanced(
                old(self)@.stage,
                old(self)@.pending->Some_0,
            ),
            code != SLICER_SUCCESS ==> r is Err && translates(code, diagnostic(message), r->Err_0)
                && final(self)@.stage == old(self)@.stage,
    {
        let kind = match self.pending {
            Some(k) => k,
            None => CallKind::Process,
        };
        self.pending = None;
        if code != SLICER_SUCCESS {
            return Err(SlicerError::from_code(code, message));
        }
        match kind {
            CallKind::LoadModel => {
                self.stage = Stage::ModelLoaded;
            },
            CallKind::Process => {
                self.stage = Stage::Processed;
            },
            _ => {},
        }
        Ok(())
    }

    /// Takes what became of the statistics read in flight.
    pub fn complete_stats(&mut self, outcome: StatsOutcome) -> (r: Result<(), SlicerError>)
        requires
            old(self)@.pending == Some(CallKind::ReadStats),
        ensures
            final(self)@ == (SlicerView { pending: None, ..old(self)@ }),
            outcome is Decoded <==> r is Ok,
            !(outcome is Decoded) ==> stats_failure(outcome, r->Err_0),
    {
        self.pending = None;
        match outcome {
            StatsOutcome::Decoded => Ok(()),
            StatsOutcome::Absent => Err(
                SlicerError::Internal(String::from_str("Failed to get statistics")),
            ),
            StatsOutcome::NotUtf8 => Err(
                SlicerError::Internal(String::from_str("Invalid UTF-8 in statistics")),
            ),
            StatsOutcome::Malformed(d) => {
                let text = String::from_str("Failed to parse statistics: ").concat(d.as_str());
                Err(SlicerError::Internal(text))
            },
        }
    }

    /// Gives up the native context. Returns whether the caller must now
    /// destroy it: true the first time, false ever after.
    pub fn release(&mut self) -> (r: bool)
        requires
            old(self)@.pending is None,
        ensures
            r == !old(self)@.released,
            final(self)@ == (SlicerView { released: true, ..old(self)@ }),
    {
        if self.released {
            false
        } else {
            self.released = true;
            true
        }
    }
}

} // verus!
