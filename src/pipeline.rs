use vstd::prelude::*;
use crate::config::{SliceRequest, SlicerConfig, opt_view, clone_opt};
use crate::error::SlicerError;
use crate::handle::{
    Slicer, NativeCall, CallView, CallKind, Stage, StatsOutcome, stage_after, refusal, stats_failure,
    is_internal, call_has_nul, admits, advanced,
};

verus! {

/// What the driver of a job must do next.
#[derive(Debug)]
pub enum Action {
    /// Create a native context and report `Event::Created`.
    Create,
    /// Perform this native operation and report its result.
    Call(NativeCall),
    /// Destroy the native context and report `Event::Destroyed`.
    Destroy,
    /// The job is over, with this result.
    Finish(Result<(), SlicerError>),
}

/// What the driver observed after performing an action.
#[derive(Debug)]
pub enum Event {
    /// Whether `create` returned a context.
    Created(bool),
    /// Result code of a native operation, and the last-error text read
    /// right after it.
    Returned(i32, Option<String>),
    /// What became of a statistics read.
    Stats(StatsOutcome),
    /// The context has been destroyed.
    Destroyed,
}

/// An action as the job's record keeps it.
pub enum Step {
    Create,
    Call(CallView),
    Destroy,
    Finish(bool),
}

/// Where a job is in its run.
#[derive(Debug, Clone, Copy, PartialEq, Eq)]
pub enum RunState {
    Ready,
    Creating,
    Running,
    Destroying,
    Done,
}

/// The preset stage of a plan: present when any preset name is given.
pub open spec fn preset_calls(req: SliceRequest) -> Seq<CallView> {
    if req.names_preset() {
        seq![
            CallView::LoadPreset(
                opt_view(req.printer_preset),
                opt_view(req.filament_preset),
                opt_view(req.process_preset),
            ),
        ]
    } else {
        Seq::empty()
    }
}

/// One override operation per (key, value) pair, in order.
pub open spec fn override_calls(o: Seq<(Seq<char>, Seq<char>)>) -> Seq<CallView> {
    o.map_values(|p: (Seq<char>, Seq<char>)| CallView::SetParam(p.0, p.1))
}

/// The native operations of a job, in the order they run: load the model,
/// load the presets if any is named, apply the overrides, process, export,
/// read the statistics.
pub open spec fn planned_calls(model: Seq<char>, output: Seq<char>, req: SliceRequest) -> Seq<
    CallView,
> {
    seq![CallView::LoadModel(model)] + preset_calls(req) + override_calls(req.overrides()) + seq![
        CallView::Process,
        CallView::Export(output),
        CallView::ReadStats,
    ]
}

/// The record of a sequence of issued operations.
pub open spec fn call_steps(calls: Seq<CallView>) -> Seq<Step> {
    calls.map_values(|c: CallView| Step::Call(c))
}

/// Builds the operations of a job, in order.
pub fn plan_job(model_path: &str, output_path: &str, request: &SliceRequest) -> (r: Vec<NativeCall>)
    ensures
        r@.map_values(|c: NativeCall| c@) == planned_calls(model_path@, output_path@, *request),
{
    let mut plan: Vec<NativeCall> = Vec::new();
    plan.push(NativeCall::LoadModel(String::from_str(model_path)));
    if request.has_preset() {
        plan.push(
            NativeCall::LoadPreset(
                clone_opt(&request.printer_preset),
                clone_opt(&request.filament_preset),
                clone_opt(&request.process_preset),
            ),
        );
    }
    let ghost head = seq![CallView::LoadModel(model_path@)] + preset_calls(*request);
    assert(plan@.map_values(|c: NativeCall| c@) =~= head);
    match &request.custom_params {
        Some(params) => {
            let n = params.len();
            let mut i: usize = 0;
            while i < n
                invariant
                    n == params@.len(),
                    i <= n,
                    request.custom_params == Some(*params),
                    plan@.map_values(|c: NativeCall| c@) =~= head + override_calls(
                        request.overrides().take(i as int),
                    ),
                decreases n - i,
            {
                let (k, v) = &params[i];
                let ghost before = plan@;
                plan.push(NativeCall::SetParam(k.clone(), v.clone()));
                proof {
                    let o = request.overrides();
                    assert(o[i as int] == (k@, v@));
                    assert(o.take(i + 1) =~= o.take(i as int).push((k@, v@)));
                    assert(override_calls(o.take(i + 1)) =~= override_calls(o.take(i as int)).push(
                        CallView::SetParam(k@, v@),
                    ));
                    assert(plan@ =~= before.push(NativeCall::SetParam(*k, *v)));
                    assert(plan@.map_values(|c: NativeCall| c@) =~= before.map_values(
                        |c: NativeCall| c@,
                    ).push(CallView::SetParam(k@, v@)));
                }
                i += 1;
            }
            assert(request.overrides().take(n as int) =~= request.overrides());
        },
        None => {
            assert(request.overrides() =~= Seq::empty());
        },
    }
    plan.push(NativeCall::Process);
    plan.push(NativeCall::Export(String::from_str(output_path)));
    plan.push(NativeCall::ReadStats);
    assert(plan@.map_values(|c: NativeCall| c@) =~= planned_calls(
        model_path@,
        output_path@,
        *request,
    ));
    plan
}

/// Hands `call` to the handle, which checks it and records it as in flight.
fn dispatch(h: &mut Slicer, call: &NativeCall) -> (r: Result<NativeCall, SlicerError>)
    requires
        old(h)@.idle(),
    ensures
        match refusal(old(h)@.stage, call@) {
            None => r is Ok && r->Ok_0@ == call@ && final(h)@ == old(h)@.issuing(call@.kind()),
            Some(e) => r == Err::<NativeCall, SlicerError>(e) && final(h)@ == old(h)@,
        },
{
    match call {
        NativeCall::LoadModel(p) => h.load_model(p.as_str()),
        NativeCall::LoadPreset(a, b, c) => {
            let config = SlicerConfig {
                printer_preset: clone_opt(a),
                filament_preset: clone_opt(b),
                process_preset: clone_opt(c),
                custom_config_json: None,
            };
            h.load_preset(&config)
        },
        NativeCall::SetParam(k, v) => h.set_config_param(k.as_str(), v.as_str()),
        NativeCall::Process => h.slice(),
        NativeCall::Export(p) => h.export_gcode(p.as_str()),
        NativeCall::ReadStats => h.read_stats(),
    }
}

impl Action {
    /// How the record keeps this action.
    pub open spec fn step(self) -> Step {
        match self {
            Action::Create => Step::Create,
            Action::Call(c) => Step::Call(c@),
            Action::Destroy => Step::Destroy,
            Action::Finish(r) => Step::Finish(r is Ok),
        }
    }
}

/// One slicing job: the ordered native operations of its configuration,
/// run on one handle with fail-fast short-circuiting, and the handle
/// destroyed exactly once at the end.
///
/// The driver performs each `Action` it is given and reports what came of
/// it as the next `Event`.
pub struct JobPipeline {
    plan: Vec<NativeCall>,
    next: usize,
    state: RunState,
    handle: Option<Slicer>,
    failure: Option<SlicerError>,
    calls: Ghost<Seq<CallView>>,
    log: Ghost<Seq<Step>>,
    created: Ghost<bool>,
}

/// The error with which the handle refuses the planned operation at `k`,
/// once every operation before it has succeeded.
pub open spec fn planned_refusal(plan: Seq<CallView>, k: int) -> Option<SlicerError> {
    refusal(stage_after(Stage::Empty, plan.take(k)), plan[k])
}

/// The event reports success: a context was created, a native operation
/// returned the success code, or the statistics decoded.
pub open spec fn succeeded(e: Event) -> bool {
    match e {
        Event::Created(ok) => ok,
        Event::Returned(code, _) => code == crate::error::SLICER_SUCCESS,
        Event::Stats(o) => o is Decoded,
        Event::Destroyed => false,
    }
}

impl JobPipeline {
    /// The planned operations.
    pub closed spec fn plan(&self) -> Seq<CallView> {
        self.calls@
    }

    /// Every action handed out so far, in order.
    pub closed spec fn log(&self) -> Seq<Step> {
        self.log@
    }

    /// Where the run is.
    pub closed spec fn state(&self) -> RunState {
        self.state
    }

    /// How many planned operations have been handed out.
    pub closed spec fn issued(&self) -> int {
        self.next as int
    }

    /// Whether `create` returned a context in this run.
    pub closed spec fn context_created(&self) -> bool {
        self.created@
    }

    /// The error that ended the run, while the handle is being destroyed.
    pub closed spec fn failure(&self) -> Option<SlicerError> {
        self.failure
    }

    /// The run has handed out its `Finish` action.
    pub open spec fn finished(&self) -> bool {
        self.state() == RunState::Done
    }

    /// The record of a run that created a context and issued the first
    /// `n` planned operations.
    pub open spec fn issued_log(&self, n: int) -> Seq<Step> {
        seq![Step::Create] + call_steps(self.plan().take(n))
    }

    /// The event that the run waits for: the result of creation, of the
    /// operation in flight (a statistics outcome for the statistics read),
    /// or of destruction.
    pub open spec fn awaits(&self, e: Event) -> bool {
        match self.state() {
            RunState::Creating => e is Created,
            RunState::Running => if self.plan()[self.issued() - 1] is ReadStats {
                e is Stats
            } else {
                e is Returned
            },
            RunState::Destroying => e is Destroyed,
            _ => false,
        }
    }

    /// The state agrees with the record: the operations issued are the
    /// first planned ones, the handle has reached the stage that their
    /// success gives, it is in flight exactly while an operation runs, and
    /// it is released before a run that created it finishes.
    pub closed spec fn wf(&self) -> bool {
        &&& self.plan@.map_values(|c: NativeCall| c@) == self.calls@
        &&& self.next <= self.plan@.len()
        &&& match self.state {
            RunState::Ready => {
                &&& self.log@ == Seq::<Step>::empty()
                &&& self.handle is None
                &&& self.next == 0
                &&& self.failure is None
                &&& !self.created@
            },
            RunState::Creating => {
                &&& self.log@ == seq![Step::Create]
                &&& self.handle is None
                &&& self.next == 0
                &&& self.failure is None
                &&& !self.created@
            },
            RunState::Running => {
                &&& self.handle is Some
                &&& 1 <= self.next
                &&& self.handle->Some_0@.pending == Some(self.calls@[self.next - 1].kind())
                &&& self.handle->Some_0@.stage == stage_after(
                    Stage::Empty,
                    self.calls@.take(self.next - 1),
                )
                &&& !self.handle->Some_0@.released
                &&& self.log@ == self.issued_log(self.next as int)
                &&& self.failure is None
                &&& self.created@
            },
            RunState::Destroying => {
                &&& self.handle is Some
                &&& self.handle->Some_0@.released
                &&& self.handle->Some_0@.pending is None
                &&& self.log@ == self.issued_log(self.next as int).push(Step::Destroy)
                &&& self.failure is None ==> self.next == self.plan@.len()
                &&& self.created@
            },
            RunState::Done => if self.created@ {
                &&& self.log@.len() >= 1
                &&& self.log@.drop_last() == self.issued_log(self.next as int).push(Step::Destroy)
                &&& self.log@.last() is Finish
                &&& self.log@.last()->Finish_0 ==> self.next == self.plan@.len()
            } else {
                self.log@ == seq![Step::Create, Step::Finish(false)]
            },
        }
    }

    /// A job that has not started yet.
    pub fn new(model_path: &str, output_path: &str, request: &SliceRequest) -> (r: JobPipeline)
        ensures
            r.wf(),
            r.state() == RunState::Ready,
            r.log() == Seq::<Step>::empty(),
            r.issued() == 0,
            !r.context_created(),
            r.plan() == planned_calls(model_path@, output_path@, *request),
    {
        let plan = plan_job(model_path, output_path, request);
        JobPipeline {
            plan,
            next: 0,
            state: RunState::Ready,
            handle: None,
            failure: None,
            calls: Ghost(planned_calls(model_path@, output_path@, *request)),
            log: Ghost(Seq::empty()),
            created: Ghost(false),
        }
    }

    /// Whether the run is waiting for `event`.
    pub fn accepts(&self, event: &Event) -> (r: bool)
        requires
            self.wf(),
        ensures
            r == self.awaits(*event),
    {
        match self.state {
            RunState::Creating => matches!(event, Event::Created(_)),
            RunState::Running => {
                proof {
                    assert(self.plan@.map_values(|c: NativeCall| c@)[self.next - 1]
                        == self.plan@[self.next - 1]@);
                }
                match self.plan[self.next - 1].kind() {
                    CallKind::ReadStats => matches!(event, Event::Stats(_)),
                    _ => matches!(event, Event::Returned(_, _)),
                }
            },
            RunState::Destroying => matches!(event, Event::Destroyed),
            _ => false,
        }
    }

    /// Starts the run: the first action is always to create a context.
    pub fn start(&mut self) -> (a: Action)
        requires
            old(self).wf(),
            old(self).state() == RunState::Ready,
        ensures
            final(self).wf(),
            final(self).plan() == old(self).plan(),
            final(self).state() == RunState::Creating,
            final(self).issued() == 0,
            !final(self).context_created(),
            a is Create,
            final(self).log() == seq![Step::Create],
    {
        self.state = RunState::Creating;
        let ghost first = seq![Step::Create];
        self.log = Ghost(first);
        Action::Create
    }

    /// Releases the handle and asks for its destruction.
    fn begin_destroy(&mut self) -> (a: Action)
        requires
            old(self).handle is Some,
            old(self).handle->Some_0@.idle(),
            old(self).next <= old(self).plan@.len(),
            old(self).failure is None ==> old(self).next == old(self).plan@.len(),
            old(self).log@ == old(self).issued_log(old(self).next as int),
        ensures
            a is Destroy,
            final(self).state == RunState::Destroying,
            final(self).handle is Some,
            final(self).handle->Some_0@.released,
            final(self).handle->Some_0@.pending is None,
            final(self).log@ == old(self).log@.push(Step::Destroy),
            final(self).plan == old(self).plan,
            final(self).calls == old(self).calls,
            final(self).next == old(self).next,
            final(self).failure == old(self).failure,
            final(self).created == old(self).created,
    {
        let mut h = self.handle.take().unwrap();
        let first = h.release();
        assert(first);
        self.handle = Some(h);
        self.state = RunState::Destroying;
        self.log = Ghost(self.log@.push(Step::Destroy));
        Action::Destroy
    }

    /// Issues the next planned operation, or asks for the destruction of
    /// the handle when none is left or the handle refuses it.
    fn issue_next(&mut self) -> (a: Action)
        requires
            old(self).plan@.map_values(|c: NativeCall| c@) == old(self).calls@,
            old(self).handle is Some,
            old(self).handle->Some_0@.idle(),
            old(self).handle->Some_0@.stage == stage_after(
                Stage::Empty,
                old(self).calls@.take(old(self).next as int),
            ),
            old(self).next <= old(self).plan@.len(),
            old(self).failure is None,
            old(self).log@ == old(self).issued_log(old(self).next as int),
            old(self).created@,
        ensures
            final(self).wf(),
            final(self).plan() == old(self).plan(),
            final(self).log() == old(self).log().push(a.step()),
            final(self).context_created(),
            old(self).next < old(self).plan@.len() ==> match planned_refusal(
                old(self).plan(),
                old(self).next as int,
            ) {
                None => a is Call && a->Call_0@ == old(self).plan()[old(self).next as int]
                    && final(self).state() == RunState::Running && final(self).issued()
                    == old(self).next + 1,
                Some(e) => a is Destroy && final(self).state() == RunState::Destroying
                    && final(self).failure() == Some(e),
            },
            old(self).next == old(self).plan@.len() ==> a is Destroy && final(self).state()
                == RunState::Destroying && final(self).failure() is None,
    {
        if self.next == self.plan.len() {
            return self.begin_destroy();
        }
        let mut h = self.handle.take().unwrap();
        proof {
            let n = self.next as int;
            assert(self.plan@.map_values(|c: NativeCall| c@)[n] == self.plan@[n]@);
        }
        let r = dispatch(&mut h, &self.plan[self.next]);
        self.handle = Some(h);
        match r {
            Ok(call) => {
                proof {
                    let n = self.next as int;
                    assert(self.calls@.take(n + 1) =~= self.calls@.take(n).push(self.calls@[n]));
                    assert(call_steps(self.calls@.take(n + 1)) =~= call_steps(
                        self.calls@.take(n),
                    ).push(Step::Call(self.calls@[n])));
                    assert(self.issued_log(n + 1) =~= self.issued_log(n).push(
                        Step::Call(call@),
                    ));
                }
                self.next = self.next + 1;
                self.state = RunState::Running;
                self.log = Ghost(self.log@.push(Step::Call(call@)));
                Action::Call(call)
            },
            Err(e) => {
                self.failure = Some(e);
                self.begin_destroy()
            },
        }
    }

    /// Takes what came of the last action and hands out the next one.
    ///
    /// After a success the next planned operation is handed out, unless
    /// the handle refuses it or none is left; then the context is to be
    /// destroyed. After a failure the context is to be destroyed and the
    /// translated error kept; after the destruction the run finishes with
    /// that error, or with success when there was none. A failed creation
    /// finishes the run at once, as there is nothing to destroy.
    pub fn advance(&mut self, event: Event) -> (a: Action)
        requires
            old(self).wf(),
            old(self).awaits(event),
        ensures
            final(self).wf(),
            final(self).plan() == old(self).plan(),
            final(self).log() == old(self).log().push(a.step()),
            a is Finish <==> final(self).finished(),
            event is Created ==> final(self).context_created() == event->Created_0,
            !(event is Created) ==> final(self).context_created() == old(self).context_created(),
            event == Event::Created(false) ==> a is Finish && a->Finish_0 is Err && is_internal(
                a->Finish_0->Err_0,
                "Failed to create slicer context"@,
            ),
            succeeded(event) && old(self).issued() < old(self).plan().len() ==> match planned_refusal(
                old(self).plan(),
                old(self).issued(),
            ) {
                None => a is Call && a->Call_0@ == old(self).plan()[old(self).issued()]
                    && final(self).state() == RunState::Running && final(self).issued() == old(
                    self,
                ).issued() + 1,
                Some(e) => a is Destroy && final(self).state() == RunState::Destroying
                    && final(self).failure() == Some(e),
            },
            succeeded(event) && old(self).issued() == old(self).plan().len() ==> a is Destroy
                && final(self).state() == RunState::Destroying && final(self).failure() is None,
            (event is Returned && !succeeded(event)) ==> a is Destroy && final(self).state()
                == RunState::Destroying && final(self).failure() is Some
                && crate::error::translates(
                event->Returned_0,
                crate::error::diagnostic(event->Returned_1),
                final(self).failure()->Some_0,
            ),
            (event is Stats && !succeeded(event)) ==> a is Destroy && final(self).state()
                == RunState::Destroying && final(self).failure() is Some && stats_failure(
                event->Stats_0,
                final(self).failure()->Some_0,
            ),
            event is Destroyed ==> a == Action::Finish(
                match old(self).failure() {
                    Some(e) => Err(e),
                    None => Ok(()),
                },
            ),
    {
        match event {
            Event::Created(ok) => {
                match Slicer::new(ok) {
                    Ok(h) => {
                        self.handle = Some(h);
                        self.created = Ghost(true);
                        proof {
                            assert(self.calls@.take(0) =~= Seq::<CallView>::empty());
                            assert(self.issued_log(0) =~= seq![Step::Create]);
                        }
                        self.issue_next()
                    },
                    Err(e) => {
                        self.state = RunState::Done;
                        self.log = Ghost(self.log@.push(Step::Finish(false)));
                        proof {
                            assert(self.log@ =~= seq![Step::Create, Step::Finish(false)]);
                        }
                        Action::Finish(Err(e))
                    },
                }
            },
            Event::Returned(code, message) => {
                let mut h = self.handle.take().unwrap();
                proof {
                    let n = self.next as int;
                    assert(self.calls@.take(n).drop_last() =~= self.calls@.take(n - 1));
                }
                let r = h.complete(code, message);
                self.handle = Some(h);
                match r {
                    Ok(()) => self.issue_next(),
                    Err(e) => {
                        self.failure = Some(e);
                        self.begin_destroy()
                    },
                }
            },
            Event::Stats(outcome) => {
                let mut h = self.handle.take().unwrap();
                proof {
                    let n = self.next as int;
                    assert(self.calls@.take(n).drop_last() =~= self.calls@.take(n - 1));
                }
                let r = h.complete_stats(outcome);
                self.handle = Some(h);
                match r {
                    Ok(()) => self.issue_next(),
                    Err(e) => {
                        self.failure = Some(e);
                        self.begin_destroy()
                    },
                }
            },
            Event::Destroyed => {
                let ok = self.failure.is_none();
                self.state = RunState::Done;
                self.log = Ghost(self.log@.push(Step::Finish(ok)));
                proof {
                    assert(self.log@.drop_last() =~= self.issued_log(self.next as int).push(
                        Step::Destroy,
                    ));
                }
                match self.failure.take() {
                    Some(e) => Action::Finish(Err(e)),
                    None => Action::Finish(Ok(())),
                }
            },
        }
    }
}

/// How many times the record asks for the context to be destroyed.
pub open spec fn destroy_count(log: Seq<Step>) -> nat
    decreases log.len(),
{
    if log.len() == 0 {
        0
    } else {
        destroy_count(log.drop_last()) + if log.last() is Destroy {
            1nat
        } else {
            0nat
        }
    }
}

/// The record holds a preset operation.
pub open spec fn loads_preset(log: Seq<Step>) -> bool {
    exists|i: int| 0 <= i < log.len() && log[i] is Call && log[i]->Call_0 is LoadPreset
}

/// The value last given to `key` by an override operation in the record.
pub open spec fn value_in_effect(log: Seq<Step>, key: Seq<char>) -> Option<Seq<char>>
    decreases log.len(),
{
    if log.len() == 0 {
        None
    } else {
        match log.last() {
            Step::Call(CallView::SetParam(k, v)) => if k == key {
                Some(v)
            } else {
                value_in_effect(log.drop_last(), key)
            },
            _ => value_in_effect(log.drop_last(), key),
        }
    }
}

/// The value last given to `key` in a list of overrides.
pub open spec fn last_value(o: Seq<(Seq<char>, Seq<char>)>, key: Seq<char>) -> Option<Seq<char>>
    decreases o.len(),
{
    if o.len() == 0 {
        None
    } else if o.last().0 == key {
        Some(o.last().1)
    } else {
        last_value(o.drop_last(), key)
    }
}

proof fn lemma_no_destroy_count(log: Seq<Step>)
    requires
        forall|i: int| 0 <= i < log.len() ==> !(log[i] is Destroy),
    ensures
        destroy_count(log) == 0,
    decreases log.len(),
{
    if log.len() > 0 {
        lemma_no_destroy_count(log.drop_last());
    }
}

proof fn lemma_override_values(head: Seq<Step>, o: Seq<(Seq<char>, Seq<char>)>, key: Seq<char>)
    ensures
        value_in_effect(head + call_steps(override_calls(o)), key) == match last_value(o, key) {
            Some(v) => Some(v),
            None => value_in_effect(head, key),
        },
    decreases o.len(),
{
    let whole = head + call_steps(override_calls(o));
    if o.len() == 0 {
        assert(whole =~= head);
    } else {
        let rest = o.drop_last();
        assert(whole.drop_last() =~= head + call_steps(override_calls(rest)));
        assert(whole.last() == Step::Call(CallView::SetParam(o.last().0, o.last().1)));
        lemma_override_values(head, rest, key);
    }
}

impl JobPipeline {
    /// A run issues its planned operations strictly in order: every
    /// operation in the record is the planned one at its place, preceded by
    /// exactly the planned operations before it, and the record starts with
    /// the creation of the context.
    pub proof fn lemma_log_follows_plan(&self)
        requires
            self.wf(),
            self.state() != RunState::Ready,
        ensures
            self.log().len() >= 1,
            self.log()[0] == Step::Create,
            forall|i: int|
                0 <= i < self.log().len() && #[trigger] self.log()[i] is Call ==> 1 <= i
                    <= self.plan().len() && self.log()[i] == Step::Call(self.plan()[i - 1])
                    && self.log().take(i) == self.issued_log(i - 1),
    {
        let n = self.next as int;
        let base = self.issued_log(n);
        assert(base[0] == Step::Create);
        assert forall|i: int| 0 <= i < base.len() && #[trigger] base[i] is Call implies 1 <= i
            <= self.plan().len() && base[i] == Step::Call(self.plan()[i - 1]) && base.take(i)
            == self.issued_log(i - 1) by {
            if i >= 1 {
                assert(base[i] == Step::Call(self.plan().take(n)[i - 1]));
                assert(base.take(i) =~= self.issued_log(i - 1));
            }
        }
        if self.state == RunState::Done && !(self.log@ == seq![Step::Create, Step::Finish(false)]) {
            assert(self.log@ =~= base.push(Step::Destroy).push(self.log@.last()));
        }
        assert forall|i: int|
            0 <= i < self.log().len() && #[trigger] self.log()[i] is Call implies 1 <= i
                <= self.plan().len() && self.log()[i] == Step::Call(self.plan()[i - 1])
                && self.log().take(i) == self.issued_log(i - 1) by {
            assert(i < base.len());
            assert(self.log()[i] == base[i]);
            assert(self.log().take(i) =~= base.take(i));
        }
    }

    /// A finished run whose `create` returned a context has destroyed it
    /// exactly once, as its last action before finishing, so no operation
    /// follows the destruction; a run whose `create` returned none destroys
    /// nothing and issues no operation.
    pub proof fn lemma_destroyed_exactly_once(&self)
        requires
            self.wf(),
            self.finished(),
        ensures
            !self.context_created() ==> destroy_count(self.log()) == 0 && self.log() == seq![
                Step::Create,
                Step::Finish(false),
            ],
            self.context_created() ==> destroy_count(self.log()) == 1 && self.log().len() >= 3
                && self.log()[self.log().len() - 2] is Destroy,
            self.log().last() is Finish,
    {
        let log = self.log();
        if !self.context_created() {
            lemma_no_destroy_count(log);
        } else {
            let base = self.issued_log(self.next as int);
            assert(log =~= base.push(Step::Destroy).push(log.last()));
            assert forall|i: int| 0 <= i < base.len() implies !(base[i] is Destroy) by {
                if i >= 1 {
                    assert(base[i] == Step::Call(self.plan().take(self.next as int)[i - 1]));
                }
            }
            lemma_no_destroy_count(base);
            assert(log.drop_last().drop_last() =~= base);
            assert(log.drop_last().last() is Destroy);
            assert(destroy_count(log.drop_last()) == destroy_count(base) + 1);
            assert(destroy_count(log) == destroy_count(log.drop_last()));
        }
    }

    /// A run that finishes with success has issued every planned
    /// operation, in order, and then destroyed its context.
    pub proof fn lemma_success_ran_whole_plan(&self)
        requires
            self.wf(),
            self.finished(),
            self.log().last() == Step::Finish(true),
        ensures
            self.log() == (seq![Step::Create] + call_steps(self.plan())).push(Step::Destroy).push(
                Step::Finish(true),
            ),
    {
        let log = self.log();
        assert(self.created@);
        assert(self.next == self.plan@.len());
        assert(self.plan().take(self.next as int) =~= self.plan());
        assert(log =~= log.drop_last().push(log.last()));
    }

    /// A job whose configuration names no preset never loads one.
    pub proof fn lemma_no_preset_without_names(
        &self,
        model: Seq<char>,
        output: Seq<char>,
        request: SliceRequest,
    )
        requires
            self.wf(),
            self.plan() == planned_calls(model, output, request),
            !request.names_preset(),
        ensures
            !loads_preset(self.log()),
    {
        if self.state() != RunState::Ready {
            self.lemma_log_follows_plan();
        }
        let o = override_calls(request.overrides());
        assert(preset_calls(request) =~= Seq::<CallView>::empty());
        assert forall|j: int| 0 <= j < self.plan().len() implies !(self.plan()[j] is LoadPreset) by {
            if 1 <= j < 1 + o.len() {
                assert(self.plan()[j] == o[j - 1]);
            }
        }
        assert forall|i: int|
            0 <= i < self.log().len() && self.log()[i] is Call implies !(
            self.log()[i]->Call_0 is LoadPreset) by {
            assert(self.log()[i] is Call);
        }
    }

    /// Of several overrides of one key, the last one supplied is the one
    /// in effect when the slicing computation is issued.
    pub proof fn lemma_last_override_wins(
        &self,
        model: Seq<char>,
        output: Seq<char>,
        request: SliceRequest,
        key: Seq<char>,
        j: int,
    )
        requires
            self.wf(),
            self.plan() == planned_calls(model, output, request),
            0 <= j < self.log().len(),
            self.log()[j] == Step::Call(CallView::Process),
        ensures
            value_in_effect(self.log().take(j), key) == last_value(request.overrides(), key),
    {
        self.lemma_log_follows_plan();
        let pre = seq![CallView::LoadModel(model)] + preset_calls(request);
        let o = request.overrides();
        let k = (pre.len() + o.len()) as int;
        let plan = self.plan();
        assert(plan[j - 1] == CallView::Process);
        assert forall|t: int| 0 <= t < plan.len() && plan[t] == CallView::Process implies t == k by {
            if t < pre.len() {
                assert(plan[t] == pre[t]);
            } else if t < k {
                assert(plan[t] == override_calls(o)[t - pre.len()]);
            } else if t > k {
                assert(plan[t] == seq![CallView::Process, CallView::Export(output), CallView::ReadStats][t - k]);
            }
        }
        assert(j - 1 == k);
        let head = seq![Step::Create] + call_steps(pre);
        assert(plan.take(k) =~= pre + override_calls(o));
        assert(self.issued_log(k) =~= head + call_steps(override_calls(o)));
        lemma_override_values(head, o, key);
        assert forall|i: int| 0 <= i < head.len() implies !(head[i] is Call && head[i]->Call_0 is SetParam) by {
            if i >= 1 {
                assert(head[i] == Step::Call(pre[i - 1]));
            }
        }
        lemma_no_override_value(head, key);
    }
}

proof fn lemma_no_override_value(log: Seq<Step>, key: Seq<char>)
    requires
        forall|i: int| 0 <= i < log.len() ==> !(log[i] is Call && log[i]->Call_0 is SetParam),
    ensures
        value_in_effect(log, key) is None,
    decreases log.len(),
{
    if log.len() > 0 {
        assert(!(log.last() is Call && log.last()->Call_0 is SetParam));
        lemma_no_override_value(log.drop_last(), key);
    }
}

/// The request of the preset flow for `config`: its preset names and no
/// overrides. A raw override document has no native operation.
pub open spec fn preset_request(config: SlicerConfig) -> SliceRequest {
    SliceRequest {
        printer_preset: config.printer_preset,
        filament_preset: config.filament_preset,
        process_preset: config.process_preset,
        custom_params: None,
    }
}

/// The one-call preset flow: a job that loads the model at `model_path`,
/// loads the presets of `config` if any is named, processes, exports to
/// `output_path` and reads the statistics.
pub fn slice_model(model_path: &str, config: &SlicerConfig, output_path: &str) -> (r: JobPipeline)
    ensures
        r.wf(),
        r.state() == RunState::Ready,
        r.log() == Seq::<Step>::empty(),
        r.plan() == planned_calls(model_path@, output_path@, preset_request(*config)),
{
    let request = SliceRequest {
        printer_preset: clone_opt(&config.printer_preset),
        filament_preset: clone_opt(&config.filament_preset),
        process_preset: clone_opt(&config.process_preset),
        custom_params: None,
    };
    let r = JobPipeline::new(model_path, output_path, &request);
    assert(planned_calls(model_path@, output_path@, request) =~= planned_calls(
        model_path@,
        output_path@,
        preset_request(*config),
    ));
    r
}

proof fn lemma_stage_after_concat(s: Stage, a: Seq<CallView>, b: Seq<CallView>)
    ensures
        stage_after(s, a + b) == stage_after(stage_after(s, a), b),
    decreases b.len(),
{
    if b.len() == 0 {
        assert(a + b =~= a);
    } else {
        assert((a + b).drop_last() =~= a + b.drop_last());
        lemma_stage_after_concat(s, a, b.drop_last());
    }
}

proof fn lemma_stage_after_configuring(s: Stage, a: Seq<CallView>)
    requires
        forall|i: int| 0 <= i < a.len() ==> (a[i] is LoadPreset || a[i] is SetParam),
    ensures
        stage_after(s, a) == s,
    decreases a.len(),
{
    if a.len() > 0 {
        lemma_stage_after_configuring(s, a.drop_last());
    }
}

/// A planned job is never refused for its order: every planned operation
/// comes once the stage it needs has been reached, so the handle refuses
/// one only for text holding a NUL character.
pub proof fn lemma_plan_in_order(model: Seq<char>, output: Seq<char>, request: SliceRequest, k: int)
    requires
        0 <= k < planned_calls(model, output, request).len(),
    ensures
        planned_refusal(planned_calls(model, output, request), k) == if call_has_nul(
            planned_calls(model, output, request)[k],
        ) {
            Some(SlicerError::InvalidUtf8)
        } else {
            None::<SlicerError>
        },
{
    let plan = planned_calls(model, output, request);
    let mid = preset_calls(request) + override_calls(request.overrides());
    let head = seq![CallView::LoadModel(model)];
    let p = (1 + mid.len()) as int;
    assert forall|i: int| 0 <= i < mid.len() implies (mid[i] is LoadPreset || mid[i] is SetParam) by {
        if i >= preset_calls(request).len() {
            assert(mid[i] == override_calls(request.overrides())[i - preset_calls(request).len()]);
        }
    }
    assert(plan.take(p) =~= head + mid);
    assert(stage_after(Stage::Empty, head) == Stage::ModelLoaded) by {
        assert(head.drop_last() =~= Seq::<CallView>::empty());
    }
    lemma_stage_after_concat(Stage::Empty, head, mid);
    lemma_stage_after_configuring(Stage::ModelLoaded, mid);
    let loaded = stage_after(Stage::Empty, plan.take(p));
    assert(loaded == Stage::ModelLoaded);
    if k == 0 {
        assert(plan[k] == CallView::LoadModel(model));
    } else if 1 <= k < p {
        assert(plan[k] == mid[k - 1]);
    } else if k == p {
        assert(plan[k] == CallView::Process);
    } else if k == p + 1 {
        assert(plan[k] == CallView::Export(output));
        assert(plan.take(k).drop_last() =~= plan.take(p));
        assert(plan.take(k).last() == CallView::Process);
        assert(stage_after(Stage::Empty, plan.take(k)) == advanced(loaded, CallKind::Process));
    } else if k == p + 2 {
        assert(plan[k] == CallView::ReadStats);
        assert(plan.take(k).drop_last() =~= plan.take(p + 1));
        assert(plan.take(p + 1).drop_last() =~= plan.take(p));
        assert(plan.take(k).last() == CallView::Export(output));
        assert(plan.take(p + 1).last() == CallView::Process);
        let processed = stage_after(Stage::Empty, plan.take(p + 1));
        assert(processed == advanced(loaded, CallKind::Process));
        assert(stage_after(Stage::Empty, plan.take(k)) == advanced(processed, CallKind::Export));
    }
    assert(admits(stage_after(Stage::Empty, plan.take(k)), plan[k].kind()));
}

} // verus!
