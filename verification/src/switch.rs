//! The switch controller: the single source of truth for which runner is
//! active.
//!
//! A switch is driven as an explicit sequence of steps so that the decision
//! logic is fully checked while the embedding program performs the actual
//! script spawning between steps: [`Controller::begin_switch`] resolves the
//! target and yields the stop call, [`StopStep::confirm_stop`] classifies the
//! stop outcome and yields the start call, and [`Controller::commit_switch`]
//! classifies the start outcome, replaces the active value and publishes it.
//! The caller must hold exclusive access to the controller (and so to the
//! active value) across the whole sequence, exactly as a single in-process
//! lock gives it; the step types make it impossible to run the start script
//! of a switch whose stop script was not confirmed first.
//!
//! Startup reconciliation — deciding which runner is already live before the
//! controller is constructed — follows the same pattern in [`reconcile`].

use vstd::pervasive::unreached;
use vstd::prelude::*;

use crate::broadcast::Broadcaster;
use crate::models::{
    clone_opt_string, ActiveRunner, ActiveRunnerView, Runner as RunnerInfo, RunnerEntry,
    RunnerResponse, SwitchError, SwitchStage,
};
use crate::models::{clone_opt_string_vec, opt_str_view};
use crate::runner::{Runner, RunnerDefView, ScriptCall, ScriptCallView, ShellOutput};

verus! {

/// A runner definition under its unique name.
pub struct NamedRunner {
    pub name: String,
    pub runner: Runner,
}

/// Mathematical value of a [`NamedRunner`].
pub ghost struct NamedRunnerView {
    pub name: Seq<char>,
    pub runner: RunnerDefView,
}

impl View for NamedRunner {
    type V = NamedRunnerView;

    open spec fn view(&self) -> NamedRunnerView {
        NamedRunnerView { name: self.name@, runner: self.runner@ }
    }
}

/// The mathematical value of a runner list.
pub open spec fn runners_view(rs: Seq<NamedRunner>) -> Seq<NamedRunnerView> {
    rs.map_values(|nr: NamedRunner| nr@)
}

/// The first definition under `name`, if any.
pub open spec fn lookup(rs: Seq<NamedRunnerView>, name: Seq<char>) -> Option<RunnerDefView>
    decreases rs.len(),
{
    if rs.len() == 0 {
        Option::None
    } else if rs[0].name == name {
        Option::Some(rs[0].runner)
    } else {
        lookup(rs.skip(1), name)
    }
}

/// Runner names are pairwise distinct.
pub open spec fn distinct_names(rs: Seq<NamedRunnerView>) -> bool {
    forall|i: int, j: int| 0 <= i < j < rs.len() ==> rs[i].name != rs[j].name
}

proof fn lemma_lookup_at(rs: Seq<NamedRunnerView>, name: Seq<char>, i: int)
    requires
        0 <= i < rs.len(),
        rs[i].name == name,
        forall|k: int| 0 <= k < i ==> rs[k].name != name,
    ensures
        lookup(rs, name) == Option::Some(rs[i].runner),
    decreases i,
{
    if i > 0 {
        lemma_lookup_at(rs.skip(1), name, i - 1);
    }
}

proof fn lemma_lookup_none(rs: Seq<NamedRunnerView>, name: Seq<char>)
    requires
        forall|k: int| 0 <= k < rs.len() ==> rs[k].name != name,
    ensures
        lookup(rs, name) is None,
    decreases rs.len(),
{
    if rs.len() > 0 {
        lemma_lookup_none(rs.skip(1), name);
    }
}

/// The definition under `name`, scanned in listing order.
pub fn find_runner<'a>(runners: &'a Vec<NamedRunner>, name: &String) -> (r: Option<&'a Runner>)
    ensures
        match r {
            Option::Some(rd) => lookup(runners_view(runners@), name@) == Option::Some(rd@),
            Option::None => lookup(runners_view(runners@), name@) is None,
        },
{
    let ghost rsv = runners_view(runners@);
    let mut i: usize = 0;
    while i < runners.len()
        invariant
            i <= runners.len(),
            rsv == runners_view(runners@),
            forall|k: int| 0 <= k < i ==> rsv[k].name != name@,
        decreases runners.len() - i,
    {
        if runners[i].name == *name {
            proof {
                lemma_lookup_at(rsv, name@, i as int);
            }
            return Option::Some(&runners[i].runner);
        }
        i += 1;
    }
    proof {
        lemma_lookup_none(rsv, name@);
    }
    Option::None
}

fn names_distinct(runners: &Vec<NamedRunner>) -> (r: bool)
    ensures
        r == distinct_names(runners_view(runners@)),
{
    let ghost rsv = runners_view(runners@);
    let mut i: usize = 0;
    while i < runners.len()
        invariant
            i <= runners.len(),
            rsv == runners_view(runners@),
            forall|a: int, b: int| 0 <= a < b < rsv.len() && a < i ==> rsv[a].name != rsv[b].name,
        decreases runners.len() - i,
    {
        let mut j: usize = i + 1;
        while j < runners.len()
            invariant
                i < j <= runners.len(),
                i < runners.len(),
                rsv == runners_view(runners@),
                forall|b: int| i < b < j ==> rsv[i as int].name != rsv[b].name,
            decreases runners.len() - j,
        {
            if runners[i].name == runners[j].name {
                proof {
                    assert(rsv[i as int] == runners@[i as int]@);
                    assert(rsv[j as int] == runners@[j as int]@);
                    assert(!distinct_names(rsv));
                }
                return false;
            }
            j += 1;
        }
        i += 1;
    }
    true
}

/// Mathematical state of the controller.
pub ghost struct ControllerView {
    pub runners: Seq<NamedRunnerView>,
    pub active: ActiveRunnerView,
}

impl ControllerView {
    /// Standing invariant: names are unique and the active name always
    /// resolves to a known definition.
    pub open spec fn wf(self) -> bool {
        distinct_names(self.runners) && lookup(self.runners, self.active.name) is Some
    }

    /// The definition of the currently active runner.
    pub open spec fn current(self) -> RunnerDefView {
        lookup(self.runners, self.active.name)->Some_0
    }
}

/// The stop call a switch away from `c`'s active runner issues.
pub open spec fn stop_call_view(c: ControllerView) -> ScriptCallView {
    ScriptCallView { script: c.current().stop_script, model: c.active.model }
}

/// The start call a switch from `c` towards `target` issues.
pub open spec fn start_call_view(c: ControllerView, target: ActiveRunnerView) -> ScriptCallView {
    ScriptCallView {
        script: lookup(c.runners, target.name)->Some_0.start_script,
        model: target.model,
    }
}

/// Owns the runner definitions and the active value. All reads and writes of
/// the active value go through this type's methods, under the exclusive
/// access the caller provides.
pub struct Controller {
    pub runners: Vec<NamedRunner>,
    pub active: ActiveRunner,
}

impl View for Controller {
    type V = ControllerView;

    open spec fn view(&self) -> ControllerView {
        ControllerView { runners: runners_view(self.runners@), active: self.active@ }
    }
}

impl Controller {
    /// Constructed once at startup, after reconciliation has picked `active`.
    /// A runner set with duplicate names, or an active name that no definition
    /// carries, is refused, so the standing invariant holds from the start.
    pub fn new(runners: Vec<NamedRunner>, active: ActiveRunner) -> (r: Option<Controller>)
        ensures
            match r {
                Option::Some(c) => c@ == (ControllerView {
                    runners: runners_view(runners@),
                    active: active@,
                }) && c@.wf(),
                Option::None => !(ControllerView {
                    runners: runners_view(runners@),
                    active: active@,
                }).wf(),
            },
    {
        if !names_distinct(&runners) {
            return Option::None;
        }
        match find_runner(&runners, &active.name) {
            Option::Some(_) => Option::Some(Controller { runners, active }),
            Option::None => Option::None,
        }
    }

    /// Read-only snapshot: the active value and every definition's outward
    /// view, with the script strings left out. Never fails.
    pub fn list(&self) -> (r: RunnerResponse)
        ensures
            r.active@ == self@.active,
            r.runners@.len() == self@.runners.len(),
            forall|k: int|
                0 <= k < r.runners@.len() ==> (#[trigger] r.runners@[k]).name@
                    == self@.runners[k].name && r.runners@[k].runner@.url
                    == self@.runners[k].runner.url && r.runners@[k].runner@.provides
                    == self@.runners[k].runner.provides,
    {
        let mut entries: Vec<RunnerEntry> = Vec::new();
        let mut i: usize = 0;
        while i < self.runners.len()
            invariant
                i <= self.runners.len(),
                entries@.len() == i,
                forall|k: int|
                    0 <= k < i ==> (#[trigger] entries@[k]).name@ == self@.runners[k].name
                        && entries@[k].runner@.url == self@.runners[k].runner.url
                        && entries@[k].runner@.provides == self@.runners[k].runner.provides,
            decreases self.runners.len() - i,
        {
            let nr = &self.runners[i];
            entries.push(
                RunnerEntry {
                    name: nr.name.clone(),
                    runner: RunnerInfo {
                        provides: clone_opt_string_vec(&nr.runner.provides),
                        url: nr.runner.url.clone(),
                    },
                },
            );
            i += 1;
        }
        RunnerResponse { runners: entries, active: self.active.clone() }
    }

    /// Resolves a switch request. An unknown target is refused with the state
    /// untouched and no script issued; otherwise the caller receives the stop
    /// call for the currently active runner, to be run before anything else.
    pub fn begin_switch(&self, target: &ActiveRunner) -> (r: Result<StopStep, SwitchError>)
        requires
            self@.wf(),
        ensures
            match r {
                Result::Ok(step) => lookup(self@.runners, target@.name) is Some
                    && step.target@ == target@ && step.stop_call@ == stop_call_view(self@)
                    && step.start_script@ == lookup(self@.runners, target@.name)->Some_0.start_script,
                Result::Err(e) => e is RunnerNotFound && lookup(
                    self@.runners,
                    target@.name,
                ) is None,
            },
    {
        let target_def = match find_runner(&self.runners, &target.name) {
            Option::Some(rd) => rd,
            Option::None => {
                return Result::Err(SwitchError::RunnerNotFound);
            },
        };
        let current = match find_runner(&self.runners, &self.active.name) {
            Option::Some(rd) => rd,
            Option::None => unreached(),
        };
        Result::Ok(
            StopStep {
                target: target.clone(),
                stop_call: current.stop_call(&self.active),
                start_script: target_def.start_script.clone(),
            },
        )
    }

    /// Commits a switch whose stop script already succeeded, given the start
    /// script's outcome. On success the active value is replaced by the target
    /// as a whole and the new value is published exactly once; on failure the
    /// active value is untouched and nothing is published — the prior runner
    /// is already stopped then, a deliberately accepted degraded state.
    pub fn commit_switch(
        &mut self,
        updates: &mut Broadcaster,
        step: StartStep,
        outcome: &ShellOutput,
    ) -> (r: Result<ActiveRunner, SwitchError>)
        requires
            old(self)@.wf(),
            lookup(old(self)@.runners, step.target@.name) is Some,
        ensures
            final(self)@.runners == old(self)@.runners,
            match r {
                Result::Ok(now) => outcome.success
                    && now@ == step.target@
                    && final(self)@.active == step.target@
                    && final(self)@ == switch_model(old(self)@, step.target@, true, true).post
                    && final(self)@.wf()
                    && final(updates).history@ == old(updates).history@.push(step.target@),
                Result::Err(e) => !outcome.success
                    && final(self)@ == old(self)@
                    && final(updates).history@ == old(updates).history@
                    && (e matches SwitchError::ScriptFailed {
                        stage: SwitchStage::Start,
                        msg,
                    } && msg@ == outcome.stderr@),
            },
    {
        match outcome.classify() {
            Result::Ok(()) => {
                let now = step.target.clone();
                self.active = step.target;
                let _ = updates.publish(now.clone());
                Result::Ok(now)
            },
            Result::Err(msg) => Result::Err(
                SwitchError::ScriptFailed { stage: SwitchStage::Start, msg },
            ),
        }
    }
}

/// A switch whose target has been resolved and whose stop script is about to
/// run. Holding one does not change any state.
pub struct StopStep {
    pub target: ActiveRunner,
    pub stop_call: ScriptCall,
    pub start_script: String,
}

/// A switch whose stop script succeeded: only now can the start call be
/// issued.
pub struct StartStep {
    pub target: ActiveRunner,
    pub start_call: ScriptCall,
}

impl StopStep {
    /// Classifies the stop script's outcome. Only a successful stop yields
    /// the start call; a failed stop aborts the switch before the target's
    /// start script exists anywhere, leaving every value unchanged.
    pub fn confirm_stop(self, outcome: &ShellOutput) -> (r: Result<StartStep, SwitchError>)
        ensures
            match r {
                Result::Ok(next) => outcome.success && next.target@ == self.target@
                    && next.start_call@ == (ScriptCallView {
                    script: self.start_script@,
                    model: self.target@.model,
                }),
                Result::Err(e) => !outcome.success && (e matches SwitchError::ScriptFailed {
                    stage: SwitchStage::Stop,
                    msg,
                } && msg@ == outcome.stderr@),
            },
    {
        match outcome.classify() {
            Result::Ok(()) => {
                let model = clone_opt_string(&self.target.model);
                Result::Ok(
                    StartStep {
                        target: self.target,
                        start_call: ScriptCall { script: self.start_script, model },
                    },
                )
            },
            Result::Err(msg) => Result::Err(
                SwitchError::ScriptFailed { stage: SwitchStage::Stop, msg },
            ),
        }
    }
}

/// How one whole switch attempt ended.
pub enum SwitchReport {
    Switched,
    NotFound,
    StopFailed,
    StartFailed,
}

/// One whole switch attempt, mathematically: the state it leaves behind, how
/// it ended, and every script it issued, in order.
pub ghost struct SwitchModel {
    pub post: ControllerView,
    pub report: SwitchReport,
    pub scripts: Seq<ScriptCallView>,
}

/// What a whole switch attempt does, as a function of the starting state, the
/// target, and the two script outcomes. The step functions realize exactly
/// this: an unknown target issues nothing; a failed stop issues only the stop
/// call; only after both scripts succeed is the active value replaced.
pub open spec fn switch_model(
    c: ControllerView,
    target: ActiveRunnerView,
    stop_ok: bool,
    start_ok: bool,
) -> SwitchModel {
    if lookup(c.runners, target.name) is None {
        SwitchModel { post: c, report: SwitchReport::NotFound, scripts: Seq::empty() }
    } else if !stop_ok {
        SwitchModel { post: c, report: SwitchReport::StopFailed, scripts: seq![stop_call_view(c)] }
    } else if !start_ok {
        SwitchModel {
            post: c,
            report: SwitchReport::StartFailed,
            scripts: seq![stop_call_view(c), start_call_view(c, target)],
        }
    } else {
        SwitchModel {
            post: ControllerView { runners: c.runners, active: target },
            report: SwitchReport::Switched,
            scripts: seq![stop_call_view(c), start_call_view(c, target)],
        }
    }
}

/// After a successful switch the just-submitted target is the active value,
/// the runner set is unchanged and still well-formed, and exactly one
/// stop-then-start pair was issued: the old runner's stop call, then the new
/// runner's start call, in that order. Holding per call, this covers every
/// sequence of switches with valid targets.
pub proof fn lemma_switch_success(c: ControllerView, target: ActiveRunnerView)
    requires
        c.wf(),
        lookup(c.runners, target.name) is Some,
    ensures
        switch_model(c, target, true, true).report is Switched,
        switch_model(c, target, true, true).post.active == target,
        switch_model(c, target, true, true).post.runners == c.runners,
        switch_model(c, target, true, true).post.wf(),
        switch_model(c, target, true, true).scripts =~= seq![
            stop_call_view(c),
            start_call_view(c, target),
        ],
{
}

/// A switch to an unknown runner name leaves the state unchanged, reports
/// not-found, and issues no script at all, whatever the scripts would have
/// returned.
pub proof fn lemma_switch_unknown_target(
    c: ControllerView,
    target: ActiveRunnerView,
    stop_ok: bool,
    start_ok: bool,
)
    requires
        lookup(c.runners, target.name) is None,
    ensures
        switch_model(c, target, stop_ok, start_ok).report is NotFound,
        switch_model(c, target, stop_ok, start_ok).post == c,
        switch_model(c, target, stop_ok, start_ok).scripts =~= Seq::<ScriptCallView>::empty(),
{
}

/// If the stop script fails, the target's start script is never issued — the
/// only script of the attempt is the old runner's stop call — and the state
/// is unchanged, whatever the start script would have returned.
pub proof fn lemma_stop_failure_keeps_state(
    c: ControllerView,
    target: ActiveRunnerView,
    start_ok: bool,
)
    requires
        lookup(c.runners, target.name) is Some,
    ensures
        switch_model(c, target, false, start_ok).report is StopFailed,
        switch_model(c, target, false, start_ok).post == c,
        switch_model(c, target, false, start_ok).scripts =~= seq![stop_call_view(c)],
{
}

/// If the stop script succeeds but the start script fails, the switch reports
/// failure and the active value still carries the old name: nothing is
/// committed partially, even though both scripts ran.
pub proof fn lemma_start_failure_keeps_state(c: ControllerView, target: ActiveRunnerView)
    requires
        lookup(c.runners, target.name) is Some,
    ensures
        switch_model(c, target, true, false).report is StartFailed,
        switch_model(c, target, true, false).post == c,
        switch_model(c, target, true, false).post.active == c.active,
        switch_model(c, target, true, false).scripts =~= seq![
            stop_call_view(c),
            start_call_view(c, target),
        ],
{
}

/// How many probes reported their runner live.
pub open spec fn count_true(s: Seq<bool>) -> nat
    decreases s.len(),
{
    if s.len() == 0 {
        0
    } else {
        count_true(s.drop_last()) + (if s.last() {
            1nat
        } else {
            0nat
        })
    }
}

proof fn lemma_count_true_take_le(s: Seq<bool>, i: int)
    requires
        0 <= i <= s.len(),
    ensures
        count_true(s.take(i)) <= count_true(s),
    decreases s.len() - i,
{
    if i < s.len() {
        assert(s.take(i + 1).drop_last() =~= s.take(i));
        assert(count_true(s.take(i + 1)) >= count_true(s.take(i)));
        lemma_count_true_take_le(s, i + 1);
    } else {
        assert(s.take(i) =~= s);
    }
}

/// What startup reconciliation decided.
pub enum Reconcile {
    /// Exactly one probe reported live: adopt that runner, with no model
    /// selector and with no script run.
    AlreadyActive(ActiveRunner),
    /// No probe reported live: fall back to the configured default and run
    /// this start call, exactly once; a failure of it is fatal to startup.
    StartDefault(ActiveRunner, ScriptCall),
    /// More than one probe reported live: fatal, the process must refuse to
    /// start rather than guess.
    MultipleActive,
    /// No probe reported live and the configured default matches no known
    /// runner: fatal configuration error.
    UnknownDefault,
}

/// Startup reconciliation, run once before the controller is constructed.
/// `results` holds, for each configured runner in listing order, whether its
/// check script (run with no model override) exited successfully.
pub fn reconcile(
    runners: &Vec<NamedRunner>,
    results: &Vec<bool>,
    default_name: &String,
    default_model: &Option<String>,
) -> (r: Reconcile)
    requires
        results@.len() == runners@.len(),
    ensures
        count_true(results@) >= 2 ==> r is MultipleActive,
        count_true(results@) == 1 ==> (r matches Reconcile::AlreadyActive(a) && a@.model is None
            && (exists|j: int|
            0 <= j < results@.len() && #[trigger] results@[j] && a@.name == runners_view(
                runners@,
            )[j].name)),
        count_true(results@) == 0 ==> (match lookup(runners_view(runners@), default_name@) {
            Option::Some(rd) => r matches Reconcile::StartDefault(a, call) && a@.name
                == default_name@ && a@.model == opt_str_view(*default_model) && call@.script
                == rd.start_script && call@.model == opt_str_view(*default_model),
            Option::None => r is UnknownDefault,
        }),
{
    let ghost rsv = runners_view(runners@);
    let mut found: Option<usize> = Option::None;
    let mut i: usize = 0;
    while i < results.len()
        invariant
            i <= results@.len(),
            results@.len() == runners@.len(),
            rsv == runners_view(runners@),
            match found {
                Option::Some(j) => j < i && results@[j as int] && count_true(
                    results@.take(i as int),
                ) == 1,
                Option::None => count_true(results@.take(i as int)) == 0,
            },
        decreases results@.len() - i,
    {
        proof {
            assert(results@.take(i + 1).drop_last() =~= results@.take(i as int));
        }
        if results[i] {
            if found.is_some() {
                proof {
                    lemma_count_true_take_le(results@, i + 1);
                }
                return Reconcile::MultipleActive;
            }
            found = Option::Some(i);
        }
        i += 1;
    }
    proof {
        assert(results@.take(results@.len() as int) =~= results@);
    }
    match found {
        Option::Some(j) => {
            proof {
                assert(rsv[j as int] == runners@[j as int]@);
            }
            Reconcile::AlreadyActive(
                ActiveRunner { name: runners[j].name.clone(), model: Option::None },
            )
        },
        Option::None => {
            match find_runner(runners, default_name) {
                Option::Some(rd) => Reconcile::StartDefault(
                    ActiveRunner {
                        name: default_name.clone(),
                        model: clone_opt_string(default_model),
                    },
                    ScriptCall {
                        script: rd.start_script.clone(),
                        model: clone_opt_string(default_model),
                    },
                ),
                Option::None => Reconcile::UnknownDefault,
            }
        },
    }
}

} // verus!
