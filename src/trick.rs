//! A trick: a named, ordered list of steps, and the sequencer that runs it.
//!
//! Running a step acts on the outside world (containers, processes, timers),
//! so the sequencer is a state machine: the caller asks it for the next step,
//! performs that step's action, and hands back whether it succeeded. The
//! sequencer decides the status, stops at the first final status, and keeps
//! the names of the containers it spawned so that every one of them is reaped
//! whatever the outcome.

use vstd::prelude::*;
use crate::report::{StepReport, SystemInfo, TrickReport};
use crate::status::Status;
use crate::steps::{RunStep, Step};
use crate::text::texts;

verus! {

/// A series of steps that performs and verifies a container exploit.
pub struct Trick {
    pub name: String,
    pub steps: Vec<Step>,
}

/// The status a step reports when its action succeeded or failed.
pub open spec fn step_status(step: Step, succeeded: bool) -> Status {
    if succeeded { step.success_status() } else { step.failure_status() }
}

/// `name` is the name of a container that one of the first `n` steps spawned:
/// a spawn step whose action succeeded.
pub open spec fn spawned_by(plan: Seq<Step>, outcomes: Seq<bool>, n: int, name: Seq<char>) -> bool {
    exists|j: int| 0 <= j < n && outcomes[j] && (#[trigger] plan[j] matches Step::SpawnContainer(s) && s.name@ == name)
}

/// The run of a trick, between two steps.
pub struct TrickRun {
    report: TrickReport,
    pending: Vec<Step>,
    containers: Vec<String>,
    stopped: bool,
    plan: Ghost<Seq<Step>>,
    outcomes: Ghost<Seq<bool>>,
}

impl TrickRun {
    /// The declared steps of the trick.
    pub closed spec fn plan(&self) -> Seq<Step> {
        self.plan@
    }

    /// Whether the action of each executed step succeeded, in order.
    pub closed spec fn outcomes(&self) -> Seq<bool> {
        self.outcomes@
    }

    /// The reports on the steps executed so far.
    pub closed spec fn reports(&self) -> Seq<StepReport> {
        self.report.steps@
    }

    /// The names of the containers spawned so far.
    pub closed spec fn spawned(&self) -> Seq<Seq<char>> {
        texts(self.containers@)
    }

    /// The status of the trick so far: that of the last executed step.
    pub closed spec fn status(&self) -> Status {
        self.report.status
    }

    pub closed spec fn name(&self) -> String {
        self.report.name
    }

    pub closed spec fn system_info(&self) -> SystemInfo {
        self.report.system_info
    }

    /// A step reached a final status.
    pub closed spec fn stopped(&self) -> bool {
        self.stopped
    }

    /// No step is left to run.
    pub open spec fn done(&self) -> bool {
        self.stopped() || self.reports().len() == self.plan().len()
    }

    /// What holds of every run, between two steps: the executed steps are a
    /// prefix of the plan, in order, each with the status its outcome maps to;
    /// only the last of them can be final; and the spawned containers are
    /// those of the executed spawn steps that succeeded, each named once.
    pub open spec fn consistent(&self) -> bool {
        let reports = self.reports();
        let plan = self.plan();
        &&& reports.len() <= plan.len()
        &&& self.outcomes().len() == reports.len()
        &&& forall|j: int| 0 <= j < reports.len() ==> (#[trigger] reports[j]).inner == plan[j]
        &&& forall|j: int| 0 <= j < reports.len() ==>
            (#[trigger] reports[j]).status == step_status(plan[j], self.outcomes()[j])
        &&& forall|j: int| 0 <= j < reports.len() - 1 ==> !(#[trigger] reports[j]).status.is_final()
        &&& self.stopped() <==> (reports.len() > 0 && reports.last().status.is_final())
        &&& self.status() == (if reports.len() == 0 { Status::Undecided } else { reports.last().status })
        &&& self.spawned().no_duplicates()
        &&& forall|name: Seq<char>| self.spawned().contains(name) <==> spawned_by(plan, self.outcomes(), reports.len() as int, name)
    }

    /// The invariant of a run.
    pub closed spec fn wf(&self) -> bool {
        &&& self.consistent()
        &&& self.pending@ == self.plan().subrange(self.reports().len() as int, self.plan().len() as int)
    }
}

impl Trick {
    /// Starts running the trick on a system described by `system_info`. The
    /// trick is consumed: its steps move into the reports as they run.
    pub fn start(self, system_info: SystemInfo) -> (r: TrickRun)
        ensures
            r.wf(),
            r.consistent(),
            !r.stopped(),
            r.plan() == self.steps@,
            r.reports().len() == 0,
            r.outcomes().len() == 0,
            r.spawned().len() == 0,
            r.status() == Status::Undecided,
            r.name() == self.name,
            r.system_info() == system_info,
    {
        let Trick { name, steps } = self;
        let ghost plan = steps@;
        let report = TrickReport {
            name,
            system_info,
            steps: Vec::new(),
            status: Status::Undecided,
        };
        let r = TrickRun {
            report,
            pending: steps,
            containers: Vec::new(),
            stopped: false,
            plan: Ghost(plan),
            outcomes: Ghost(Seq::empty()),
        };
        proof {
            assert(r.pending@ == r.plan().subrange(0, r.plan().len() as int));
        }
        r
    }
}

fn contains_name(names: &Vec<String>, name: &String) -> (r: bool)
    ensures
        r == texts(names@).contains(name@),
{
    for i in 0..names.len()
        invariant
            forall|j: int| 0 <= j < i ==> names@[j]@ != name@,
    {
        if names[i] == *name {
            assert(texts(names@)[i as int] == name@);
            return true;
        }
    }
    proof {
        if texts(names@).contains(name@) {
            let j = choose|j: int| 0 <= j < texts(names@).len() && texts(names@)[j] == name@;
            assert(names@[j]@ == name@);
        }
    }
    false
}

impl TrickRun {
    /// Is the run over, either because a step reached a final status or
    /// because every step has run?
    pub fn is_done(&self) -> (r: bool)
        requires
            self.wf(),
        ensures
            r == self.done(),
    {
        self.stopped || self.pending.len() == 0
    }

    /// The step to run next, if any.
    pub fn next_step(&self) -> (r: Option<&Step>)
        requires
            self.wf(),
        ensures
            match r {
                Some(s) => !self.done() && *s == self.plan()[self.reports().len() as int],
                None => self.done(),
            },
    {
        if self.stopped || self.pending.len() == 0 {
            None
        } else {
            Some(&self.pending[0])
        }
    }

    /// Records whether the action of the next step succeeded: the step gets
    /// the status its outcome maps to, a spawned container is tracked for
    /// cleanup, and the run stops if the status is final.
    pub fn record(&mut self, succeeded: bool)
        requires
            old(self).wf(),
            !old(self).done(),
        ensures
            final(self).wf(),
            final(self).consistent(),
            final(self).stopped() == step_status(old(self).plan()[old(self).reports().len() as int], succeeded).is_final(),
            final(self).plan() == old(self).plan(),
            final(self).name() == old(self).name(),
            final(self).system_info() == old(self).system_info(),
            final(self).reports() == old(self).reports().push(
                (StepReport {
                    inner: old(self).plan()[old(self).reports().len() as int],
                    status: step_status(old(self).plan()[old(self).reports().len() as int], succeeded),
                }),
            ),
            final(self).outcomes() == old(self).outcomes().push(succeeded),
            final(self).status() == step_status(old(self).plan()[old(self).reports().len() as int], succeeded),
            final(self).spawned() == (match old(self).plan()[old(self).reports().len() as int] {
                Step::SpawnContainer(s) => if !succeeded || old(self).spawned().contains(s.name@) {
                    old(self).spawned()
                } else {
                    old(self).spawned().push(s.name@)
                },
                _ => old(self).spawned(),
            }),
    {
        let ghost k = self.report.steps@.len() as int;
        let ghost plan = self.plan@;
        let ghost old_spawned = texts(self.containers@);
        let ghost old_reports = self.report.steps@;
        let ghost old_outcomes = self.outcomes@;
        let step = self.pending.remove(0);
        assert(step == plan[k]);
        let status = step.run(succeeded);
        match &step {
            Step::SpawnContainer(s) => {
                if succeeded && !contains_name(&self.containers, &s.name) {
                    self.containers.push(s.name.clone());
                }
            },
            _ => {},
        }
        self.report.add(StepReport::new(step, status));
        self.report.set_status(status);
        self.stopped = status.is_final();
        self.outcomes = Ghost(self.outcomes@.push(succeeded));
        proof {
            let outcomes = self.outcomes@;
            assert(outcomes == old_outcomes.push(succeeded));
            let reports = self.report.steps@;
            assert(reports.len() == k + 1);
            assert(self.pending@ =~= plan.subrange(k + 1, plan.len() as int));
            assert(reports == old_reports.push(reports[k]));
            assert forall|j: int| 0 <= j < reports.len() implies (#[trigger] reports[j]).inner == plan[j] by {
                if j < k {
                    assert(reports[j] == old_reports[j]);
                }
            }
            let spawned = texts(self.containers@);
            assert forall|j: int| 0 <= j < reports.len() implies (#[trigger] reports[j]).status == step_status(plan[j], outcomes[j]) by {
                if j < k {
                    assert(reports[j] == old_reports[j]);
                    assert(outcomes[j] == old_outcomes[j]);
                }
            }
            assert(spawned == old_spawned || (succeeded && (plan[k] matches Step::SpawnContainer(s) && !old_spawned.contains(s.name@) && spawned == old_spawned.push(s.name@))));
            assert forall|name: Seq<char>| spawned.contains(name) <==> spawned_by(plan, outcomes, k + 1, name) by {
                if spawned_by(plan, outcomes, k + 1, name) {
                    let j = choose|j: int| 0 <= j < k + 1 && outcomes[j] && (#[trigger] plan[j] matches Step::SpawnContainer(s) && s.name@ == name);
                    if j < k {
                        assert(outcomes[j] == old_outcomes[j]);
                        assert(spawned_by(plan, old_outcomes, k, name));
                        assert(old_spawned.contains(name));
                        let i = choose|i: int| 0 <= i < old_spawned.len() && old_spawned[i] == name;
                        assert(spawned[i] == name);
                    } else {
                        if !old_spawned.contains(name) {
                            assert(spawned[spawned.len() - 1] == name);
                        }
                    }
                }
                if spawned.contains(name) && !old_spawned.contains(name) {
                    assert(outcomes[k]);
                    assert(plan[k] matches Step::SpawnContainer(s) && s.name@ == name);
                }
                if old_spawned.contains(name) {
                    assert(spawned_by(plan, old_outcomes, k, name));
                    let j = choose|j: int| 0 <= j < k && old_outcomes[j] && (#[trigger] plan[j] matches Step::SpawnContainer(s) && s.name@ == name);
                    assert(outcomes[j] == old_outcomes[j]);
                    assert(0 <= j < k + 1);
                }
            }
        }
    }

    /// How many steps have run.
    pub fn steps_run(&self) -> (r: usize)
        requires
            self.wf(),
        ensures
            r == self.reports().len(),
    {
        self.report.steps.len()
    }

    /// The names of the containers spawned so far, each once: the containers
    /// to reap, also when the run ends early.
    pub fn containers(&self) -> (r: &Vec<String>)
        requires
            self.wf(),
        ensures
            texts(r@) == self.spawned(),
    {
        &self.containers
    }

    /// Ends the run, at any point: the report, with the status of the last
    /// executed step as the trick's status, and the containers to reap.
    pub fn finish(self) -> (r: (TrickReport, Vec<String>))
        requires
            self.wf(),
        ensures
            r.0.name == self.name(),
            r.0.system_info == self.system_info(),
            r.0.steps@ == self.reports(),
            r.0.status == self.status(),
            texts(r.1@) == self.spawned(),
    {
        (self.report, self.containers)
    }
}

impl Trick {
    /// Runs the trick to its end, where `outcomes[i]` is whether the action of
    /// step `i` succeeds if it runs: the report, and the containers to reap.
    /// At most one report per declared step, in order, each with the status
    /// its outcome maps to; the run stops at the first final status, which is
    /// then the trick's status; every report is on a declared step, and there
    /// are as many as declared steps exactly when no step before the last
    /// reached a final status. The containers to reap are those of the spawn
    /// steps that ran and succeeded, each once.
    pub fn run(self, system_info: SystemInfo, outcomes: &Vec<bool>) -> (r: (TrickReport, Vec<String>))
        requires
            outcomes@.len() == self.steps@.len(),
        ensures
            r.0.name == self.name,
            r.0.system_info == system_info,
            r.0.steps@.len() <= self.steps@.len(),
            forall|j: int| 0 <= j < r.0.steps@.len() ==> (#[trigger] r.0.steps@[j]).inner == self.steps@[j]
                && r.0.steps@[j].status == step_status(self.steps@[j], outcomes@[j]),
            forall|j: int| 0 <= j < r.0.steps@.len() && (#[trigger] r.0.steps@[j]).status.is_final()
                ==> j == r.0.steps@.len() - 1,
            r.0.steps@.len() == self.steps@.len() <==>
                forall|j: int| 0 <= j < r.0.steps@.len() && j < self.steps@.len() - 1
                    ==> !(#[trigger] r.0.steps@[j]).status.is_final(),
            r.0.steps@.len() < self.steps@.len() ==> r.0.steps@.last().status.is_final(),
            r.0.status == (if r.0.steps@.len() == 0 { Status::Undecided } else { r.0.steps@.last().status }),
            texts(r.1@).no_duplicates(),
            forall|name: Seq<char>| texts(r.1@).contains(name) <==>
                exists|j: int| 0 <= j < r.0.steps@.len() && outcomes@[j]
                    && (#[trigger] self.steps@[j] matches Step::SpawnContainer(s) && s.name@ == name),
    {
        let ghost plan = self.steps@;
        let mut run = self.start(system_info);
        while !run.is_done()
            invariant
                run.wf(),
                run.consistent(),
                run.plan() == plan,
                plan.len() == outcomes@.len(),
                run.outcomes() == outcomes@.subrange(0, run.reports().len() as int),
                run.name() == self.name,
                run.system_info() == system_info,
            decreases plan.len() - run.reports().len(),
        {
            let i = run.steps_run();
            run.record(outcomes[i]);
            proof {
                assert(outcomes@.subrange(0, i + 1) =~= outcomes@.subrange(0, i as int).push(outcomes@[i as int]));
            }
        }
        proof {
            lemma_report_count(run);
            lemma_final_is_last(run);
            lemma_cleanup_once(run);
            let n = run.reports().len() as int;
            assert forall|j: int| 0 <= j < n implies run.outcomes()[j] == outcomes@[j] by {}
        }
        run.finish()
    }
}

/// Every run: the number of step reports is at most the number of declared
/// steps; once the run is over, the two are equal exactly when no step before
/// the last one reached a final status.
pub proof fn lemma_report_count(run: TrickRun)
    requires
        run.wf(),
    ensures
        run.reports().len() <= run.plan().len(),
        run.done() ==> (run.reports().len() == run.plan().len() <==>
            forall|j: int| 0 <= j < run.reports().len() && j < run.plan().len() - 1
                ==> !(#[trigger] run.reports()[j]).status.is_final()),
{
    if run.done() && run.reports().len() < run.plan().len() {
        let j = run.reports().len() - 1;
        assert(run.reports()[j].status.is_final());
    }
}

/// Every run: a step report with a final status is the last step report.
pub proof fn lemma_final_is_last(run: TrickRun)
    requires
        run.wf(),
    ensures
        forall|j: int| 0 <= j < run.reports().len() && (#[trigger] run.reports()[j]).status.is_final()
            ==> j == run.reports().len() - 1,
{
}

/// Every run, whenever it ends: the containers to reap are exactly those named
/// by the executed spawn steps whose spawn succeeded, each named once.
pub proof fn lemma_cleanup_once(run: TrickRun)
    requires
        run.wf(),
    ensures
        run.spawned().no_duplicates(),
        forall|name: Seq<char>| run.spawned().contains(name) <==>
            exists|j: int| 0 <= j < run.reports().len() && run.outcomes()[j]
                && (#[trigger] run.plan()[j] matches Step::SpawnContainer(s) && s.name@ == name),
{
    assert forall|name: Seq<char>| run.spawned().contains(name) <==>
        exists|j: int| 0 <= j < run.reports().len() && run.outcomes()[j]
            && (#[trigger] run.plan()[j] matches Step::SpawnContainer(s) && s.name@ == name) by {
        assert(run.spawned().contains(name) <==> spawned_by(run.plan(), run.outcomes(), run.reports().len() as int, name));
    }
}

} // verus!
