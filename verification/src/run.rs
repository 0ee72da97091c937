//! The mission executor: which missions of a plan are run, in which order, and
//! what their results add up to.
//!
//! The executor launches nothing itself. It tells the host which mission is
//! next, the host launches it and reports how that ended, and the executor
//! keeps the account.

use crate::command::ExitStatus;
use crate::container::{BuildError, LaunchSetupError};
use crate::plan::{distinct, names, repeats, ConfigError, Mission, Plan, Shell};
use crate::text::{contains, is_substring};
use vstd::prelude::*;

verus! {

/// What ends a run at once.
#[derive(Debug, Clone, PartialEq, Eq)]
pub enum Error {
    /// The plan cannot be used as it is written.
    Config(ConfigError),
    /// The image of a container could not be built.
    Build(BuildError),
    /// The launch of a container could not be set up.
    LaunchSetup(LaunchSetupError),
}

/// What the host reports of one mission: the status with which its container
/// ended, or the error that kept the container from running.
pub type Report = Result<ExitStatus, Error>;

/// `pattern` selects the mission called `name`: the name contains the pattern,
/// or there is no pattern.
pub open spec fn matches(name: Seq<char>, pattern: Option<Seq<char>>) -> bool {
    match pattern {
        Some(pattern) => is_substring(pattern, name),
        None => true,
    }
}

/// The test that `pattern` makes of an entry of a plan.
pub open spec fn wanted(pattern: Option<Seq<char>>) -> spec_fn((String, Mission)) -> bool {
    |entry: (String, Mission)| matches(entry.0@, pattern)
}

/// The missions that `pattern` selects, in the order of `missions`.
pub open spec fn selected(missions: Seq<(String, Mission)>, pattern: Option<Seq<char>>) -> Seq<
    (String, Mission),
> {
    missions.filter(wanted(pattern))
}

/// The account of a run.
pub struct RunSpec {
    /// The missions of the run, in the order in which they are launched.
    pub missions: Seq<(String, Mission)>,
    /// How many of them have ended.
    pub done: nat,
    /// The names of those that ended with a status that is not a success, in
    /// the order in which they ended.
    pub failed: Seq<Seq<char>>,
    /// The error that ended the run, if one did.
    pub fatal: Option<Error>,
}

impl RunSpec {
    /// The account before anything is launched.
    pub open spec fn start(missions: Seq<(String, Mission)>) -> RunSpec {
        RunSpec { missions, done: 0, failed: Seq::empty(), fatal: None }
    }

    /// The index of the mission to launch next; none when every mission has
    /// ended or an error has ended the run.
    pub open spec fn current(self) -> Option<int> {
        if self.fatal is None && self.done < self.missions.len() {
            Some(self.done as int)
        } else {
            None
        }
    }

    /// The account after the host has reported `report` of the current
    /// mission. A status moves on to the next mission, and is a failure of the
    /// current one unless it is a success. An error ends the run. Without a
    /// current mission a report changes nothing.
    pub open spec fn record(self, report: Report) -> RunSpec {
        if self.current() is None {
            self
        } else {
            match report {
                Ok(status) => RunSpec {
                    done: self.done + 1,
                    failed: if status.succeeded() {
                        self.failed
                    } else {
                        self.failed.push(self.missions[self.done as int].0@)
                    },
                    ..self
                },
                Err(error) => RunSpec { fatal: Some(error), ..self },
            }
        }
    }

    /// The account after the reports `reports`, in order.
    pub open spec fn replay(self, reports: Seq<Report>) -> RunSpec
        decreases reports.len(),
    {
        if reports.len() == 0 {
            self
        } else {
            self.replay(reports.drop_last()).record(reports.last())
        }
    }

    /// How the run ends: with the error that ended it, or else with the names
    /// of the missions that failed.
    pub open spec fn outcome(self) -> Result<Seq<Seq<char>>, Error> {
        match self.fatal {
            Some(error) => Err(error),
            None => Ok(self.failed),
        }
    }
}

/// The exit code of the process for a run that ended as `outcome`: 0 where
/// no error ended the run and no mission failed, 1 otherwise.
pub open spec fn exit_code_of(outcome: Result<Seq<Seq<char>>, Error>) -> int {
    match outcome {
        Ok(failed) => if failed.len() == 0 {
            0
        } else {
            1
        },
        Err(_) => 1,
    }
}

/// How one mission ended: its name, the exit code of its container, if it
/// ended with one, and whether that is a success.
#[derive(Debug, Clone, PartialEq, Eq)]
pub struct MissionOutcome {
    pub name: String,
    pub exit_code: Option<i32>,
    pub succeeded: bool,
}

/// The outcome of a run that no error ended: the names of the missions that
/// failed. The run is a success if there is none.
#[derive(Debug, Clone, PartialEq, Eq)]
pub struct ExecutionOutcome {
    pub failed: Vec<String>,
}

impl View for ExecutionOutcome {
    type V = Seq<Seq<char>>;

    open spec fn view(&self) -> Seq<Seq<char>> {
        self.failed.deep_view()
    }
}

impl ExecutionOutcome {
    /// Whether no mission failed.
    pub fn success(&self) -> (ok: bool)
        ensures
            ok == (self@.len() == 0),
    {
        self.failed.len() == 0
    }
}

/// The mathematical value of what a run ends with.
pub open spec fn outcome_view(result: Result<ExecutionOutcome, Error>) -> Result<
    Seq<Seq<char>>,
    Error,
> {
    match result {
        Ok(outcome) => Ok(outcome@),
        Err(error) => Err(error),
    }
}

/// The exit code of the process for a run that ended with `result`.
pub fn exit_code(result: &Result<ExecutionOutcome, Error>) -> (code: i32)
    ensures
        code == exit_code_of(outcome_view(*result)),
{
    match result {
        Ok(outcome) => if outcome.success() {
            0
        } else {
            1
        },
        Err(_) => 1,
    }
}

/// A run of missions, as far as it has come.
pub struct Run {
    missions: Vec<(String, Mission)>,
    done: usize,
    failed: Vec<String>,
    fatal: Option<Error>,
}

impl View for Run {
    type V = RunSpec;

    closed spec fn view(&self) -> RunSpec {
        RunSpec {
            missions: self.missions@,
            done: self.done as nat,
            failed: self.failed.deep_view(),
            fatal: self.fatal,
        }
    }
}

impl Run {
    /// The mission to launch next, with its name; none when the run is over.
    pub fn current(&self) -> (entry: Option<&(String, Mission)>)
        ensures
            match self@.current() {
                Some(index) => entry == Some(&self@.missions[index]),
                None => entry is None,
            },
    {
        if self.fatal.is_none() && self.done < self.missions.len() {
            Some(&self.missions[self.done])
        } else {
            None
        }
    }

    /// Takes the host's report of the current mission into the account, and
    /// says how the mission ended. There is nothing to say where the report
    /// is an error, or where no mission is current.
    pub fn record(&mut self, report: Report) -> (outcome: Option<MissionOutcome>)
        ensures
            final(self)@ == old(self)@.record(report),
            match (old(self)@.current(), report) {
                (Some(index), Ok(status)) => outcome matches Some(ended) && ended.name@ == old(
                    self,
                )@.missions[index].0@ && ended.exit_code == status.code && ended.succeeded
                    == status.succeeded(),
                _ => outcome is None,
            },
    {
        if self.fatal.is_some() || self.done >= self.missions.len() {
            return None;
        }
        match report {
            Ok(status) => {
                let name = self.missions[self.done].0.clone();
                let succeeded = status.success();
                if !succeeded {
                    self.failed.push(name.clone());
                    assert(self.failed.deep_view() =~= old(self).failed.deep_view().push(name@));
                }
                self.done = self.done + 1;
                Some(MissionOutcome { name, exit_code: status.code(), succeeded })
            },
            Err(error) => {
                self.fatal = Some(error);
                None
            },
        }
    }

    /// Ends the run: the error that ended it, or else the names of the
    /// missions that failed.
    pub fn finish(self) -> (result: Result<ExecutionOutcome, Error>)
        ensures
            outcome_view(result) == self@.outcome(),
    {
        match self.fatal {
            Some(error) => Err(error),
            None => Ok(ExecutionOutcome { failed: self.failed }),
        }
    }
}

/// Whether `pattern` selects the mission called `name`.
pub fn is_selected(name: &str, pattern: &Option<String>) -> (wanted: bool)
    ensures
        wanted == matches(name@, pattern.deep_view()),
{
    match pattern {
        Some(pattern) => contains(name, pattern.as_str()),
        None => true,
    }
}

/// Starts a run of the missions of `plan` that `pattern` selects: those whose
/// name contains the pattern, or all of them without a pattern. They are
/// launched one after the other, in the order of the plan.
pub fn execute(plan: Plan, pattern: Option<String>) -> (run: Run)
    ensures
        run@ == RunSpec::start(selected(plan.missions@, pattern.deep_view())),
{
    let ghost test = wanted(pattern.deep_view());
    let ghost all = plan.missions@;
    let mut missions: Vec<(String, Mission)> = Vec::new();
    proof {
        reveal(Seq::filter);
    }
    for entry in entries: plan.missions
        invariant
            entries.seq() == all,
            test == wanted(pattern.deep_view()),
            missions@ == all.take(entries.index() as int).filter(test),
    {
        proof {
            reveal(Seq::filter);
            assert(all.take(entries.index() + 1).drop_last() =~= all.take(entries.index() as int));
        }
        if is_selected(entry.0.as_str(), &pattern) {
            missions.push(entry);
        }
    }
    assert(all.take(all.len() as int) =~= all);
    let failed: Vec<String> = Vec::new();
    assert(failed.deep_view() =~= Seq::<Seq<char>>::empty());
    Run { missions, done: 0, failed, fatal: None }
}

/// The shell of `plan`. A plan without one cannot serve a shell: that is an
/// error of the configuration.
pub fn shell(plan: Plan) -> (result: Result<Shell, ConfigError>)
    ensures
        match plan.shell {
            Some(entry) => result == Ok::<Shell, ConfigError>(entry),
            None => result == Err::<Shell, ConfigError>(ConfigError::MissingShell),
        },
{
    match plan.shell {
        Some(entry) => Ok(entry),
        None => Err(ConfigError::MissingShell),
    }
}

/// Every report of `reports` is a status: no error kept a container from running.
pub open spec fn all_launched(reports: Seq<Report>) -> bool {
    forall|i: int| 0 <= i < reports.len() ==> (#[trigger] reports[i]) is Ok
}

/// The report at index `at` is a status that is not a success.
pub open spec fn failed_at(reports: Seq<Report>, at: int) -> bool {
    reports[at] matches Ok(status) && !status.succeeded()
}

/// The account after one status for each of the first missions: so many
/// missions have ended, no error has ended the run, and the failed names are
/// exactly the names of the missions whose status was not a success.
pub proof fn lemma_replay_launched(missions: Seq<(String, Mission)>, reports: Seq<Report>)
    requires
        reports.len() <= missions.len(),
        all_launched(reports),
    ensures
        ({
            let end = RunSpec::start(missions).replay(reports);
            &&& end.missions == missions
            &&& end.fatal is None
            &&& end.done == reports.len()
            &&& forall|at: int|
                0 <= at < reports.len() && #[trigger] failed_at(reports, at)
                    ==> end.failed.contains(missions[at].0@)
            &&& forall|name: Seq<char>| #[trigger]
                end.failed.contains(name) ==> exists|at: int|
                    0 <= at < reports.len() && #[trigger] failed_at(reports, at) && missions[at].0@
                        == name
        }),
    decreases reports.len(),
{
    if reports.len() > 0 {
        let earlier = reports.drop_last();
        let last = (reports.len() - 1) as int;
        lemma_replay_launched(missions, earlier);
        let before = RunSpec::start(missions).replay(earlier);
        let end = before.record(reports.last());
        assert forall|at: int|
            0 <= at < reports.len() && #[trigger] failed_at(
                reports,
                at,
            ) implies end.failed.contains(missions[at].0@) by {
            if at < last {
                assert(failed_at(earlier, at));
                let found = choose|k: int|
                    0 <= k < before.failed.len() && before.failed[k] == missions[at].0@;
                assert(end.failed[found] == missions[at].0@);
            } else {
                assert(end.failed[before.failed.len() as int] == missions[last].0@);
            }
        }
        assert forall|name: Seq<char>| #[trigger] end.failed.contains(name) implies exists|at: int|
            0 <= at < reports.len() && #[trigger] failed_at(reports, at) && missions[at].0@
                == name by {
            let found = choose|k: int| 0 <= k < end.failed.len() && end.failed[k] == name;
            if found < before.failed.len() {
                assert(before.failed.contains(name));
                let at = choose|at: int|
                    0 <= at < earlier.len() && #[trigger] failed_at(earlier, at) && missions[at].0@
                        == name;
                assert(failed_at(reports, at));
            } else {
                assert(failed_at(reports, last));
            }
        }
    }
}

/// Where every mission of a run ends with exit code 0, the run is over after
/// the last of them, it succeeds, and the exit code of the process is 0.
pub proof fn law_all_succeed(missions: Seq<(String, Mission)>, reports: Seq<Report>)
    requires
        reports.len() == missions.len(),
        forall|i: int|
            0 <= i < reports.len() ==> (#[trigger] reports[i] matches Ok(status)
                && status.succeeded()),
    ensures
        RunSpec::start(missions).replay(reports).current() is None,
        RunSpec::start(missions).replay(reports).outcome() == Ok::<Seq<Seq<char>>, Error>(
            Seq::empty(),
        ),
        exit_code_of(RunSpec::start(missions).replay(reports).outcome()) == 0,
{
    lemma_replay_launched(missions, reports);
    let end = RunSpec::start(missions).replay(reports);
    if end.failed.len() > 0 {
        // A failed name would be the name of a mission that did not succeed.
        assert(end.failed.contains(end.failed[0]));
    }
    assert(end.failed =~= Seq::empty());
}

/// Where a mission ends with a status that is not a success, the run goes on:
/// each mission is launched in its turn, whatever the statuses before it. At
/// the end the run fails, the name of that mission is among the failed ones,
/// and the exit code of the process is not 0.
pub proof fn law_failure_is_collected(
    missions: Seq<(String, Mission)>,
    reports: Seq<Report>,
    at: int,
)
    requires
        reports.len() == missions.len(),
        all_launched(reports),
        0 <= at < reports.len(),
        failed_at(reports, at),
    ensures
        forall|turn: int|
            0 <= turn < missions.len() ==> RunSpec::start(missions).replay(
                #[trigger] reports.take(turn),
            ).current() == Some(turn),
        RunSpec::start(missions).replay(reports).current() is None,
        RunSpec::start(missions).replay(reports).outcome() matches Ok(failed) && failed.contains(
            missions[at].0@,
        ),
        exit_code_of(RunSpec::start(missions).replay(reports).outcome()) != 0,
{
    lemma_replay_launched(missions, reports);
    assert forall|turn: int| 0 <= turn < missions.len() implies RunSpec::start(missions).replay(
        #[trigger] reports.take(turn),
    ).current() == Some(turn) by {
        lemma_replay_launched(missions, reports.take(turn));
    }
}

/// Where a container cannot be run, because its image cannot be built or its
/// launch cannot be set up, the run ends at once with that error: no mission
/// is launched after it, and the run ends with the error and a non-zero exit
/// code whatever was reported before and whatever is reported after.
pub proof fn law_error_ends_run(
    missions: Seq<(String, Mission)>,
    before: Seq<Report>,
    error: Error,
    after: Seq<Report>,
)
    requires
        before.len() < missions.len(),
        all_launched(before),
    ensures
        ({
            let end = RunSpec::start(missions).replay(
                before.push(Err::<ExitStatus, Error>(error)) + after,
            );
            &&& end.current() is None
            &&& end.done == before.len()
            &&& end.outcome() == Err::<Seq<Seq<char>>, Error>(error)
            &&& exit_code_of(end.outcome()) != 0
        }),
    decreases after.len(),
{
    let fatal = before.push(Err::<ExitStatus, Error>(error));
    if after.len() == 0 {
        assert(fatal.drop_last() =~= before);
        lemma_replay_launched(missions, before);
    } else {
        law_error_ends_run(missions, before, error, after.drop_last());
        assert((fatal + after).drop_last() =~= fatal + after.drop_last());
    }
}

/// Without a pattern, and with the empty pattern, every mission is selected.
pub proof fn law_no_pattern_selects_all(missions: Seq<(String, Mission)>)
    ensures
        selected(missions, None) == missions,
        selected(missions, Some(Seq::empty())) == missions,
    decreases missions.len(),
{
    reveal(Seq::filter);
    if missions.len() > 0 {
        law_no_pattern_selects_all(missions.drop_last());
        let name = missions.last().0@;
        assert(crate::text::occurs_at(Seq::empty(), name, 0)) by {
            assert(name.subrange(0, 0) =~= Seq::<char>::empty());
        }
    }
}

/// A mission is selected exactly if it is in the plan and its name matches
/// the pattern.
pub proof fn law_selection(
    missions: Seq<(String, Mission)>,
    pattern: Option<Seq<char>>,
    entry: (String, Mission),
)
    ensures
        selected(missions, pattern).contains(entry) <==> missions.contains(entry) && matches(
            entry.0@,
            pattern,
        ),
{
    let chosen = selected(missions, pattern);
    if chosen.contains(entry) {
        missions.lemma_filter_contains_rev(wanted(pattern), entry);
    }
    if missions.contains(entry) && matches(entry.0@, pattern) {
        let at = choose|at: int| 0 <= at < missions.len() && missions[at] == entry;
        missions.lemma_filter_contains(wanted(pattern), at);
    }
}

/// Where no name occurs twice in a plan, none occurs twice among the
/// missions that a pattern selects.
pub proof fn law_selected_distinct(
    missions: Seq<(String, Mission)>,
    pattern: Option<Seq<char>>,
)
    requires
        distinct(names(missions)),
    ensures
        distinct(names(selected(missions, pattern))),
    decreases missions.len(),
{
    reveal(Seq::filter);
    if missions.len() > 0 {
        let rest = missions.drop_last();
        let last = missions.last();
        let chosen = selected(rest, pattern);
        assert forall|at: int| 0 <= at < rest.len() implies !repeats(names(rest), at) by {
            if repeats(names(rest), at) {
                let earlier = choose|earlier: int|
                    0 <= earlier < at && names(rest)[earlier] == names(rest)[at];
                assert(names(missions)[earlier] == names(missions)[at]);
                assert(repeats(names(missions), at));
            }
        }
        law_selected_distinct(rest, pattern);
        if matches(last.0@, pattern) {
            let all = chosen.push(last);
            assert forall|at: int| 0 <= at < all.len() implies !repeats(names(all), at) by {
                if repeats(names(all), at) {
                    let earlier = choose|earlier: int|
                        0 <= earlier < at && names(all)[earlier] == names(all)[at];
                    if at < chosen.len() {
                        assert(names(chosen)[earlier] == names(chosen)[at]);
                        assert(repeats(names(chosen), at));
                    } else {
                        rest.lemma_filter_contains_rev(wanted(pattern), chosen[earlier]);
                        let origin = choose|origin: int|
                            0 <= origin < rest.len() && rest[origin] == chosen[earlier];
                        assert(names(missions)[origin] == names(missions)[missions.len() - 1]);
                        assert(repeats(names(missions), missions.len() - 1));
                    }
                }
            }
        }
    }
}

} // verus!
