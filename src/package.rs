//! Package-manager detection: the candidates of each operating system, in
//! priority order, and the decisions taken while probing them.
use vstd::prelude::*;
use vstd::string::*;
use crate::command::{invocation, pipeline, Invocation, InvocationSpec, Pipeline, PipelineSpec};
use crate::platform::OsFamily;
use crate::text::{trim, trimmed};

verus! {

/// A package manager that may be installed: the tool whose presence marks it,
/// the command that probes for that tool, and the pipeline that counts the
/// installed packages.
pub struct Manager {
    pub tool: String,
    pub probe: Invocation,
    pub count: Pipeline,
}

/// What a [`Manager`] describes.
pub struct ManagerSpec {
    pub tool: Seq<char>,
    pub probe: InvocationSpec,
    pub count: PipelineSpec,
}

impl View for Manager {
    type V = ManagerSpec;

    open spec fn view(&self) -> ManagerSpec {
        ManagerSpec { tool: self.tool@, probe: self.probe@, count: self.count@ }
    }
}

/// `which <tool>`: prints the tool's path when it is installed, nothing otherwise.
pub open spec fn presence_probe(tool: Seq<char>) -> InvocationSpec {
    InvocationSpec { program: "which"@, args: seq![tool] }
}

/// `wc -l`: counts the lines of its input.
pub open spec fn line_count() -> InvocationSpec {
    InvocationSpec { program: "wc"@, args: seq!["-l"@] }
}

/// The manager marked by `tool` whose packages are listed by `list`, one per line.
pub open spec fn manager_spec(tool: Seq<char>, list: InvocationSpec) -> ManagerSpec {
    ManagerSpec {
        tool,
        probe: presence_probe(tool),
        count: PipelineSpec { source: list, sink: line_count() },
    }
}

/// The candidates of each operating system, highest priority first.
pub open spec fn manager_table(os: OsFamily) -> Seq<ManagerSpec> {
    match os {
        OsFamily::Linux => seq![
            manager_spec("pacman"@, InvocationSpec { program: "pacman"@, args: seq!["-Q"@, "-q"@] }),
            manager_spec("dpkg"@, InvocationSpec { program: "dpkg"@, args: seq!["-l"@] }),
            manager_spec("emerge"@, InvocationSpec { program: "ls"@, args: seq!["/var/db/pkg/*"@] }),
        ],
        OsFamily::NetBsd => seq![
            manager_spec("pkg_info"@, InvocationSpec { program: "pkg_info"@, args: seq![] }),
        ],
    }
}

fn manager(tool: &str, list: Invocation) -> (r: Manager)
    ensures
        r@ == manager_spec(tool@, list@),
{
    let probe = invocation("which", &[tool]);
    let sink = invocation("wc", &["-l"]);
    assert(probe@.args =~= seq![tool@]);
    assert(sink@.args =~= seq!["-l"@]);
    Manager { tool: String::from_str(tool), probe, count: pipeline(list, sink) }
}

/// The package managers to look for on `os`, highest priority first.
pub fn package_managers(os: OsFamily) -> (r: Vec<Manager>)
    ensures
        r@.map_values(|m: Manager| m@) == manager_table(os),
{
    let mut r: Vec<Manager> = Vec::new();
    match os {
        OsFamily::Linux => {
            let pacman = invocation("pacman", &["-Q", "-q"]);
            assert(pacman@.args =~= seq!["-Q"@, "-q"@]);
            r.push(manager("pacman", pacman));
            let dpkg = invocation("dpkg", &["-l"]);
            assert(dpkg@.args =~= seq!["-l"@]);
            r.push(manager("dpkg", dpkg));
            let ls = invocation("ls", &["/var/db/pkg/*"]);
            assert(ls@.args =~= seq!["/var/db/pkg/*"@]);
            r.push(manager("emerge", ls));
        },
        OsFamily::NetBsd => {
            let pkg_info = invocation("pkg_info", &[]);
            assert(pkg_info@.args =~= seq![]);
            r.push(manager("pkg_info", pkg_info));
        },
    }
    assert(r@.map_values(|m: Manager| m@) =~= manager_table(os));
    r
}

/// The failure flags of one probe run, owned by the caller.
pub struct Fail {
    pub packages: Failure,
}

/// Whether a metric could not be determined.
pub struct Failure {
    pub failed: bool,
}

/// Where a detection stands.
pub enum Stage {
    /// The candidate at this index is to be probed.
    Probing(usize),
    /// The candidate at this index was found; its packages are to be counted.
    Counting(usize),
    /// The count was produced.
    Found(String),
    /// No candidate is installed.
    NotFound,
}

/// What a [`Stage`] describes.
pub enum StageSpec {
    Probing(nat),
    Counting(nat),
    Found(Seq<char>),
    NotFound,
}

impl View for Stage {
    type V = StageSpec;

    open spec fn view(&self) -> StageSpec {
        match self {
            Stage::Probing(i) => StageSpec::Probing(*i as nat),
            Stage::Counting(i) => StageSpec::Counting(*i as nat),
            Stage::Found(c) => StageSpec::Found(c@),
            Stage::NotFound => StageSpec::NotFound,
        }
    }
}

/// What the caller is to do next.
#[derive(Clone, Copy, Debug, PartialEq, Eq, Structural)]
pub enum Action {
    /// Run the presence probe of the candidate at this index and hand its
    /// output to [`Detector::on_probe`].
    Probe(usize),
    /// Run the counting pipeline of the candidate at this index and hand its
    /// output to [`Detector::on_count`].
    Count(usize),
    /// Detection is over: take the result with [`Detector::finish`] or
    /// [`Detector::outcome`].
    Finished,
}

/// The first stage of a detection over `n` candidates.
pub open spec fn initial_stage(n: nat) -> StageSpec {
    if n == 0 {
        StageSpec::NotFound
    } else {
        StageSpec::Probing(0)
    }
}

/// The stage after probing candidate `i` of `n`: the first candidate found
/// present is counted, an absent one passes on to the next, and when none is
/// left nothing was found.
pub open spec fn after_probe(n: nat, i: nat, present: bool) -> StageSpec {
    if present {
        StageSpec::Counting(i)
    } else if i + 1 < n {
        StageSpec::Probing(i + 1)
    } else {
        StageSpec::NotFound
    }
}

/// The action that belongs to a stage.
pub open spec fn action_of(stage: StageSpec) -> Action {
    match stage {
        StageSpec::Probing(i) => Action::Probe(i as usize),
        StageSpec::Counting(i) => Action::Count(i as usize),
        _ => Action::Finished,
    }
}

/// The stage after the counting pipeline printed `output`: the count is that
/// output without surrounding whitespace.
pub open spec fn after_count(stage: StageSpec, output: Seq<char>) -> StageSpec {
    if stage is Counting {
        StageSpec::Found(trimmed(output))
    } else {
        stage
    }
}

/// The count a finished detection reports, and the failure flag after it,
/// when the flag was `failed` before: a count found leaves the flag as it
/// was; none found gives `"0"` and sets the flag.
pub open spec fn finished(stage: StageSpec, failed: bool) -> (Seq<char>, bool) {
    match stage {
        StageSpec::Found(c) => (c, failed),
        _ => ("0"@, true),
    }
}

/// A probe's output marks the tool as present when it is not empty.
pub open spec fn marks_present(output: Seq<char>) -> bool {
    output.len() > 0
}

/// Detection of the installed package manager: probes the candidates in
/// order and counts the packages of the first one present.
pub struct Detector {
    managers: Vec<Manager>,
    stage: Stage,
}

/// What a [`Detector`] describes.
pub struct DetectorSpec {
    pub managers: Seq<ManagerSpec>,
    pub stage: StageSpec,
}

impl View for Detector {
    type V = DetectorSpec;

    closed spec fn view(&self) -> DetectorSpec {
        DetectorSpec { managers: self.managers@.map_values(|m: Manager| m@), stage: self.stage@ }
    }
}

impl Detector {
    /// A stage that names a candidate names one that exists.
    pub open spec fn wf(&self) -> bool {
        match self@.stage {
            StageSpec::Probing(i) => i < self@.managers.len(),
            StageSpec::Counting(i) => i < self@.managers.len(),
            _ => true,
        }
    }

    /// Starts a detection over `managers`, highest priority first.
    pub fn new(managers: Vec<Manager>) -> (r: Detector)
        ensures
            r.wf(),
            r@.managers == managers@.map_values(|m: Manager| m@),
            r@.stage == initial_stage(managers@.len()),
    {
        let stage = if managers.len() == 0 {
            Stage::NotFound
        } else {
            Stage::Probing(0)
        };
        Detector { managers, stage }
    }

    /// Starts a detection over the package managers of `os`.
    pub fn for_os(os: OsFamily) -> (r: Detector)
        ensures
            r.wf(),
            r@.managers == manager_table(os),
            r@.stage == initial_stage(manager_table(os).len()),
    {
        Detector::new(package_managers(os))
    }

    /// The candidates, highest priority first.
    pub fn managers(&self) -> (r: &Vec<Manager>)
        ensures
            r@.map_values(|m: Manager| m@) == self@.managers,
    {
        &self.managers
    }

    /// What the caller is to do next.
    pub fn next_action(&self) -> (r: Action)
        ensures
            r == action_of(self@.stage),
    {
        match &self.stage {
            Stage::Probing(i) => Action::Probe(*i),
            Stage::Counting(i) => Action::Count(*i),
            _ => Action::Finished,
        }
    }

    /// Takes the output of the presence probe of the candidate being probed.
    pub fn on_probe(&mut self, output: &str)
        requires
            old(self).wf(),
            old(self)@.stage is Probing,
        ensures
            final(self).wf(),
            final(self)@.managers == old(self)@.managers,
            final(self)@.stage == after_probe(
                old(self)@.managers.len(),
                old(self)@.stage->Probing_0,
                marks_present(output@),
            ),
    {
        if let Stage::Probing(i) = self.stage {
            if output.unicode_len() > 0 {
                self.stage = Stage::Counting(i);
            } else if i < self.managers.len() - 1 {
                self.stage = Stage::Probing(i + 1);
            } else {
                self.stage = Stage::NotFound;
            }
        }
    }

    /// Takes the output of the counting pipeline of the candidate found; the
    /// count is that output without surrounding whitespace.
    pub fn on_count(&mut self, output: &str)
        requires
            old(self)@.stage is Counting,
        ensures
            final(self).wf(),
            final(self)@.managers == old(self)@.managers,
            final(self)@.stage == after_count(old(self)@.stage, output@),
    {
        self.stage = Stage::Found(trim(output));
    }

    /// The package count, and whether it could be determined: the count
    /// produced, or `"0"` when no candidate is installed.
    pub fn outcome(&self) -> (r: (String, bool))
        requires
            self@.stage is Found || self@.stage is NotFound,
        ensures
            self@.stage is Found ==> r.0@ == self@.stage->Found_0 && r.1,
            self@.stage is NotFound ==> r.0@ == "0"@ && !r.1,
    {
        match &self.stage {
            Stage::Found(c) => (c.clone(), true),
            _ => (String::from_str("0"), false),
        }
    }

    /// The package count; when no candidate is installed, records the failure
    /// in `fail` and returns `"0"`. `fail` is never cleared.
    pub fn finish(&self, fail: &mut Fail) -> (r: String)
        requires
            self@.stage is Found || self@.stage is NotFound,
        ensures
            (r@, final(fail).packages.failed) == finished(self@.stage, old(fail).packages.failed),
    {
        let (count, determined) = self.outcome();
        if !determined {
            fail.packages.failed = true;
        }
        count
    }
}

/// The indices `from`, `from + 1`, ..., `to - 1`.
pub open spec fn indices(from: nat, to: nat) -> Seq<nat> {
    Seq::new((to - from) as nat, |j: int| (from + j) as nat)
}

/// Where probing leads from candidate `i` on, when probing candidate `k`
/// shows it present exactly if `present[k]`: the indices probed, in order, and
/// the stage reached.
pub open spec fn probe_run(present: Seq<bool>, i: nat) -> (Seq<nat>, StageSpec)
    decreases present.len() - i,
{
    if i < present.len() {
        let next = after_probe(present.len(), i, present[i as int]);
        if next is Probing {
            let rest = probe_run(present, i + 1);
            (seq![i] + rest.0, rest.1)
        } else {
            (seq![i], next)
        }
    } else {
        (seq![], StageSpec::NotFound)
    }
}

/// A whole detection over `present.len()` candidates, from its first stage.
pub open spec fn detection(present: Seq<bool>) -> (Seq<nat>, StageSpec) {
    if initial_stage(present.len()) is Probing {
        probe_run(present, 0)
    } else {
        (seq![], initial_stage(present.len()))
    }
}

/// Candidate `k` is present and none ranked before it is.
pub open spec fn first_present(present: Seq<bool>, k: int) -> bool {
    &&& 0 <= k < present.len()
    &&& present[k]
    &&& forall|j: int| 0 <= j < k ==> !present[j]
}

proof fn lemma_probe_run_found(present: Seq<bool>, i: nat, k: nat)
    requires
        i <= k,
        first_present(present, k as int),
    ensures
        probe_run(present, i) == (indices(i, k + 1), StageSpec::Counting(k)),
    decreases k - i,
{
    if i < k {
        lemma_probe_run_found(present, i + 1, k);
        assert(seq![i] + indices(i + 1, k + 1) =~= indices(i, k + 1));
    } else {
        assert(seq![i] =~= indices(i, k + 1));
    }
}

proof fn lemma_probe_run_absent(present: Seq<bool>, i: nat)
    requires
        i <= present.len(),
        forall|j: int| 0 <= j < present.len() ==> !present[j],
    ensures
        probe_run(present, i) == (indices(i, present.len()), StageSpec::NotFound),
    decreases present.len() - i,
{
    if i < present.len() {
        lemma_probe_run_absent(present, i + 1);
        if i + 1 < present.len() {
            assert(seq![i] + indices(i + 1, present.len()) =~= indices(i, present.len()));
        } else {
            assert(seq![i] =~= indices(i, present.len()));
        }
    } else {
        assert(indices(i, present.len()) =~= seq![]);
    }
}

/// Detection follows the fixed priority order: it counts the packages of the
/// first candidate present, having probed that candidate and those ranked
/// before it and none after it; when no candidate is present it probes them
/// all and finds nothing.
pub proof fn lemma_first_present_wins(present: Seq<bool>)
    ensures
        forall|k: int| #[trigger]
            first_present(present, k) ==> detection(present) == (
                indices(0, (k + 1) as nat),
                StageSpec::Counting(k as nat),
            ),
        (forall|j: int| 0 <= j < present.len() ==> !present[j]) ==> detection(present) == (
            indices(0, present.len()),
            StageSpec::NotFound,
        ),
{
    assert forall|k: int| #[trigger]
        first_present(present, k) implies detection(present) == (
            indices(0, (k + 1) as nat),
            StageSpec::Counting(k as nat),
        ) by {
        lemma_probe_run_found(present, 0, k as nat);
    }
    if forall|j: int| 0 <= j < present.len() ==> !present[j] {
        lemma_probe_run_absent(present, 0);
        assert(indices(0, 0) =~= seq![]);
    }
}

/// Only a detection that finds no candidate sets the failure flag, and it
/// then reports `"0"`; one that finds a candidate reports its trimmed count
/// and leaves the flag as it was.
pub proof fn lemma_failure_only_when_none_found(present: Seq<bool>, output: Seq<char>, failed: bool)
    ensures
        (forall|j: int| 0 <= j < present.len() ==> !present[j]) ==> finished(
            detection(present).1,
            failed,
        ) == ("0"@, true),
        (exists|k: int| first_present(present, k)) ==> finished(
            after_count(detection(present).1, output),
            failed,
        ) == (trimmed(output), failed),
{
    lemma_first_present_wins(present);
}

} // verus!
