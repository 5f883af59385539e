//! The request and result model of a test run, each type with its view over
//! character sequences.

use vstd::prelude::*;
use vstd::string::*;

verus! {

/// Which test platform a request targets.
#[derive(Clone, Copy, Debug, PartialEq, Eq, Structural)]
pub enum UnityTestMode {
    All,
    Editmode,
    Playmode,
}

/// The name by which the bridge knows a test mode.
pub open spec fn bridge_name(mode: UnityTestMode) -> Seq<char> {
    match mode {
        UnityTestMode::All => "all"@,
        UnityTestMode::Editmode => "editmode"@,
        UnityTestMode::Playmode => "playmode"@,
    }
}

impl UnityTestMode {
    /// The name by which the bridge knows this mode.
    pub fn as_bridge_str(&self) -> (name: &'static str)
        ensures
            name@ == bridge_name(*self),
    {
        match self {
            UnityTestMode::All => "all",
            UnityTestMode::Editmode => "editmode",
            UnityTestMode::Playmode => "playmode",
        }
    }
}

impl Default for UnityTestMode {
    fn default() -> (mode: Self)
        ensures
            mode == UnityTestMode::All,
    {
        UnityTestMode::All
    }
}

/// The view of an optional string.
pub open spec fn opt_str(o: Option<String>) -> Option<Seq<char>> {
    match o {
        Some(s) => Some(s@),
        None => None,
    }
}

/// A copy of an optional string.
pub fn copy_opt_str(o: &Option<String>) -> (r: Option<String>)
    ensures
        opt_str(r) == opt_str(*o),
{
    match o {
        Some(s) => Some(s.clone()),
        None => None,
    }
}

/// What a test request selects.
#[derive(Clone, Debug)]
pub struct UnityTestFilter {
    pub test_mode: UnityTestMode,
    pub assembly_name: Option<String>,
    pub fixture_name: Option<String>,
    pub test_name: Option<String>,
    pub search: Option<String>,
}

/// The view of a [`UnityTestFilter`].
pub struct UnityTestFilterView {
    pub test_mode: UnityTestMode,
    pub assembly_name: Option<Seq<char>>,
    pub fixture_name: Option<Seq<char>>,
    pub test_name: Option<Seq<char>>,
    pub search: Option<Seq<char>>,
}

impl View for UnityTestFilter {
    type V = UnityTestFilterView;

    open spec fn view(&self) -> UnityTestFilterView {
        UnityTestFilterView {
            test_mode: self.test_mode,
            assembly_name: opt_str(self.assembly_name),
            fixture_name: opt_str(self.fixture_name),
            test_name: opt_str(self.test_name),
            search: opt_str(self.search),
        }
    }
}

impl UnityTestFilter {
    /// A copy of this filter.
    pub fn duplicate(&self) -> (r: Self)
        ensures
            r@ == self@,
    {
        UnityTestFilter {
            test_mode: self.test_mode,
            assembly_name: copy_opt_str(&self.assembly_name),
            fixture_name: copy_opt_str(&self.fixture_name),
            test_name: copy_opt_str(&self.test_name),
            search: copy_opt_str(&self.search),
        }
    }
}

impl Default for UnityTestFilter {
    fn default() -> (r: Self)
        ensures
            r@ == (UnityTestFilterView {
                test_mode: UnityTestMode::All,
                assembly_name: None,
                fixture_name: None,
                test_name: None,
                search: None,
            }),
    {
        UnityTestFilter {
            test_mode: UnityTestMode::All,
            assembly_name: None,
            fixture_name: None,
            test_name: None,
            search: None,
        }
    }
}

/// One test, fixture or assembly that a run request names explicitly.
#[derive(Clone, Debug)]
pub struct UnityTestTarget {
    pub assembly_name: Option<String>,
    pub fixture_name: Option<String>,
    pub test_name: Option<String>,
}

/// The view of a [`UnityTestTarget`].
pub struct UnityTestTargetView {
    pub assembly_name: Option<Seq<char>>,
    pub fixture_name: Option<Seq<char>>,
    pub test_name: Option<Seq<char>>,
}

impl View for UnityTestTarget {
    type V = UnityTestTargetView;

    open spec fn view(&self) -> UnityTestTargetView {
        UnityTestTargetView {
            assembly_name: opt_str(self.assembly_name),
            fixture_name: opt_str(self.fixture_name),
            test_name: opt_str(self.test_name),
        }
    }
}

impl UnityTestTarget {
    /// A copy of this target.
    pub fn duplicate(&self) -> (r: Self)
        ensures
            r@ == self@,
    {
        UnityTestTarget {
            assembly_name: copy_opt_str(&self.assembly_name),
            fixture_name: copy_opt_str(&self.fixture_name),
            test_name: copy_opt_str(&self.test_name),
        }
    }
}

impl Default for UnityTestTarget {
    fn default() -> (r: Self)
        ensures
            r@ == (UnityTestTargetView { assembly_name: None, fixture_name: None, test_name: None }),
    {
        UnityTestTarget { assembly_name: None, fixture_name: None, test_name: None }
    }
}

/// The views of a sequence of targets.
pub open spec fn targets_view(v: Seq<UnityTestTarget>) -> Seq<UnityTestTargetView> {
    v.map_values(|t: UnityTestTarget| t@)
}

/// A request to run tests: a filter, and optionally an explicit list of tests.
#[derive(Clone, Debug)]
pub struct UnityTestRunRequest {
    pub filter: UnityTestFilter,
    pub tests: Vec<UnityTestTarget>,
}

/// The view of a [`UnityTestRunRequest`].
pub struct UnityTestRunRequestView {
    pub filter: UnityTestFilterView,
    pub tests: Seq<UnityTestTargetView>,
}

impl View for UnityTestRunRequest {
    type V = UnityTestRunRequestView;

    open spec fn view(&self) -> UnityTestRunRequestView {
        UnityTestRunRequestView { filter: self.filter@, tests: targets_view(self.tests@) }
    }
}

impl UnityTestRunRequest {
    /// A copy of this request.
    pub fn duplicate(&self) -> (r: Self)
        ensures
            r@ == self@,
    {
        let mut tests: Vec<UnityTestTarget> = Vec::new();
        let mut i: usize = 0;
        while i < self.tests.len()
            invariant
                i <= self.tests.len(),
                tests@.len() == i,
                forall|k: int| 0 <= k < i ==> #[trigger] tests@[k]@ == self.tests@[k]@,
            decreases self.tests.len() - i,
        {
            let t = self.tests[i].duplicate();
            tests.push(t);
            i = i + 1;
        }
        assert(targets_view(tests@) =~= targets_view(self.tests@));
        UnityTestRunRequest { filter: self.filter.duplicate(), tests }
    }
}

impl Default for UnityTestRunRequest {
    fn default() -> (r: Self)
        ensures
            r@.filter == (UnityTestFilterView {
                test_mode: UnityTestMode::All,
                assembly_name: None,
                fixture_name: None,
                test_name: None,
                search: None,
            }),
            r@.tests.len() == 0,
    {
        UnityTestRunRequest { filter: UnityTestFilter::default(), tests: Vec::new() }
    }
}

/// One test method that discovery reports.
#[derive(Clone, Debug)]
pub struct UnityTestMethod {
    pub name: String,
    pub full_name: String,
    pub attributes: Vec<String>,
    pub source_path: Option<String>,
    pub line: Option<u32>,
}

/// The view of a [`UnityTestMethod`].
pub struct UnityTestMethodView {
    pub name: Seq<char>,
    pub full_name: Seq<char>,
    pub attributes: Seq<Seq<char>>,
    pub source_path: Option<Seq<char>>,
    pub line: Option<u32>,
}

impl View for UnityTestMethod {
    type V = UnityTestMethodView;

    open spec fn view(&self) -> UnityTestMethodView {
        UnityTestMethodView {
            name: self.name@,
            full_name: self.full_name@,
            attributes: self.attributes@.map_values(|a: String| a@),
            source_path: opt_str(self.source_path),
            line: self.line,
        }
    }
}

/// One fixture that discovery reports, with its tests.
#[derive(Clone, Debug)]
pub struct UnityTestFixture {
    pub name: String,
    pub tests: Vec<UnityTestMethod>,
}

/// The view of a [`UnityTestFixture`].
pub struct UnityTestFixtureView {
    pub name: Seq<char>,
    pub tests: Seq<UnityTestMethodView>,
}

impl View for UnityTestFixture {
    type V = UnityTestFixtureView;

    open spec fn view(&self) -> UnityTestFixtureView {
        UnityTestFixtureView {
            name: self.name@,
            tests: self.tests@.map_values(|m: UnityTestMethod| m@),
        }
    }
}

/// One assembly that discovery reports, with its fixtures.
#[derive(Clone, Debug)]
pub struct UnityTestAssembly {
    pub name: String,
    pub test_mode: String,
    pub fixtures: Vec<UnityTestFixture>,
}

/// The view of a [`UnityTestAssembly`].
pub struct UnityTestAssemblyView {
    pub name: Seq<char>,
    pub test_mode: Seq<char>,
    pub fixtures: Seq<UnityTestFixtureView>,
}

impl View for UnityTestAssembly {
    type V = UnityTestAssemblyView;

    open spec fn view(&self) -> UnityTestAssemblyView {
        UnityTestAssemblyView {
            name: self.name@,
            test_mode: self.test_mode@,
            fixtures: self.fixtures@.map_values(|f: UnityTestFixture| f@),
        }
    }
}

/// The tests that the editor found for a filter.
#[derive(Clone, Debug)]
pub struct UnityTestDiscovery {
    pub assemblies: Vec<UnityTestAssembly>,
}

/// The view of a [`UnityTestDiscovery`].
pub struct UnityTestDiscoveryView {
    pub assemblies: Seq<UnityTestAssemblyView>,
}

impl View for UnityTestDiscovery {
    type V = UnityTestDiscoveryView;

    open spec fn view(&self) -> UnityTestDiscoveryView {
        UnityTestDiscoveryView {
            assemblies: self.assemblies@.map_values(|a: UnityTestAssembly| a@),
        }
    }
}

/// Progress that the editor reports while a phase runs.
#[derive(Clone, Debug)]
pub struct UnityTestProgress {
    pub active: bool,
    pub run_id: String,
    pub phase: String,
    pub current_test: String,
    pub completed: u32,
    pub total: u32,
    pub failed: u32,
    pub revision: u32,
}

/// The view of a [`UnityTestProgress`].
pub struct UnityTestProgressView {
    pub active: bool,
    pub run_id: Seq<char>,
    pub phase: Seq<char>,
    pub current_test: Seq<char>,
    pub completed: u32,
    pub total: u32,
    pub failed: u32,
    pub revision: u32,
}

impl View for UnityTestProgress {
    type V = UnityTestProgressView;

    open spec fn view(&self) -> UnityTestProgressView {
        UnityTestProgressView {
            active: self.active,
            run_id: self.run_id@,
            phase: self.phase@,
            current_test: self.current_test@,
            completed: self.completed,
            total: self.total,
            failed: self.failed,
            revision: self.revision,
        }
    }
}

/// The outcome of one test. The duration in seconds is carried as the bit
/// pattern of its IEEE-754 double and never read here.
#[derive(Clone, Debug)]
pub struct UnityTestResult {
    pub assembly_name: String,
    pub fixture_name: String,
    pub test_name: String,
    pub full_name: String,
    pub outcome: String,
    pub duration_bits: u64,
    pub message: String,
    pub stack_trace: String,
    pub source_path: Option<String>,
    pub line: Option<u32>,
}

/// The view of a [`UnityTestResult`].
pub struct UnityTestResultView {
    pub assembly_name: Seq<char>,
    pub fixture_name: Seq<char>,
    pub test_name: Seq<char>,
    pub full_name: Seq<char>,
    pub outcome: Seq<char>,
    pub duration_bits: u64,
    pub message: Seq<char>,
    pub stack_trace: Seq<char>,
    pub source_path: Option<Seq<char>>,
    pub line: Option<u32>,
}

impl View for UnityTestResult {
    type V = UnityTestResultView;

    open spec fn view(&self) -> UnityTestResultView {
        UnityTestResultView {
            assembly_name: self.assembly_name@,
            fixture_name: self.fixture_name@,
            test_name: self.test_name@,
            full_name: self.full_name@,
            outcome: self.outcome@,
            duration_bits: self.duration_bits,
            message: self.message@,
            stack_trace: self.stack_trace@,
            source_path: opt_str(self.source_path),
            line: self.line,
        }
    }
}

impl UnityTestResult {
    /// A copy of this result.
    pub fn duplicate(&self) -> (r: Self)
        ensures
            r@ == self@,
    {
        UnityTestResult {
            assembly_name: self.assembly_name.clone(),
            fixture_name: self.fixture_name.clone(),
            test_name: self.test_name.clone(),
            full_name: self.full_name.clone(),
            outcome: self.outcome.clone(),
            duration_bits: self.duration_bits,
            message: self.message.clone(),
            stack_trace: self.stack_trace.clone(),
            source_path: copy_opt_str(&self.source_path),
            line: self.line,
        }
    }
}

/// The views of a sequence of test results.
pub open spec fn results_view(v: Seq<UnityTestResult>) -> Seq<UnityTestResultView> {
    v.map_values(|r: UnityTestResult| r@)
}

/// A copy of a list of test results.
pub fn copy_results(v: &Vec<UnityTestResult>) -> (r: Vec<UnityTestResult>)
    ensures
        results_view(r@) == results_view(v@),
{
    let mut out: Vec<UnityTestResult> = Vec::new();
    let mut i: usize = 0;
    while i < v.len()
        invariant
            i <= v.len(),
            out@.len() == i,
            forall|k: int| 0 <= k < i ==> #[trigger] out@[k]@ == v@[k]@,
        decreases v.len() - i,
    {
        out.push(v[i].duplicate());
        i = i + 1;
    }
    assert(results_view(out@) =~= results_view(v@));
    out
}

/// The result of one test phase (one test mode) as the editor reports it.
/// The duration is carried as in [`UnityTestResult`].
#[derive(Clone, Debug)]
pub struct UnityTestPhaseResult {
    pub run_id: String,
    pub test_mode: String,
    pub status: String,
    pub total: u32,
    pub passed: u32,
    pub failed: u32,
    pub skipped: u32,
    pub duration_bits: u64,
    pub results: Vec<UnityTestResult>,
    pub error_code: Option<String>,
    pub error_message: Option<String>,
}

/// The view of a [`UnityTestPhaseResult`].
pub struct UnityTestPhaseResultView {
    pub run_id: Seq<char>,
    pub test_mode: Seq<char>,
    pub status: Seq<char>,
    pub total: u32,
    pub passed: u32,
    pub failed: u32,
    pub skipped: u32,
    pub duration_bits: u64,
    pub results: Seq<UnityTestResultView>,
    pub error_code: Option<Seq<char>>,
    pub error_message: Option<Seq<char>>,
}

impl View for UnityTestPhaseResult {
    type V = UnityTestPhaseResultView;

    open spec fn view(&self) -> UnityTestPhaseResultView {
        UnityTestPhaseResultView {
            run_id: self.run_id@,
            test_mode: self.test_mode@,
            status: self.status@,
            total: self.total,
            passed: self.passed,
            failed: self.failed,
            skipped: self.skipped,
            duration_bits: self.duration_bits,
            results: results_view(self.results@),
            error_code: opt_str(self.error_code),
            error_message: opt_str(self.error_message),
        }
    }
}

impl UnityTestPhaseResult {
    /// A copy of this phase result.
    pub fn duplicate(&self) -> (r: Self)
        ensures
            r@ == self@,
    {
        UnityTestPhaseResult {
            run_id: self.run_id.clone(),
            test_mode: self.test_mode.clone(),
            status: self.status.clone(),
            total: self.total,
            passed: self.passed,
            failed: self.failed,
            skipped: self.skipped,
            duration_bits: self.duration_bits,
            results: copy_results(&self.results),
            error_code: copy_opt_str(&self.error_code),
            error_message: copy_opt_str(&self.error_message),
        }
    }
}

/// A copy of a list of phase results.
pub fn copy_phases(v: &Vec<UnityTestPhaseResult>) -> (r: Vec<UnityTestPhaseResult>)
    ensures
        phases_view(r@) == phases_view(v@),
{
    let mut out: Vec<UnityTestPhaseResult> = Vec::new();
    let mut i: usize = 0;
    while i < v.len()
        invariant
            i <= v.len(),
            out@.len() == i,
            forall|k: int| 0 <= k < i ==> #[trigger] out@[k]@ == v@[k]@,
        decreases v.len() - i,
    {
        out.push(v[i].duplicate());
        i = i + 1;
    }
    assert(phases_view(out@) =~= phases_view(v@));
    out
}

/// The views of a sequence of phase results.
pub open spec fn phases_view(v: Seq<UnityTestPhaseResult>) -> Seq<UnityTestPhaseResultView> {
    v.map_values(|p: UnityTestPhaseResult| p@)
}

/// An error of a test run: a machine-readable code and a message.
#[derive(Clone, Debug)]
pub struct UnityTestError {
    pub code: String,
    pub message: String,
}

/// The view of a [`UnityTestError`].
pub struct UnityTestErrorView {
    pub code: Seq<char>,
    pub message: Seq<char>,
}

impl View for UnityTestError {
    type V = UnityTestErrorView;

    open spec fn view(&self) -> UnityTestErrorView {
        UnityTestErrorView { code: self.code@, message: self.message@ }
    }
}

/// The error with the given code and message.
pub open spec fn error_of(code: Seq<char>, message: Seq<char>) -> UnityTestErrorView {
    UnityTestErrorView { code, message }
}

impl UnityTestError {
    /// The error with the given code and message.
    pub fn new(code: &str, message: &str) -> (e: Self)
        ensures
            e@ == error_of(code@, message@),
    {
        UnityTestError { code: String::from_str(code), message: String::from_str(message) }
    }

    /// A copy of this error.
    pub fn duplicate(&self) -> (r: Self)
        ensures
            r@ == self@,
    {
        UnityTestError { code: self.code.clone(), message: self.message.clone() }
    }
}

/// How the editor was brought up to date before the tests ran.
#[derive(Clone, Debug)]
pub struct UnityTestPreparation {
    pub method: String,
    pub status: String,
    pub message: Option<String>,
}

/// The view of a [`UnityTestPreparation`].
pub struct UnityTestPreparationView {
    pub method: Seq<char>,
    pub status: Seq<char>,
    pub message: Option<Seq<char>>,
}

impl UnityTestPreparation {
    /// A copy of this preparation.
    pub fn duplicate(&self) -> (r: Self)
        ensures
            r@ == self@,
    {
        UnityTestPreparation {
            method: self.method.clone(),
            status: self.status.clone(),
            message: copy_opt_str(&self.message),
        }
    }
}

impl View for UnityTestPreparation {
    type V = UnityTestPreparationView;

    open spec fn view(&self) -> UnityTestPreparationView {
        UnityTestPreparationView {
            method: self.method@,
            status: self.status@,
            message: opt_str(self.message),
        }
    }
}

/// Test counts summed over phases. The summed duration, a floating-point
/// number, is not part of this type.
#[derive(Clone, Copy, Debug, PartialEq, Eq, Structural)]
pub struct UnityTestSummary {
    pub total: u32,
    pub passed: u32,
    pub failed: u32,
    pub skipped: u32,
}

impl Default for UnityTestSummary {
    fn default() -> (r: Self)
        ensures
            r == (UnityTestSummary { total: 0, passed: 0, failed: 0, skipped: 0 }),
    {
        UnityTestSummary { total: 0, passed: 0, failed: 0, skipped: 0 }
    }
}

/// A point in time: whole seconds since the Unix epoch and the nanoseconds
/// past them.
#[derive(Clone, Copy, Debug, PartialEq, Eq, Structural)]
pub struct Timestamp {
    pub seconds: i64,
    pub nanos: u32,
}

/// The record of a finished test run.
#[derive(Clone, Debug)]
pub struct UnityTestSnapshot {
    pub run_id: String,
    pub started_at: Timestamp,
    pub finished_at: Timestamp,
    pub terminal_status: String,
    pub preparation: UnityTestPreparation,
    pub requested_scope: UnityTestRunRequest,
    pub phase_summaries: Vec<UnityTestPhaseResult>,
    pub total_summary: UnityTestSummary,
    pub results: Vec<UnityTestResult>,
    pub error: Option<UnityTestError>,
}

/// The view of a [`UnityTestSnapshot`].
pub struct UnityTestSnapshotView {
    pub run_id: Seq<char>,
    pub started_at: Timestamp,
    pub finished_at: Timestamp,
    pub terminal_status: Seq<char>,
    pub preparation: UnityTestPreparationView,
    pub requested_scope: UnityTestRunRequestView,
    pub phase_summaries: Seq<UnityTestPhaseResultView>,
    pub total_summary: UnityTestSummary,
    pub results: Seq<UnityTestResultView>,
    pub error: Option<UnityTestErrorView>,
}

/// The view of an optional error.
pub open spec fn opt_error(e: Option<UnityTestError>) -> Option<UnityTestErrorView> {
    match e {
        Some(x) => Some(x@),
        None => None,
    }
}

impl View for UnityTestSnapshot {
    type V = UnityTestSnapshotView;

    open spec fn view(&self) -> UnityTestSnapshotView {
        UnityTestSnapshotView {
            run_id: self.run_id@,
            started_at: self.started_at,
            finished_at: self.finished_at,
            terminal_status: self.terminal_status@,
            preparation: self.preparation@,
            requested_scope: self.requested_scope@,
            phase_summaries: phases_view(self.phase_summaries@),
            total_summary: self.total_summary,
            results: results_view(self.results@),
            error: opt_error(self.error),
        }
    }
}

/// A reply of the editor bridge to one request.
#[derive(Clone, Debug)]
pub struct PipeResponse {
    pub ok: bool,
    pub message: Option<String>,
    pub error: Option<String>,
}

/// The view of a [`PipeResponse`].
pub struct PipeResponseView {
    pub ok: bool,
    pub message: Option<Seq<char>>,
    pub error: Option<Seq<char>>,
}

impl View for PipeResponse {
    type V = PipeResponseView;

    open spec fn view(&self) -> PipeResponseView {
        PipeResponseView { ok: self.ok, message: opt_str(self.message), error: opt_str(self.error) }
    }
}

} // verus!
