//! The build invoker: what to run for one compile step, and how its result is judged.
//!
//! A build is planned from a [`BuildConfig`], carried out by the caller, and judged
//! by [`conclude`]. Nothing here runs a compiler: the caller launches the external
//! one, or calls the compiler library, and reports what came back.
use crate::config::ServerConfig;
use vstd::prelude::*;
use vstd::string::StringExecFns;

verus! {

/// Name of the external compiler's executable.
pub const COMPILER_PROGRAM: &'static str = "sass";

/// Flag that makes the external compiler stop at its first diagnostic.
pub const STOP_ON_ERROR_FLAG: &'static str = "--stop-on-error";

/// Flag that asks the external compiler for compact output.
pub const COMPRESSED_STYLE_FLAG: &'static str = "--style=compressed";

/// Flag that keeps the external compiler from writing a source map.
pub const NO_SOURCE_MAP_FLAG: &'static str = "--no-source-map";

/// The strategy by which a compile step is performed.
#[derive(Clone, Copy, Debug, PartialEq, Eq, Structural)]
pub enum Backend {
    /// Run the external compiler as a child process.
    ExternalProcess,
    /// Call the compiler library inside this process.
    InProcessLibrary,
}

/// What one build needs to know.
#[derive(Clone, Debug)]
pub struct BuildConfig {
    pub input_path: String,
    pub output_path: String,
    pub stop_on_error: bool,
    pub backend: Backend,
}

/// Mathematical value of a [`BuildConfig`].
pub ghost struct BuildConfigView {
    pub input_path: Seq<char>,
    pub output_path: Seq<char>,
    pub stop_on_error: bool,
    pub backend: Backend,
}

impl View for BuildConfig {
    type V = BuildConfigView;

    open spec fn view(&self) -> BuildConfigView {
        BuildConfigView {
            input_path: self.input_path@,
            output_path: self.output_path@,
            stop_on_error: self.stop_on_error,
            backend: self.backend,
        }
    }
}

/// The work a build consists of, for whoever carries it out.
#[derive(Debug)]
pub enum BuildPlan {
    /// Launch `program` with `arguments` and collect the lines of its diagnostic stream.
    Spawn { program: String, arguments: Vec<String> },
    /// Have the compiler library compile `input_path`, in compact output, and write
    /// the stylesheet to `output_path`.
    Compile { input_path: String, output_path: String },
}

/// Mathematical value of a [`BuildPlan`].
pub ghost enum BuildPlanView {
    Spawn { program: Seq<char>, arguments: Seq<Seq<char>> },
    Compile { input_path: Seq<char>, output_path: Seq<char> },
}

impl View for BuildPlan {
    type V = BuildPlanView;

    open spec fn view(&self) -> BuildPlanView {
        match self {
            BuildPlan::Spawn { program, arguments } => BuildPlanView::Spawn {
                program: program@,
                arguments: arguments.deep_view(),
            },
            BuildPlan::Compile { input_path, output_path } => BuildPlanView::Compile {
                input_path: input_path@,
                output_path: output_path@,
            },
        }
    }
}

/// What came back from carrying out a [`BuildPlan`].
#[derive(Debug)]
pub enum CompilerReport {
    /// The external compiler could not be launched; `reason` says why.
    SpawnFailed { reason: String },
    /// The external compiler ran. `diagnostics` holds the lines of its diagnostic
    /// stream in order, `exit_code` its exit code where one is known.
    ProcessExited { diagnostics: Vec<String>, exit_code: Option<i32> },
    /// The compiler library produced the stylesheet `css`.
    LibraryCompiled { css: String },
    /// The compiler library returned an error; `reason` is its message.
    LibraryFailed { reason: String },
}

/// Mathematical value of a [`CompilerReport`].
pub ghost enum CompilerReportView {
    SpawnFailed { reason: Seq<char> },
    ProcessExited { diagnostics: Seq<Seq<char>>, exit_code: Option<i32> },
    LibraryCompiled { css: Seq<char> },
    LibraryFailed { reason: Seq<char> },
}

impl View for CompilerReport {
    type V = CompilerReportView;

    open spec fn view(&self) -> CompilerReportView {
        match self {
            CompilerReport::SpawnFailed { reason } => CompilerReportView::SpawnFailed {
                reason: reason@,
            },
            CompilerReport::ProcessExited {
                diagnostics,
                exit_code,
            } => CompilerReportView::ProcessExited {
                diagnostics: diagnostics.deep_view(),
                exit_code: *exit_code,
            },
            CompilerReport::LibraryCompiled { css } => CompilerReportView::LibraryCompiled {
                css: css@,
            },
            CompilerReport::LibraryFailed { reason } => CompilerReportView::LibraryFailed {
                reason: reason@,
            },
        }
    }
}

/// The structured result of one build attempt.
#[derive(Clone, Debug)]
pub struct BuildOutcome {
    pub succeeded: bool,
    pub diagnostics: Vec<String>,
    pub elapsed_millis: u128,
}

/// Mathematical value of a [`BuildOutcome`].
pub ghost struct BuildOutcomeView {
    pub succeeded: bool,
    pub diagnostics: Seq<Seq<char>>,
    pub elapsed_millis: nat,
}

impl View for BuildOutcome {
    type V = BuildOutcomeView;

    open spec fn view(&self) -> BuildOutcomeView {
        BuildOutcomeView {
            succeeded: self.succeeded,
            diagnostics: self.diagnostics.deep_view(),
            elapsed_millis: self.elapsed_millis as nat,
        }
    }
}

/// The build settings that a deployment's settings imply: the experimental switch
/// selects the in-process backend.
pub open spec fn spec_build_config(settings: &ServerConfig) -> BuildConfigView {
    BuildConfigView {
        input_path: settings.input_file_path@,
        output_path: settings.output_file_path@,
        stop_on_error: settings.stop_on_error,
        backend: if settings.experimental {
            Backend::InProcessLibrary
        } else {
            Backend::ExternalProcess
        },
    }
}

/// The positional argument of the external compiler: input path, a colon, output path.
pub open spec fn spec_target_argument(config: BuildConfigView) -> Seq<char> {
    config.input_path + seq![':'] + config.output_path
}

/// The argument list of the external compiler: the stop flag if the build stops on
/// errors, then the target, the compact-style flag and the no-source-map flag.
pub open spec fn spec_process_arguments(config: BuildConfigView) -> Seq<Seq<char>> {
    let fixed = seq![
        spec_target_argument(config),
        COMPRESSED_STYLE_FLAG@,
        NO_SOURCE_MAP_FLAG@,
    ];
    if config.stop_on_error {
        seq![STOP_ON_ERROR_FLAG@] + fixed
    } else {
        fixed
    }
}

/// The plan of a build, by backend.
pub open spec fn spec_plan(config: BuildConfigView) -> BuildPlanView {
    match config.backend {
        Backend::ExternalProcess => BuildPlanView::Spawn {
            program: COMPILER_PROGRAM@,
            arguments: spec_process_arguments(config),
        },
        Backend::InProcessLibrary => BuildPlanView::Compile {
            input_path: config.input_path,
            output_path: config.output_path,
        },
    }
}

/// Whether a report means success. A compiler that could not be launched, or a
/// library error, is a failure. A compiler that ran has failed only if the build
/// stops on errors and the compiler wrote a diagnostic line; its exit code plays
/// no part.
pub open spec fn spec_succeeded(stop_on_error: bool, report: CompilerReportView) -> bool {
    match report {
        CompilerReportView::SpawnFailed { .. } => false,
        CompilerReportView::ProcessExited { diagnostics, .. } => !stop_on_error
            || diagnostics.len() == 0,
        CompilerReportView::LibraryCompiled { .. } => true,
        CompilerReportView::LibraryFailed { .. } => false,
    }
}

/// The diagnostics a report carries: the compiler's lines, or the one reason of a
/// failed launch or of a library error.
pub open spec fn spec_diagnostics(report: CompilerReportView) -> Seq<Seq<char>> {
    match report {
        CompilerReportView::SpawnFailed { reason } => seq![reason],
        CompilerReportView::ProcessExited { diagnostics, .. } => diagnostics,
        CompilerReportView::LibraryCompiled { .. } => Seq::empty(),
        CompilerReportView::LibraryFailed { reason } => seq![reason],
    }
}

/// The outcome of a build whose plan gave `report` after `elapsed_millis`.
pub open spec fn spec_conclude(
    stop_on_error: bool,
    report: CompilerReportView,
    elapsed_millis: nat,
) -> BuildOutcomeView {
    BuildOutcomeView {
        succeeded: spec_succeeded(stop_on_error, report),
        diagnostics: spec_diagnostics(report),
        elapsed_millis,
    }
}

/// What a result of the compiler library amounts to as a report.
pub open spec fn spec_library_report(result: Result<String, String>) -> CompilerReportView {
    match result {
        Ok(css) => CompilerReportView::LibraryCompiled { css: css@ },
        Err(reason) => CompilerReportView::LibraryFailed { reason: reason@ },
    }
}

impl BuildConfig {
    /// Reads the build settings out of a deployment's settings.
    pub fn from_settings(settings: &ServerConfig) -> (config: BuildConfig)
        ensures
            config@ == spec_build_config(settings),
    {
        BuildConfig {
            input_path: settings.input_file_path.clone(),
            output_path: settings.output_file_path.clone(),
            stop_on_error: settings.stop_on_error,
            backend: if settings.experimental {
                Backend::InProcessLibrary
            } else {
                Backend::ExternalProcess
            },
        }
    }
}

/// Builds the argument list for the external compiler.
pub fn process_arguments(config: &BuildConfig) -> (arguments: Vec<String>)
    ensures
        arguments.deep_view() == spec_process_arguments(config@),
{
    let mut target = config.input_path.clone();
    proof {
        reveal_strlit(":");
    }
    target.append(":");
    target.append(config.output_path.as_str());
    assert(target@ == spec_target_argument(config@));
    let mut arguments: Vec<String> = Vec::new();
    if config.stop_on_error {
        arguments.push(String::from_str(STOP_ON_ERROR_FLAG));
    }
    arguments.push(target);
    arguments.push(String::from_str(COMPRESSED_STYLE_FLAG));
    arguments.push(String::from_str(NO_SOURCE_MAP_FLAG));
    arguments
}

/// Says what has to be run for one build.
pub fn plan(config: &BuildConfig) -> (plan: BuildPlan)
    ensures
        plan@ == spec_plan(config@),
{
    match config.backend {
        Backend::ExternalProcess => BuildPlan::Spawn {
            program: String::from_str(COMPILER_PROGRAM),
            arguments: process_arguments(config),
        },
        Backend::InProcessLibrary => BuildPlan::Compile {
            input_path: config.input_path.clone(),
            output_path: config.output_path.clone(),
        },
    }
}

/// Judges a build from what came back. The elapsed time is recorded whatever the
/// backend or the result.
///
/// Where the build stops on errors, a compiler that wrote a diagnostic line has
/// failed, whatever its exit code. Where it does not, a compiler that ran has
/// succeeded, whatever it wrote. A compiler that could not be launched has failed,
/// with the reason as the one diagnostic.
pub fn conclude(stop_on_error: bool, report: CompilerReport, elapsed_millis: u128) -> (outcome:
    BuildOutcome)
    ensures
        outcome@ == spec_conclude(stop_on_error, report@, elapsed_millis as nat),
        stop_on_error && report@ is ProcessExited && report@->diagnostics.len() >= 1
            ==> !outcome.succeeded,
        !stop_on_error && report@ is ProcessExited ==> outcome.succeeded,
        report@ is SpawnFailed ==> !outcome.succeeded && outcome.diagnostics.len() == 1,
{
    match report {
        CompilerReport::SpawnFailed { reason } => {
            let mut diagnostics: Vec<String> = Vec::new();
            diagnostics.push(reason);
            assert(diagnostics.deep_view() =~= seq![reason@]);
            BuildOutcome { succeeded: false, diagnostics, elapsed_millis }
        },
        CompilerReport::ProcessExited { diagnostics, exit_code: _ } => {
            let succeeded = !stop_on_error || diagnostics.len() == 0;
            BuildOutcome { succeeded, diagnostics, elapsed_millis }
        },
        CompilerReport::LibraryCompiled { css: _ } => {
            let diagnostics: Vec<String> = Vec::new();
            assert(diagnostics.deep_view() =~= Seq::<Seq<char>>::empty());
            BuildOutcome { succeeded: true, diagnostics, elapsed_millis }
        },
        CompilerReport::LibraryFailed { reason } => {
            let mut diagnostics: Vec<String> = Vec::new();
            diagnostics.push(reason);
            assert(diagnostics.deep_view() =~= seq![reason@]);
            BuildOutcome { succeeded: false, diagnostics, elapsed_millis }
        },
    }
}

/// Turns what the compiler library returned, the stylesheet or the text of its
/// error, into a report.
pub fn library_report(result: Result<String, String>) -> (report: CompilerReport)
    ensures
        report@ == spec_library_report(result),
{
    match result {
        Ok(css) => CompilerReport::LibraryCompiled { css },
        Err(reason) => CompilerReport::LibraryFailed { reason },
    }
}

} // verus!
