//! The command line: what each command asks of Nix, in which order, and what
//! it shows at the end.
//!
//! A `Session` decides; the program around the library performs each
//! `Request` (loading configuration, running Nix, printing) and hands the
//! outcome back as an `Event`. Failures of that outside work end the command
//! with their own error before the session sees them.

use vstd::prelude::*;

use crate::config::{config_violation, Config};
use crate::error::OnceError;
use crate::nix::{DoctorState, Evaluation, TraceQuery};
use crate::policy::{
    evaluate, report_base, report_shows, spec_action, spec_decision, spec_exit, PolicyResult,
};
use crate::text::{push_all, push_str, string_of, view_set, views};
use crate::types::{Action, Decision, ExitCode, ResultEnvelope};
use crate::version::{rendered, semver_order, triple_order, Version};
use crate::views::{
    native_shows, native_trace, nothing_found, resolve_view, resolve_view_of, trace_view,
    trace_view_of, trust_view, trust_view_of, NativeTrace, Presentation,
};

verus! {

/// The subcommands of `once`.
#[derive(Clone, Debug)]
pub enum Commands {
    /// Diagnose Nix and policy prerequisites.
    Doctor,
    /// Evaluate whether work may be skipped.
    Check { installable: String },
    /// Show derivation resolution state without building.
    Resolve { installable: String },
    /// Show the native build trace without building.
    Trace { installable: String },
    /// Evaluate build-trace trust policy without building.
    Trust { installable: String },
    /// Show the complete Once decision without building.
    Explain { installable: String },
    /// Check, build on a miss, and check again.
    Run { installable: String },
}

/// The parsed command line.
#[derive(Debug)]
pub struct Cli {
    /// Path to a local Once policy configuration.
    pub config: Option<std::path::PathBuf>,
    /// Immutable GitHub flake reference that exports the policy.
    pub policy_flake: Option<String>,
    /// Expected full Git commit of the policy flake.
    pub policy_revision: Option<String>,
    /// Emit a stable JSON result envelope.
    pub json: bool,
    pub command: Commands,
}

/// The installable that a command names; the doctor names none.
pub open spec fn installable_of(command: Commands) -> Option<Seq<char>> {
    match command {
        Commands::Doctor => None,
        Commands::Check { installable } => Some(installable@),
        Commands::Resolve { installable } => Some(installable@),
        Commands::Trace { installable } => Some(installable@),
        Commands::Trust { installable } => Some(installable@),
        Commands::Explain { installable } => Some(installable@),
        Commands::Run { installable } => Some(installable@),
    }
}

fn command_installable(command: &Commands) -> (r: &String)
    requires
        installable_of(*command) is Some,
    ensures
        r@ == installable_of(*command)->0,
{
    match command {
        Commands::Doctor => vstd::pervasive::unreached(),
        Commands::Check { installable } => installable,
        Commands::Resolve { installable } => installable,
        Commands::Trace { installable } => installable,
        Commands::Trust { installable } => installable,
        Commands::Explain { installable } => installable,
        Commands::Run { installable } => installable,
    }
}

/// Where the configuration file is: the path given with `--config`, or the
/// default file name, relative to the working directory.
pub enum ConfigPath {
    Given(std::path::PathBuf),
    Default(String),
}

/// The configuration file read when `--config` names none.
pub open spec fn default_config_name() -> Seq<char> {
    ".once.toml"@
}

/// Where a command stands.
#[derive(Clone, Copy, Debug, PartialEq, Eq, Structural)]
pub enum Stage {
    /// Waiting for the configuration.
    Configuring,
    /// Waiting for the doctor's findings.
    Diagnosing,
    /// Waiting for the Nix version.
    AwaitVersion,
    /// Waiting for the evaluation of the installable.
    AwaitEvaluation,
    /// Waiting for the build-trace query.
    AwaitTrace,
    /// Waiting for the build of the installable.
    AwaitBuild,
    /// Nothing is left to do.
    Finished,
}

/// The outcome of the outside work that a request asked for.
pub enum Event {
    /// The configuration, loaded and parsed.
    Configured(Config),
    /// What `once doctor` found.
    Diagnosed(DoctorState),
    /// The version that `nix --version` reported.
    Version(Version),
    /// The evaluation of the installable.
    Evaluated(Evaluation),
    /// The answer of the build-trace query.
    Traced(TraceQuery),
    /// The installable was built.
    Built,
}

/// The next piece of outside work, or the end of the command.
pub enum Request {
    /// Load policy from an immutable GitHub flake (`NixAdapter::load_policy`),
    /// parse it as configuration and report `Configured`.
    LoadPolicy { reference: String, revision: String },
    /// Read and parse the configuration file and report `Configured`.
    LoadConfig(ConfigPath),
    /// Probe Nix for the doctor (`NixAdapter::doctor`) and report `Diagnosed`.
    Diagnose,
    /// Ask Nix for its version and report `Version`.
    QueryVersion,
    /// Evaluate the installable and report `Evaluated`.
    Evaluate(String),
    /// Query the installable's build trace and report `Traced`.
    QueryTrace(String),
    /// Build the installable and report `Built`.
    Build(String),
    /// Show the doctor's findings and exit with `code`.
    ShowDoctor { state: DoctorState, json: bool, code: i32 },
    /// Show the result as `view` presents it (the envelope itself, or a
    /// diagnostic view of it), append the GitHub summary where enabled, and
    /// exit with `code`.
    ShowResult {
        report: ResultEnvelope,
        view: Presentation,
        json: bool,
        github_summary: bool,
        code: i32,
    },
    /// End the command on this error.
    Stop(OnceError),
}

/// One invocation of the command line.
pub struct Session {
    pub json: bool,
    pub command: Commands,
    pub stage: Stage,
    pub config: Option<Config>,
    pub version: Option<Version>,
    pub evaluation: Option<Evaluation>,
    /// Whether `run` has built the installable after a miss.
    pub rebuilt: bool,
}

/// The note of an evaluation refused because Nix is too old.
pub open spec fn too_old_message(version: Seq<char>, minimum: Seq<char>) -> Seq<char> {
    "Nix "@ + version + " is older than required "@ + minimum
}

/// The result of a check against a Nix older than the policy's minimum.
pub open spec fn too_old_shows(config: Config, installable: Seq<char>, version: Version, report: ResultEnvelope) -> bool {
    &&& report_base(report, installable, Some(rendered(version@)), Evaluation { unresolved_drv: None })
    &&& report.decision == Decision::Unsupported
    &&& report.action == Action::Fail
    &&& report.trace.status@ == "error"@
    &&& views(report.diagnostics@) == seq![too_old_message(rendered(version@), rendered(config.nix.minimum_version@))]
    &&& report.derivation.resolved is None
    &&& report.derivation.output_name is None
    &&& report.trace.out_path is None
    &&& report.trace.signers@.len() == 0
    &&& report.trace.signature_count == 0
}

/// How a command presents its result: `resolve`, `trace` and `trust` with
/// their own views, `explain` with its narrative (the envelope in JSON),
/// `check` and `run` with the envelope itself.
pub open spec fn presents(command: Commands, config: Config, report: ResultEnvelope, view: Presentation) -> bool {
    match command {
        Commands::Resolve { .. } => view matches Presentation::Resolve(v) && resolve_view_of(report, v),
        Commands::Trace { .. } => view matches Presentation::Trace(v) && trace_view_of(report, v),
        Commands::Trust { .. } => view matches Presentation::Trust(v) && trust_view_of(config, report, v),
        Commands::Explain { .. } => view is Explain,
        _ => view is Envelope,
    }
}

/// The native trace that a presentation shows, if it shows one.
pub open spec fn shown_native(view: Presentation) -> Option<NativeTrace> {
    match view {
        Presentation::Trace(v) => Some(v.native),
        Presentation::Explain(n) => Some(n),
        _ => None,
    }
}

/// Whether the command shows the native trace.
fn shows_native(command: &Commands) -> (r: bool)
    ensures
        r == (*command is Trace || *command is Explain),
{
    match command {
        Commands::Trace { .. } => true,
        Commands::Explain { .. } => true,
        _ => false,
    }
}

fn present(command: &Commands, config: &Config, report: &ResultEnvelope, native: Option<NativeTrace>) -> (r:
    Presentation)
    requires
        (*command is Trace || *command is Explain) ==> native is Some,
    ensures
        presents(*command, *config, *report, r),
        shown_native(r) is Some ==> native == shown_native(r),
{
    match command {
        Commands::Resolve { .. } => Presentation::Resolve(resolve_view(report)),
        Commands::Trust { .. } => Presentation::Trust(trust_view(config, report)),
        Commands::Trace { .. } => match native {
            Some(n) => Presentation::Trace(trace_view(report, n)),
            None => vstd::pervasive::unreached(),
        },
        Commands::Explain { .. } => match native {
            Some(n) => Presentation::Explain(n),
            None => vstd::pervasive::unreached(),
        },
        _ => Presentation::Envelope,
    }
}

impl Session {
    /// What holds between requests.
    pub open spec fn wf(self) -> bool {
        &&& !(self.stage is Configuring || self.stage is Finished) ==> self.config is Some
        &&& self.stage is Diagnosing ==> self.command is Doctor
        &&& (self.stage is AwaitVersion || self.stage is AwaitEvaluation || self.stage is AwaitTrace
            || self.stage is AwaitBuild) ==> installable_of(self.command) is Some
        &&& (self.stage is AwaitEvaluation || self.stage is AwaitTrace || self.stage is AwaitBuild)
            ==> self.version is Some
        &&& self.stage is AwaitTrace ==> self.evaluation is Some
        &&& self.stage is AwaitBuild ==> (self.command is Run && !self.rebuilt)
        &&& self.rebuilt ==> self.command is Run
    }

    /// The events that the session is waiting for.
    pub open spec fn expects(self, event: Event) -> bool {
        match self.stage {
            Stage::Configuring => event is Configured,
            Stage::Diagnosing => event is Diagnosed,
            Stage::AwaitVersion => event is Version,
            Stage::AwaitEvaluation => event is Evaluated,
            Stage::AwaitTrace => event is Traced,
            Stage::AwaitBuild => event is Built,
            Stage::Finished => false,
        }
    }

    /// Whether the session is waiting for `event`.
    pub fn accepts(&self, event: &Event) -> (r: bool)
        ensures
            r == self.expects(*event),
    {
        match (self.stage, event) {
            (Stage::Configuring, Event::Configured(_)) => true,
            (Stage::Diagnosing, Event::Diagnosed(_)) => true,
            (Stage::AwaitVersion, Event::Version(_)) => true,
            (Stage::AwaitEvaluation, Event::Evaluated(_)) => true,
            (Stage::AwaitTrace, Event::Traced(_)) => true,
            (Stage::AwaitBuild, Event::Built) => true,
            _ => false,
        }
    }
}

/// Starts a command: the first request loads the configuration, from the
/// pinned policy flake where both flake and revision are given, else from the
/// configuration file (`.once.toml` unless `--config` names another).
pub fn execute(cli: Cli) -> (r: (Session, Request))
    requires
        cli.policy_flake is Some <==> cli.policy_revision is Some,
    ensures
        r.0.wf(),
        r.0.stage is Configuring,
        r.0.json == cli.json,
        r.0.command == cli.command,
        !r.0.rebuilt,
        r.0.config is None && r.0.version is None && r.0.evaluation is None,
        cli.policy_flake is Some ==> (r.1 matches Request::LoadPolicy { reference, revision }
            && reference == cli.policy_flake->0 && revision == cli.policy_revision->0),
        cli.policy_flake is None ==> (r.1 matches Request::LoadConfig(path) && match cli.config {
            Some(given) => path == ConfigPath::Given(given),
            None => path matches ConfigPath::Default(name) && name@ == default_config_name(),
        }),
{
    let Cli { config, policy_flake, policy_revision, json, command } = cli;
    let session = Session {
        json,
        command,
        stage: Stage::Configuring,
        config: None,
        version: None,
        evaluation: None,
        rebuilt: false,
    };
    let request = match (policy_flake, policy_revision) {
        (Some(reference), Some(revision)) => Request::LoadPolicy { reference, revision },
        _ => match config {
            Some(path) => Request::LoadConfig(ConfigPath::Given(path)),
            None => {
                let name = crate::text::owned(".once.toml");
                proof {
                    reveal_strlit(".once.toml");
                }
                Request::LoadConfig(ConfigPath::Default(name))
            },
        },
    };
    (session, request)
}

fn too_old_note(version: &Version, minimum: &Version) -> (r: String)
    ensures
        r@ == too_old_message(rendered(version@), rendered(minimum@)),
{
    let mut msg: Vec<char> = Vec::new();
    push_str(&mut msg, "Nix ");
    let v = version.to_chars();
    push_all(&mut msg, &v);
    push_str(&mut msg, " is older than required ");
    let m = minimum.to_chars();
    push_all(&mut msg, &m);
    string_of(&msg)
}

/// The result for a Nix older than the policy's minimum: `UNSUPPORTED`.
fn too_old_result(config: &Config, installable: &str, version: &Version) -> (r: PolicyResult)
    ensures
        too_old_shows(*config, installable@, *version, r.report),
        r.exit_code == ExitCode::Unsupported,
{
    let note = too_old_note(version, &config.nix.minimum_version);
    let ghost note_view = note@;
    let query = TraceQuery::Failed(note);
    let ghost q = query;
    let mut result = evaluate(config, installable, Some(version.to_string()), Evaluation::default(), query);
    result.report.decision = Decision::Unsupported;
    result.exit_code = ExitCode::Unsupported;
    proof {
        if result.report.trace.signers@.len() > 0 {
            assert(view_set(result.report.trace.signers@).contains(result.report.trace.signers@[0]@));
        }
    }
    result
}

impl Session {
    /// Takes the outcome of the last request and decides the next one.
    pub fn advance(&mut self, event: Event) -> (request: Request)
        requires
            old(self).wf(),
            old(self).expects(event),
        ensures
            final(self).wf(),
            final(self).json == old(self).json,
            final(self).command == old(self).command,
            request is Stop || request is ShowDoctor || request is ShowResult <==> final(self).stage is Finished,
            // Configuration: the rules of the schema are checked first.
            old(self).stage is Configuring ==> match event {
                Event::Configured(config) => match config_violation(config) {
                    Some(m) => request matches Request::Stop(OnceError::InvalidConfig(msg)) && msg@ == m,
                    None => final(self).config == Some(config) && if old(self).command is Doctor {
                        final(self).stage is Diagnosing && request is Diagnose
                    } else {
                        final(self).stage is AwaitVersion && request is QueryVersion
                    },
                },
                _ => false,
            },
            // The doctor exits 0 when Nix is suitable, else as unsupported.
            old(self).stage is Diagnosing ==> match event {
                Event::Diagnosed(state) => request matches Request::ShowDoctor { state: s, json, code }
                    && s == state && json == old(self).json
                    && code == (if state.spec_suitable() { 0i32 } else { 20i32 }),
                _ => false,
            },
            // A Nix older than the minimum ends the check as unsupported;
            // versions whose numeric parts differ are ordered by those parts.
            old(self).stage is AwaitVersion ==> match event {
                Event::Version(v) => {
                    let minimum = old(self).config->0.nix.minimum_version@;
                    &&& v@ == minimum ==> !(request is ShowResult)
                    &&& triple_order(v@, minimum) != 0 ==> (request is ShowResult <==> triple_order(v@, minimum) < 0)
                },
                _ => false,
            },
            old(self).stage is AwaitVersion ==> match event {
                Event::Version(v) => {
                    let config = old(self).config->0;
                    let installable = installable_of(old(self).command)->0;
                    if semver_order(v@, config.nix.minimum_version@) < 0 {
                        request matches Request::ShowResult { report, view, json, github_summary, code }
                            && too_old_shows(config, installable, v, report) && json == old(self).json
                            && !github_summary && code == 20
                            && presents(old(self).command, config, report, view)
                            && (shown_native(view) matches Some(n) ==> n.status@ == "error"@
                                && nothing_found(n))
                    } else {
                        final(self).stage is AwaitEvaluation && final(self).version == Some(v)
                            && (request matches Request::Evaluate(i) && i@ == installable)
                    }
                },
                _ => false,
            },
            old(self).stage is AwaitEvaluation ==> match event {
                Event::Evaluated(ev) => final(self).stage is AwaitTrace && final(self).evaluation == Some(ev)
                    && final(self).version == old(self).version && final(self).config == old(self).config
                    && final(self).rebuilt == old(self).rebuilt
                    && (request matches Request::QueryTrace(i) && i@ == installable_of(old(self).command)->0),
                _ => false,
            },
            // After the trace: `run` builds on a first miss; everything else
            // shows the policy's result.
            old(self).stage is AwaitTrace ==> match event {
                Event::Traced(q) => {
                    let config = old(self).config->0;
                    let installable = installable_of(old(self).command)->0;
                    let decision = spec_decision(config, q);
                    if old(self).command is Run && !old(self).rebuilt && decision == Decision::Miss {
                        final(self).stage is AwaitBuild && final(self).version == old(self).version
                            && final(self).config == old(self).config
                            && (request matches Request::Build(i) && i@ == installable)
                    } else {
                        request matches Request::ShowResult { report, view, json, github_summary, code }
                            && presents(old(self).command, config, report, view)
                            && (shown_native(view) matches Some(n) ==> native_shows(q, n))
                            && report_shows(config, installable, Some(rendered(old(self).version->0@)), old(self).evaluation->0, q, report)
                            && report.decision == decision
                            && report.action == (if old(self).rebuilt && decision.spec_may_skip() {
                                Action::Built
                            } else {
                                spec_action(config, q)
                            })
                            && code == spec_exit(config, q).spec_code()
                            && json == old(self).json
                            && github_summary == config.reporting.github_summary
                    }
                },
                _ => false,
            },
            old(self).stage is AwaitBuild ==> match event {
                Event::Built => final(self).stage is AwaitEvaluation && final(self).rebuilt
                    && final(self).version == old(self).version && final(self).config == old(self).config
                    && (request matches Request::Evaluate(i) && i@ == installable_of(old(self).command)->0),
                _ => false,
            },
            // `run` builds only after its first trace reported a miss;
            // no other command ever builds.
            request is Build ==> (old(self).command is Run && old(self).stage is AwaitTrace
                && !old(self).rebuilt),
    {
        match event {
            Event::Configured(config) => {
                match config.validate() {
                    Err(e) => {
                        self.stage = Stage::Finished;
                        Request::Stop(e)
                    },
                    Ok(()) => {
                        let doctor = match self.command {
                            Commands::Doctor => true,
                            _ => false,
                        };
                        self.config = Some(config);
                        if doctor {
                            self.stage = Stage::Diagnosing;
                            Request::Diagnose
                        } else {
                            self.stage = Stage::AwaitVersion;
                            Request::QueryVersion
                        }
                    },
                }
            },
            Event::Diagnosed(state) => {
                let code = if state.suitable() {
                    ExitCode::Accepted.code()
                } else {
                    ExitCode::Unsupported.code()
                };
                self.stage = Stage::Finished;
                Request::ShowDoctor { state, json: self.json, code }
            },
            Event::Version(version) => {
                let config = self.config.as_ref().unwrap();
                let installable = command_installable(&self.command);
                if version.less_than(&config.nix.minimum_version) {
                    let result = too_old_result(config, installable.as_str(), &version);
                    let code = result.exit_code.code();
                    let native = if shows_native(&self.command) {
                        Some(native_trace(&TraceQuery::Failed(String::new())))
                    } else {
                        None
                    };
                    let view = present(&self.command, config, &result.report, native);
                    self.stage = Stage::Finished;
                    return Request::ShowResult {
                        report: result.report,
                        view,
                        json: self.json,
                        github_summary: false,
                        code,
                    };
                }
                let target = installable.clone();
                self.version = Some(version);
                self.stage = Stage::AwaitEvaluation;
                Request::Evaluate(target)
            },
            Event::Evaluated(evaluation) => {
                let target = command_installable(&self.command).clone();
                self.evaluation = Some(evaluation);
                self.stage = Stage::AwaitTrace;
                Request::QueryTrace(target)
            },
            Event::Traced(query) => {
                let ghost q = query;
                let config = self.config.as_ref().unwrap();
                let installable = command_installable(&self.command);
                let run = match self.command {
                    Commands::Run { .. } => true,
                    _ => false,
                };
                let version_text = self.version.as_ref().unwrap().to_string();
                let evaluation = self.evaluation.take().unwrap();
                let native = if shows_native(&self.command) {
                    Some(native_trace(&query))
                } else {
                    None
                };
                let mut result = evaluate(config, installable.as_str(), Some(version_text), evaluation, query);
                if run && !self.rebuilt && result.report.decision == Decision::Miss {
                    let target = installable.clone();
                    self.stage = Stage::AwaitBuild;
                    return Request::Build(target);
                }
                if self.rebuilt && result.report.decision.may_skip() {
                    result.report.action = Action::Built;
                }
                let github_summary = config.reporting.github_summary;
                let code = result.exit_code.code();
                let view = present(&self.command, config, &result.report, native);
                self.stage = Stage::Finished;
                Request::ShowResult { report: result.report, view, json: self.json, github_summary, code }
            },
            Event::Built => {
                let target = command_installable(&self.command).clone();
                self.rebuilt = true;
                self.stage = Stage::AwaitEvaluation;
                Request::Evaluate(target)
            },
        }
    }
}

} // verus!
