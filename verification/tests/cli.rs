use std::path::PathBuf;

use once::backend::{BackendDescription, EnvironmentBackend};
use once::cli::{execute, Cli, Commands, ConfigPath, Event, Request, Session, Stage};
use once::config::{Config, IaMode, NixConfig, OnceConfig, ReportingConfig, TrustConfig};
use once::error::OnceError;
use once::nix::{CommandOutput, DoctorState, Evaluation, NixAdapter, TraceQuery, TrustEvidence};
use once::trace::{Signature, TraceEntry, TraceKey, TraceRecords, TraceValue};
use once::types::{Action, Decision};
use once::version::Version;
use once::views::Presentation;

fn config() -> Config {
    Config {
        schema: 1,
        once: OnceConfig {
            policy_version: "poc-v1".into(),
        },
        nix: NixConfig {
            minimum_version: Version::new(2, 35, 0),
            required_experimental_features: vec![],
        },
        trust: TrustConfig {
            required_signatures: 1,
            accepted_key_names: vec!["ci.closurelabs.dev-1".into()],
            ia_mode: IaMode::Warn,
        },
        reporting: ReportingConfig {
            github_summary: true,
        },
    }
}

fn cli(command: Commands) -> Cli {
    Cli {
        config: Some(PathBuf::from("/tmp/once.toml")),
        policy_flake: None,
        policy_revision: None,
        json: true,
        command,
    }
}

fn found() -> TraceQuery {
    TraceQuery::Found {
        records: TraceRecords {
            entries: vec![TraceEntry {
                key: TraceKey {
                    drv_path: "resolved-check.drv".into(),
                    output_name: "out".into(),
                },
                value: TraceValue {
                    out_path: "result-check".into(),
                    signatures: vec![Signature {
                        key_name: "ci.closurelabs.dev-1".into(),
                        sig: "AA==".into(),
                    }],
                },
            }],
            opaque_paths: vec!["/nix/store/result-check".into()],
        },
        evidence: TrustEvidence::LocalStore,
    }
}

fn step(session: &mut Session, event: Event) -> Request {
    assert!(session.accepts(&event));
    session.advance(event)
}

fn configured(command: Commands) -> Session {
    let (mut session, request) = execute(cli(command));
    match request {
        Request::LoadConfig(ConfigPath::Given(path)) => {
            assert_eq!(path, PathBuf::from("/tmp/once.toml"))
        }
        _ => panic!("expected the configuration file"),
    }
    match step(&mut session, Event::Configured(config())) {
        Request::QueryVersion => {}
        _ => panic!("expected the version query"),
    }
    session
}

#[test]
fn check_accepts_a_signed_trace_without_building() {
    let mut session = configured(Commands::Check {
        installable: ".#demo".into(),
    });
    match step(&mut session, Event::Version(Version::new(2, 35, 2))) {
        Request::Evaluate(installable) => assert_eq!(installable, ".#demo"),
        _ => panic!("expected evaluation"),
    }
    match step(&mut session, Event::Evaluated(Evaluation::default())) {
        Request::QueryTrace(installable) => assert_eq!(installable, ".#demo"),
        _ => panic!("expected the trace query"),
    }
    match step(&mut session, Event::Traced(found())) {
        Request::ShowResult {
            report,
            view,
            json,
            github_summary,
            code,
        } => {
            assert!(matches!(view, Presentation::Envelope));
            assert_eq!(report.decision, Decision::AcceptedWithIaTrust);
            assert_eq!(
                report.derivation.resolved.as_deref(),
                Some("/nix/store/resolved-check.drv")
            );
            assert_eq!(report.trace.signers, ["ci.closurelabs.dev-1"]);
            assert_eq!(report.nix_version.as_deref(), Some("2.35.2"));
            assert!(json);
            assert!(github_summary);
            assert_eq!(code, 0);
        }
        _ => panic!("expected the result"),
    }
    assert_eq!(session.stage, Stage::Finished);
}

#[test]
fn check_reports_a_miss_and_never_builds() {
    let mut session = configured(Commands::Check {
        installable: ".#demo".into(),
    });
    step(&mut session, Event::Version(Version::new(2, 35, 2)));
    step(&mut session, Event::Evaluated(Evaluation::default()));
    match step(
        &mut session,
        Event::Traced(TraceQuery::Miss("unbuilt derivation".into())),
    ) {
        Request::ShowResult { report, code, .. } => {
            assert_eq!(report.decision, Decision::Miss);
            assert_eq!(report.action, Action::Build);
            assert_eq!(code, 10);
        }
        _ => panic!("check must not build"),
    }
}

#[test]
fn run_builds_after_a_miss_and_checks_again() {
    let mut session = configured(Commands::Run {
        installable: ".#demo".into(),
    });
    step(&mut session, Event::Version(Version::new(2, 36, 0)));
    step(&mut session, Event::Evaluated(Evaluation::default()));
    match step(&mut session, Event::Traced(TraceQuery::Miss("no build trace".into()))) {
        Request::Build(installable) => assert_eq!(installable, ".#demo"),
        _ => panic!("expected a build"),
    }
    match step(&mut session, Event::Built) {
        Request::Evaluate(_) => {}
        _ => panic!("expected a new evaluation"),
    }
    step(&mut session, Event::Evaluated(Evaluation::default()));
    match step(&mut session, Event::Traced(found())) {
        Request::ShowResult { report, code, .. } => {
            assert_eq!(report.decision, Decision::AcceptedWithIaTrust);
            assert_eq!(report.action, Action::Built);
            assert_eq!(code, 0);
        }
        _ => panic!("expected the result"),
    }
}

#[test]
fn run_builds_at_most_once() {
    let mut session = configured(Commands::Run {
        installable: ".#demo".into(),
    });
    step(&mut session, Event::Version(Version::new(2, 36, 0)));
    step(&mut session, Event::Evaluated(Evaluation::default()));
    step(&mut session, Event::Traced(TraceQuery::Miss("no build trace".into())));
    step(&mut session, Event::Built);
    step(&mut session, Event::Evaluated(Evaluation::default()));
    match step(&mut session, Event::Traced(TraceQuery::Miss("no build trace".into()))) {
        Request::ShowResult { report, code, .. } => {
            assert_eq!(report.decision, Decision::Miss);
            assert_eq!(report.action, Action::Build);
            assert_eq!(code, 10);
        }
        _ => panic!("expected the result"),
    }
}

#[test]
fn old_nix_is_unsupported() {
    let mut session = configured(Commands::Trust {
        installable: ".#demo".into(),
    });
    match step(&mut session, Event::Version(Version::new(2, 34, 9))) {
        Request::ShowResult {
            report,
            view,
            github_summary,
            code,
            ..
        } => {
            match view {
                Presentation::Trust(v) => {
                    assert_eq!(v.schema, "dev.closurelabs.once/trust/v1");
                    assert_eq!(v.decision, Decision::Unsupported);
                    assert!(!v.skip_permitted);
                }
                _ => panic!("expected the trust view"),
            }
            assert_eq!(report.decision, Decision::Unsupported);
            assert_eq!(report.trace.status, "error");
            assert_eq!(
                report.diagnostics,
                ["Nix 2.34.9 is older than required 2.35.0"]
            );
            assert!(!github_summary);
            assert_eq!(code, 20);
        }
        _ => panic!("expected the result"),
    }
}

#[test]
fn doctor_exits_by_suitability() {
    let (mut session, _) = execute(cli(Commands::Doctor));
    match step(&mut session, Event::Configured(config())) {
        Request::Diagnose => {}
        _ => panic!("expected the diagnosis"),
    }
    let state = DoctorState {
        version: Version::new(2, 35, 2),
        minimum: Version::new(2, 35, 0),
        build_trace_command: true,
        ca_derivations_configured: true,
        required_features: vec![],
        backend: BackendDescription {
            kind: "nix-environment",
            store: None,
        },
    };
    match step(&mut session, Event::Diagnosed(state)) {
        Request::ShowDoctor { code, json, .. } => {
            assert_eq!(code, 0);
            assert!(json);
        }
        _ => panic!("expected the doctor view"),
    }
}

#[test]
fn invalid_configuration_stops_the_command() {
    let (mut session, _) = execute(cli(Commands::Check {
        installable: ".#demo".into(),
    }));
    let mut bad = config();
    bad.trust.accepted_key_names.clear();
    match step(&mut session, Event::Configured(bad)) {
        Request::Stop(OnceError::InvalidConfig(message)) => {
            assert_eq!(message, "trust.accepted_key_names must not be empty")
        }
        _ => panic!("expected the configuration error"),
    }
    assert!(!session.accepts(&Event::Built));
}

#[test]
fn policy_flake_takes_precedence_and_default_config_is_local() {
    let (_, request) = execute(Cli {
        config: None,
        policy_flake: Some("github:o/r/x".into()),
        policy_revision: Some("x".into()),
        json: false,
        command: Commands::Doctor,
    });
    match request {
        Request::LoadPolicy { reference, revision } => {
            assert_eq!(reference, "github:o/r/x");
            assert_eq!(revision, "x");
        }
        _ => panic!("expected the policy flake"),
    }
    let (_, request) = execute(Cli {
        config: None,
        policy_flake: None,
        policy_revision: None,
        json: false,
        command: Commands::Doctor,
    });
    match request {
        Request::LoadConfig(ConfigPath::Default(name)) => assert_eq!(name, ".once.toml"),
        _ => panic!("expected the default configuration"),
    }
}

// ---------------------------------------------------------------------------
// A whole command against a fake `nix`
// ---------------------------------------------------------------------------

const FAKE_TRACE: &str = r#"[{"key":{"drvPath":"resolved-check.drv","outputName":"out"},"value":{"outPath":"result-check","signatures":[{"keyName":"ci.closurelabs.dev-1","sig":"AA=="}]}},{"opaquePath":"/nix/store/result-check"}]"#;

/// What the fake `nix` prints for an argument list; `miss` makes the
/// build-trace query report an unbuilt derivation.
fn fake_nix(arguments: &[String], miss: bool) -> CommandOutput {
    let args = arguments.join(" ");
    let ok = |stdout: &str| CommandOutput {
        success: true,
        status: 0,
        stdout: format!("{stdout}\n"),
        stderr: String::new(),
    };
    let fail = |status: i32, stderr: String| CommandOutput {
        success: false,
        status,
        stdout: String::new(),
        stderr,
    };
    if args == "--version" {
        ok("nix (Nix) 2.35.2")
    } else if args == "config show --json" {
        ok(r#"{"experimental-features":{"value":["nix-command","flakes","ca-derivations"]}}"#)
    } else if args.contains("build-trace info --help") {
        ok("")
    } else if args.contains("derivation show") {
        ok(r#"{"/nix/store/unresolved-check.drv":{}}"#)
    } else if args.contains("build-trace info") {
        if miss {
            fail(
                1,
                "error: cannot operate on output 'out' of the unbuilt derivation\n".into(),
            )
        } else {
            ok(FAKE_TRACE)
        }
    } else if args.contains("build") {
        ok("[]")
    } else {
        fail(2, format!("unexpected fake Nix arguments: {args}\n"))
    }
}

fn text(value: &serde_json::Value) -> String {
    value.as_str().expect("string").to_owned()
}

/// The build-trace records of `nix store build-trace info --json`.
fn records_from_json(source: &str) -> Result<TraceRecords, serde_json::Error> {
    let value: serde_json::Value = serde_json::from_str(source)?;
    let mut records = TraceRecords::default();
    for item in value.as_array().expect("array of records") {
        if let Some(path) = item.get("opaquePath") {
            records.opaque_paths.push(text(path));
            continue;
        }
        let signatures = item["value"]["signatures"]
            .as_array()
            .map(|list| {
                list.iter()
                    .map(|signature| Signature {
                        key_name: text(&signature["keyName"]),
                        sig: text(&signature["sig"]),
                    })
                    .collect()
            })
            .unwrap_or_default();
        records.entries.push(TraceEntry {
            key: TraceKey {
                drv_path: text(&item["key"]["drvPath"]),
                output_name: text(&item["key"]["outputName"]),
            },
            value: TraceValue {
                out_path: text(&item["value"]["outPath"]),
                signatures,
            },
        });
    }
    Ok(records)
}

/// The settings of `nix config show --json`, each with its list value.
fn settings_from_json(
    source: &str,
) -> Result<Vec<(String, Option<Vec<Option<String>>>)>, serde_json::Error> {
    let value: serde_json::Value = serde_json::from_str(source)?;
    Ok(value
        .as_object()
        .expect("object of settings")
        .iter()
        .map(|(name, setting)| {
            let list = setting["value"]
                .as_array()
                .map(|items| items.iter().map(|f| f.as_str().map(String::from)).collect());
            (name.clone(), list)
        })
        .collect())
}

/// The configuration file of the fixture.
fn fixture_config() -> Config {
    let mut config = config();
    config.nix.required_experimental_features =
        vec!["nix-command".into(), "flakes".into(), "ca-derivations".into()];
    config.reporting.github_summary = false;
    config
}

/// Runs a command to its end against the fake `nix`, performing each request
/// of the session through the library's adapter, and returns the last request.
fn once_with_fake_nix(command: Commands, miss: bool) -> Request {
    let nix = NixAdapter::new("nix".into(), None, None, None);
    let (mut session, mut request) = execute(cli(command));
    let version_args = vec!["--version".to_string()];
    loop {
        let event = match request {
            Request::LoadConfig(_) => Event::Configured(fixture_config()),
            Request::Diagnose => {
                let version = nix.version(fake_nix(&version_args, miss)).expect("version");
                let help = fake_nix(&nix.nix_arguments(nix.help_arguments()), miss);
                let settings_args = vec!["config".into(), "show".into(), "--json".into()];
                let settings = fake_nix(&settings_args, miss);
                let parsed = settings_from_json(&settings.stdout);
                let features = nix.configured_features(settings, parsed).expect("features");
                let backend = EnvironmentBackend.describe(&None, &None);
                Event::Diagnosed(nix.doctor(&fixture_config(), version, &help, &features, backend))
            }
            Request::QueryVersion => {
                Event::Version(nix.version(fake_nix(&version_args, miss)).expect("version"))
            }
            Request::Evaluate(installable) => {
                let arguments = nix.nix_arguments(nix.evaluate_arguments(&installable));
                Event::Evaluated(nix.evaluate(fake_nix(&arguments, miss)).expect("evaluation"))
            }
            Request::QueryTrace(installable) => {
                let arguments = nix.nix_arguments(nix.trace_arguments(&installable));
                let output = fake_nix(&arguments, miss);
                let records = if output.success {
                    records_from_json(&output.stdout)
                } else {
                    Ok(TraceRecords::default())
                };
                Event::Traced(nix.trace(output, records).expect("trace query"))
            }
            Request::Build(installable) => {
                let arguments = nix.nix_arguments(nix.build_arguments(&installable));
                nix.build(fake_nix(&arguments, miss)).expect("build");
                Event::Built
            }
            other => return other,
        };
        request = step(&mut session, event);
    }
}

#[test]
fn check_emits_accepted_json() {
    let request = once_with_fake_nix(
        Commands::Check {
            installable: ".#demo".into(),
        },
        false,
    );
    match request {
        Request::ShowResult { report, json, code, .. } => {
            assert_eq!(code, 0);
            assert!(json);
            assert_eq!(report.decision.as_str(), "ACCEPTED_WITH_IA_TRUST");
            assert_eq!(
                report.derivation.resolved.as_deref(),
                Some("/nix/store/resolved-check.drv")
            );
            assert_eq!(report.trace.signers[0], "ci.closurelabs.dev-1");
            assert_eq!(
                report.derivation.unresolved.as_deref(),
                Some("/nix/store/unresolved-check.drv")
            );
        }
        _ => panic!("expected the result"),
    }
}

#[test]
fn cold_check_uses_miss_exit_code() {
    let request = once_with_fake_nix(
        Commands::Check {
            installable: ".#demo".into(),
        },
        true,
    );
    match request {
        Request::ShowResult { report, code, .. } => {
            assert_eq!(code, 10);
            assert_eq!(report.decision.as_str(), "MISS");
            assert_eq!(report.action.as_str(), "BUILD");
        }
        _ => panic!("expected the result"),
    }
}

#[test]
fn doctor_reports_suitable_fake_nix() {
    match once_with_fake_nix(Commands::Doctor, false) {
        Request::ShowDoctor { state, code, json } => {
            assert_eq!(code, 0);
            assert!(json);
            assert!(state.suitable());
        }
        _ => panic!("expected the doctor view"),
    }
}

#[test]
fn resolve_shows_the_resolved_output_and_keeps_the_exit_code() {
    match once_with_fake_nix(
        Commands::Resolve {
            installable: ".#demo".into(),
        },
        false,
    ) {
        Request::ShowResult { view, code, .. } => {
            assert_eq!(code, 0);
            match view {
                Presentation::Resolve(v) => {
                    assert_eq!(v.schema, "dev.closurelabs.once/resolve/v1");
                    assert_eq!(v.unresolved.as_deref(), Some("/nix/store/unresolved-check.drv"));
                    assert_eq!(v.resolved.as_deref(), Some("/nix/store/resolved-check.drv"));
                    assert_eq!(v.output_name.as_deref(), Some("out"));
                    assert_eq!(v.decision, Decision::AcceptedWithIaTrust);
                    assert_eq!(v.action, Action::Skip);
                }
                _ => panic!("expected the resolve view"),
            }
        }
        _ => panic!("expected the result"),
    }
}

#[test]
fn trace_shows_native_entries_and_evidence() {
    match once_with_fake_nix(
        Commands::Trace {
            installable: ".#demo".into(),
        },
        false,
    ) {
        Request::ShowResult { view, code, .. } => {
            assert_eq!(code, 0);
            match view {
                Presentation::Trace(v) => {
                    assert_eq!(v.schema, "dev.closurelabs.once/trace/v1");
                    assert_eq!(v.native.status, "found");
                    assert_eq!(v.native.evidence, Some(TrustEvidence::LocalStore));
                    assert_eq!(v.native.entries.len(), 1);
                    let entry = &v.native.entries[0];
                    assert_eq!(entry.drv_path, "/nix/store/resolved-check.drv");
                    assert_eq!(entry.output_name, "out");
                    assert_eq!(entry.out_path, "/nix/store/result-check");
                    assert_eq!(entry.signers, ["ci.closurelabs.dev-1"]);
                    assert_eq!(entry.signature_count, 1);
                    assert_eq!(v.native.opaque_paths, ["/nix/store/result-check"]);
                    assert_eq!(v.decision, Decision::AcceptedWithIaTrust);
                }
                _ => panic!("expected the trace view"),
            }
        }
        _ => panic!("expected the result"),
    }
    match once_with_fake_nix(
        Commands::Trace {
            installable: ".#demo".into(),
        },
        true,
    ) {
        Request::ShowResult { view, code, .. } => {
            assert_eq!(code, 10);
            match view {
                Presentation::Trace(v) => {
                    assert_eq!(v.native.status, "missing");
                    assert_eq!(v.native.evidence, None);
                    assert!(v.native.entries.is_empty());
                    assert_eq!(v.decision, Decision::Miss);
                    assert_eq!(v.action, Action::Build);
                }
                _ => panic!("expected the trace view"),
            }
        }
        _ => panic!("expected the result"),
    }
}

#[test]
fn trace_view_keeps_native_status_when_policy_refuses() {
    let mut session = configured(Commands::Trace {
        installable: ".#demo".into(),
    });
    step(&mut session, Event::Version(Version::new(2, 35, 2)));
    step(&mut session, Event::Evaluated(Evaluation::default()));
    let remote = match found() {
        TraceQuery::Found { records, .. } => TraceQuery::Found {
            records,
            evidence: TrustEvidence::UnverifiedRemote,
        },
        _ => unreachable!(),
    };
    match step(&mut session, Event::Traced(remote)) {
        Request::ShowResult { view, code, .. } => {
            assert_eq!(code, 20);
            match view {
                Presentation::Trace(v) => {
                    assert_eq!(v.native.status, "found-unverified");
                    assert_eq!(v.native.evidence, Some(TrustEvidence::UnverifiedRemote));
                    assert_eq!(v.native.entries[0].signers, ["ci.closurelabs.dev-1"]);
                    assert_eq!(v.decision, Decision::Unsupported);
                }
                _ => panic!("expected the trace view"),
            }
        }
        _ => panic!("expected the result"),
    }
}

#[test]
fn trust_projects_the_policy() {
    match once_with_fake_nix(
        Commands::Trust {
            installable: ".#demo".into(),
        },
        false,
    ) {
        Request::ShowResult { view, code, .. } => {
            assert_eq!(code, 0);
            match view {
                Presentation::Trust(v) => {
                    assert_eq!(v.schema, "dev.closurelabs.once/trust/v1");
                    assert_eq!(v.required_signatures, 1);
                    assert_eq!(v.accepted_key_names, ["ci.closurelabs.dev-1"]);
                    assert_eq!(v.ia_mode, IaMode::Warn);
                    assert_eq!(v.accepted_signers, ["ci.closurelabs.dev-1"]);
                    assert!(v.skip_permitted);
                    assert_eq!(v.decision, Decision::AcceptedWithIaTrust);
                    assert_eq!(v.action, Action::Skip);
                }
                _ => panic!("expected the trust view"),
            }
        }
        _ => panic!("expected the result"),
    }
}

#[test]
fn explain_keeps_the_envelope_and_adds_the_native_trace() {
    match once_with_fake_nix(
        Commands::Explain {
            installable: ".#demo".into(),
        },
        false,
    ) {
        Request::ShowResult { view, report, code, .. } => {
            assert_eq!(report.schema, "dev.closurelabs.once/result/v1");
            assert_eq!(code, 0);
            match view {
                Presentation::Explain(native) => {
                    assert_eq!(native.status, "found");
                    assert_eq!(native.entries[0].out_path, "/nix/store/result-check");
                }
                _ => panic!("expected the explain narrative"),
            }
        }
        _ => panic!("expected the result"),
    }
}
