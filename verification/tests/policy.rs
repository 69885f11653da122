use once::config::{Config, IaMode, NixConfig, OnceConfig, ReportingConfig, TrustConfig};
use once::nix::{Evaluation, TraceQuery, TrustEvidence};
use once::policy::{classify_found, evaluate};
use once::trace::{Signature, TraceEntry, TraceKey, TraceRecords, TraceValue};
use once::types::{
    Action, Decision, DerivationSummary, ExitCode, InputSummary, ResultEnvelope, TraceSummary,
};
use once::version::Version;

fn config(mode: IaMode) -> Config {
    Config {
        schema: 1,
        once: OnceConfig {
            policy_version: "poc-v1".into(),
        },
        nix: NixConfig {
            minimum_version: Version::new(2, 35, 0),
            required_experimental_features: vec![],
        },
        trust: TrustConfig {
            required_signatures: 1,
            accepted_key_names: vec!["ci-1".into()],
            ia_mode: mode,
        },
        reporting: ReportingConfig::default(),
    }
}

fn entry(drv: &str, out: &str, signers: &[&str]) -> TraceEntry {
    TraceEntry {
        key: TraceKey {
            drv_path: drv.into(),
            output_name: "out".into(),
        },
        value: TraceValue {
            out_path: out.into(),
            signatures: signers
                .iter()
                .map(|name| Signature {
                    key_name: (*name).into(),
                    sig: "AA==".into(),
                })
                .collect(),
        },
    }
}

fn found(signers: &[&str]) -> TraceQuery {
    TraceQuery::Found {
        records: TraceRecords {
            entries: vec![entry("abc-check.drv", "def-check", signers)],
            opaque_paths: vec![],
        },
        evidence: TrustEvidence::LocalStore,
    }
}

#[test]
fn accepts_configured_signer_with_warning_mode() {
    let result = evaluate(
        &config(IaMode::Warn),
        ".#demo",
        Some("2.35.2".into()),
        Evaluation::default(),
        found(&["ci-1"]),
    );
    assert_eq!(result.report.decision, Decision::AcceptedWithIaTrust);
    assert_eq!(result.exit_code, ExitCode::Accepted);
}

#[test]
fn rejects_unaccepted_signer() {
    let result = evaluate(
        &config(IaMode::Warn),
        ".#demo",
        None,
        Evaluation::default(),
        found(&["other-1"]),
    );
    assert_eq!(result.report.decision, Decision::Untrusted);
}

#[test]
fn deny_mode_fails_closed_on_unknown_inputs() {
    let result = evaluate(
        &config(IaMode::Deny),
        ".#demo",
        None,
        Evaluation::default(),
        found(&["ci-1"]),
    );
    assert_eq!(result.exit_code, ExitCode::IaRejected);
}

#[test]
fn allow_trusted_mode_is_explicitly_unsupported() {
    let result = evaluate(
        &config(IaMode::AllowTrusted),
        ".#demo",
        None,
        Evaluation::default(),
        found(&["ci-1"]),
    );
    assert_eq!(result.report.decision, Decision::Unsupported);
    assert_eq!(result.exit_code, ExitCode::Unsupported);
}

#[test]
fn rejects_conflicting_outputs() {
    let mut query = match found(&["ci-1"]) {
        TraceQuery::Found { records, .. } => records,
        _ => unreachable!(),
    };
    let mut second = query.entries[0].clone();
    second.value.out_path = "other-check".into();
    query.entries.push(second);
    let result = evaluate(
        &config(IaMode::Warn),
        ".#demo",
        None,
        Evaluation::default(),
        TraceQuery::Found {
            records: query,
            evidence: TrustEvidence::LocalStore,
        },
    );
    assert_eq!(result.report.decision, Decision::Conflict);
    assert_eq!(result.exit_code, ExitCode::Conflict);
}

#[test]
fn conflicts_compare_normalized_store_paths() {
    let check = |entries: Vec<TraceEntry>| {
        evaluate(
            &config(IaMode::Warn),
            ".#demo",
            None,
            Evaluation::default(),
            TraceQuery::Found {
                records: TraceRecords {
                    entries,
                    opaque_paths: vec![],
                },
                evidence: TrustEvidence::LocalStore,
            },
        )
    };
    let result = check(vec![
        entry("abc-check.drv", "def-check", &["ci-1"]),
        entry("/nix/store/abc-check.drv", "other-check", &["ci-1"]),
    ]);
    assert_eq!(result.report.decision, Decision::Conflict);
    assert_eq!(result.report.trace.status, "conflict");
    assert_eq!(result.exit_code, ExitCode::Conflict);
    let result = check(vec![
        entry("abc-check.drv", "def-check", &["ci-1"]),
        entry("abc-check.drv", "/nix/store/def-check", &["ci-1"]),
    ]);
    assert_eq!(result.report.decision, Decision::AcceptedWithIaTrust);
    assert_eq!(result.exit_code, ExitCode::Accepted);
}

#[test]
fn remote_signature_metadata_is_not_trusted() {
    let query = match found(&["ci-1"]) {
        TraceQuery::Found { records, .. } => TraceQuery::Found {
            records,
            evidence: TrustEvidence::UnverifiedRemote,
        },
        _ => unreachable!(),
    };
    let result = evaluate(
        &config(IaMode::Warn),
        ".#demo",
        None,
        Evaluation::default(),
        query,
    );
    assert_eq!(result.report.decision, Decision::Unsupported);
    assert_eq!(result.exit_code, ExitCode::Unsupported);
}

#[test]
fn accepted_report_names_the_resolved_output() {
    let mut cfg = config(IaMode::Warn);
    cfg.trust.accepted_key_names = vec!["zeta".into(), "alpha".into(), "ci-1".into()];
    let result = evaluate(
        &cfg,
        ".#demo",
        Some("2.35.2".into()),
        Evaluation {
            unresolved_drv: Some("/nix/store/u.drv".into()),
        },
        found(&["zeta", "other", "ci-1", "alpha", "zeta"]),
    );
    let report = &result.report;
    assert_eq!(report.schema, "dev.closurelabs.once/result/v1");
    assert_eq!(report.installable, ".#demo");
    assert_eq!(report.nix_version.as_deref(), Some("2.35.2"));
    assert_eq!(report.action, Action::Skip);
    assert_eq!(report.trace.status, "found");
    assert_eq!(report.trace.signers, ["alpha", "ci-1", "zeta"]);
    assert_eq!(report.trace.signature_count, 3);
    assert_eq!(report.derivation.unresolved.as_deref(), Some("/nix/store/u.drv"));
    assert_eq!(
        report.derivation.resolved.as_deref(),
        Some("/nix/store/abc-check.drv")
    );
    assert_eq!(report.derivation.output_name.as_deref(), Some("out"));
    assert_eq!(report.trace.out_path.as_deref(), Some("/nix/store/def-check"));
    assert_eq!(
        report.diagnostics,
        ["input-addressed dependency counts are unavailable through the Nix 2.35 CLI"]
    );
}

#[test]
fn untrusted_base_entry_is_named() {
    let query = TraceQuery::Found {
        records: TraceRecords {
            entries: vec![
                entry("a.drv", "a", &["ci-1"]),
                entry("b.drv", "b", &["other"]),
                entry("c.drv", "c", &["ci-1"]),
            ],
            opaque_paths: vec![],
        },
        evidence: TrustEvidence::LocalStore,
    };
    let result = evaluate(&config(IaMode::Warn), ".#demo", None, Evaluation::default(), query);
    assert_eq!(result.report.decision, Decision::Untrusted);
    assert_eq!(result.report.action, Action::Fail);
    assert_eq!(result.exit_code, ExitCode::Untrusted);
    assert_eq!(result.report.trace.status, "untrusted");
    assert_eq!(
        result.report.diagnostics,
        ["base trace b.drv^out has 0 accepted signer(s); policy requires 1"]
    );
    assert!(result.report.trace.signers.is_empty());
    assert_eq!(result.report.derivation.resolved.as_deref(), Some("/nix/store/c.drv"));
}

#[test]
fn empty_records_and_diagnostics_map_to_decisions() {
    let empty = TraceQuery::Found {
        records: TraceRecords::default(),
        evidence: TrustEvidence::LocalStore,
    };
    let result = evaluate(&config(IaMode::Warn), ".#demo", None, Evaluation::default(), empty);
    assert_eq!(result.report.decision, Decision::Miss);
    assert_eq!(result.report.action, Action::Build);
    assert_eq!(result.exit_code, ExitCode::Miss);
    assert!(result.report.diagnostics.is_empty());

    let miss = evaluate(
        &config(IaMode::Warn),
        ".#demo",
        None,
        Evaluation::default(),
        TraceQuery::Miss("no build trace".into()),
    );
    assert_eq!(miss.report.decision, Decision::Miss);
    assert_eq!(miss.report.action, Action::Build);
    assert_eq!(miss.report.trace.status, "missing");
    assert_eq!(miss.report.diagnostics, ["no build trace"]);

    let untrusted = evaluate(
        &config(IaMode::Warn),
        ".#demo",
        None,
        Evaluation::default(),
        TraceQuery::Untrusted("not signed".into()),
    );
    assert_eq!(untrusted.report.decision, Decision::Untrusted);
    assert_eq!(untrusted.exit_code, ExitCode::Untrusted);

    let failed = evaluate(
        &config(IaMode::Warn),
        ".#demo",
        None,
        Evaluation::default(),
        TraceQuery::Failed("boom".into()),
    );
    assert_eq!(failed.report.decision, Decision::Error);
    assert_eq!(failed.report.action, Action::Fail);
    assert_eq!(failed.report.trace.status, "error");
    assert_eq!(failed.exit_code, ExitCode::Internal);
}

#[test]
fn same_output_path_twice_is_no_conflict() {
    let query = TraceQuery::Found {
        records: TraceRecords {
            entries: vec![entry("a.drv", "a", &["ci-1"]), entry("a.drv", "a", &["ci-1"])],
            opaque_paths: vec![],
        },
        evidence: TrustEvidence::LocalStore,
    };
    let result = evaluate(&config(IaMode::Warn), ".#demo", None, Evaluation::default(), query);
    assert_eq!(result.report.decision, Decision::AcceptedWithIaTrust);
}

fn fresh() -> ResultEnvelope {
    ResultEnvelope {
        schema: "dev.closurelabs.once/result/v1",
        installable: ".#demo".into(),
        decision: Decision::Error,
        action: Action::Fail,
        nix_version: None,
        derivation: DerivationSummary {
            unresolved: None,
            resolved: None,
            output_name: None,
        },
        trace: TraceSummary {
            status: "unknown".into(),
            out_path: None,
            signers: vec![],
            signature_count: 0,
        },
        inputs: InputSummary::default(),
        diagnostics: vec![],
    }
}

#[test]
fn classification_accepts_only_trusted_local_records() {
    let records = |signers: &[&str]| match found(signers) {
        TraceQuery::Found { records, .. } => records,
        _ => unreachable!(),
    };
    let mut report = fresh();
    let exit = classify_found(
        &config(IaMode::Warn),
        &mut report,
        records(&["other", "ci-1"]),
        TrustEvidence::LocalStore,
    );
    assert_eq!(exit, ExitCode::Accepted);
    assert_eq!(report.trace.signers, ["ci-1"]);
    assert_eq!(report.diagnostics.len(), 1);
    let mut report = fresh();
    let exit = classify_found(
        &config(IaMode::Warn),
        &mut report,
        records(&["ci-1"]),
        TrustEvidence::UnverifiedRemote,
    );
    assert_eq!(exit, ExitCode::Unsupported);
    assert!(report.trace.signers.is_empty());
    let mut report = fresh();
    let exit = classify_found(
        &config(IaMode::Deny),
        &mut report,
        records(&["ci-1"]),
        TrustEvidence::LocalStore,
    );
    assert_eq!(exit, ExitCode::IaRejected);
}
