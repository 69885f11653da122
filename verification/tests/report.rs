use once::backend::{BackendDescription, EnvironmentBackend};
use once::nix::DoctorState;
use once::config::IaMode;
use once::nix::TrustEvidence;
use once::report::{
    doctor_text, explain_text, human_result, resolve_text, summary_text, trace_text, trust_text,
    yes_no,
};
use once::views::{NativeTrace, ResolveView, TraceEntryView, TraceView, TrustView};
use once::types::{
    Action, Decision, DerivationSummary, ExitCode, InputSummary, ResultEnvelope, TraceSummary,
};
use once::version::Version;

fn report() -> ResultEnvelope {
    ResultEnvelope {
        schema: "dev.closurelabs.once/result/v1",
        installable: ".#demo".into(),
        decision: Decision::AcceptedWithIaTrust,
        action: Action::Skip,
        nix_version: Some("2.35.2".into()),
        derivation: DerivationSummary {
            unresolved: Some("/nix/store/u.drv".into()),
            resolved: None,
            output_name: Some("out".into()),
        },
        trace: TraceSummary {
            status: "found".into(),
            out_path: None,
            signers: vec!["a".into(), "b".into()],
            signature_count: 2,
        },
        inputs: InputSummary::default(),
        diagnostics: vec!["first".into(), "second".into()],
    }
}

#[test]
fn human_result_lists_the_decision() {
    let text = human_result(&report());
    assert_eq!(
        text.stdout,
        [
            "Closure Labs — Once",
            "",
            "installable: .#demo",
            "unresolved:  /nix/store/u.drv",
            "output:      out",
            "trace:       found",
            "signer:      a, b",
            "decision:    ACCEPTED_WITH_IA_TRUST",
            "action:      SKIP",
        ]
    );
    assert_eq!(text.stderr, ["note: first", "note: second"]);
}

#[test]
fn summary_is_markdown() {
    assert_eq!(
        summary_text(&report()),
        "## Once: ACCEPTED_WITH_IA_TRUST\n\n- Installable: `.#demo`\n- Trace: `found`\n- Action: `SKIP`\n\n"
    );
}

#[test]
fn doctor_text_reports_suitability() {
    let backend = EnvironmentBackend.describe(&None, &Some("daemon".into()));
    assert_eq!(backend.kind, "nix-environment");
    assert_eq!(backend.store.as_deref(), Some("daemon"));
    let state = DoctorState {
        version: Version::new(2, 35, 2),
        minimum: Version::new(2, 35, 0),
        build_trace_command: true,
        ca_derivations_configured: false,
        required_features: vec![],
        backend,
    };
    assert_eq!(
        doctor_text(&state),
        [
            "Closure Labs — Once doctor",
            "",
            "Nix version:              2.35.2",
            "Required minimum:         2.35.0",
            "build-trace command:      yes",
            "ca-derivations configured: no",
            "Backend:                  nix-environment",
            "Store:                    daemon",
            "Suitable:                 no",
        ]
    );
    assert_eq!(yes_no(true), "yes");
    assert_eq!(yes_no(false), "no");
}

#[test]
fn environment_prefers_once_store() {
    let backend = EnvironmentBackend.describe(&Some("local".into()), &Some("daemon".into()));
    assert_eq!(backend.store.as_deref(), Some("local"));
    let none = EnvironmentBackend.describe(&None, &None);
    assert!(none.store.is_none());
    let _: BackendDescription = none;
}

#[test]
fn names_and_codes_are_stable() {
    assert_eq!(Decision::AcceptedCa.as_str(), "ACCEPTED_CA");
    assert_eq!(Decision::AcceptedWithIaTrust.as_str(), "ACCEPTED_WITH_IA_TRUST");
    assert_eq!(Decision::Miss.as_str(), "MISS");
    assert_eq!(Decision::Untrusted.as_str(), "UNTRUSTED");
    assert_eq!(Decision::Conflict.as_str(), "CONFLICT");
    assert_eq!(Decision::Unsupported.as_str(), "UNSUPPORTED");
    assert_eq!(Decision::Error.as_str(), "ERROR");
    assert_eq!(Action::Skip.as_str(), "SKIP");
    assert_eq!(Action::Build.as_str(), "BUILD");
    assert_eq!(Action::Built.as_str(), "BUILT");
    assert_eq!(Action::Fail.as_str(), "FAIL");
    assert!(Decision::AcceptedCa.may_skip());
    assert!(Decision::AcceptedWithIaTrust.may_skip());
    assert!(!Decision::Miss.may_skip());
    assert!(!Decision::Unsupported.may_skip());
    let codes: Vec<i32> = [
        ExitCode::Accepted,
        ExitCode::Miss,
        ExitCode::Untrusted,
        ExitCode::Conflict,
        ExitCode::IaRejected,
        ExitCode::Unsupported,
        ExitCode::MalformedConfig,
        ExitCode::Internal,
    ]
    .iter()
    .map(|code| code.code())
    .collect();
    assert_eq!(codes, [0, 10, 11, 12, 13, 20, 30, 40]);
}

#[test]
fn resolve_text_shows_derivations() {
    let view = ResolveView {
        schema: "dev.closurelabs.once/resolve/v1",
        installable: ".#demo".into(),
        decision: Decision::Miss,
        action: Action::Build,
        unresolved: Some("/nix/store/u.drv".into()),
        resolved: None,
        output_name: None,
    };
    assert_eq!(
        resolve_text(&view),
        [
            "Closure Labs — Once resolve",
            "",
            "installable: .#demo",
            "unresolved:  /nix/store/u.drv",
            "decision:    MISS",
            "action:      BUILD",
        ]
    );
}

#[test]
fn trust_text_projects_policy() {
    let view = TrustView {
        schema: "dev.closurelabs.once/trust/v1",
        installable: ".#demo".into(),
        decision: Decision::Untrusted,
        action: Action::Fail,
        required_signatures: 1,
        accepted_key_names: vec!["a-1".into(), "b-1".into()],
        ia_mode: IaMode::AllowTrusted,
        accepted_signers: vec![],
        skip_permitted: false,
    };
    assert_eq!(
        trust_text(&view),
        [
            "Closure Labs — Once trust",
            "",
            "installable: .#demo",
            "required signatures: 1",
            "accepted keys:       a-1, b-1",
            "ia mode:             allow-trusted",
            "decision:    UNTRUSTED",
            "action:      FAIL",
            "skip permitted:      no",
        ]
    );
}

#[test]
fn trace_text_lists_entries_and_opaque_paths() {
    let view = TraceView {
        schema: "dev.closurelabs.once/trace/v1",
        installable: ".#demo".into(),
        decision: Decision::Unsupported,
        action: Action::Fail,
        native: NativeTrace {
            status: "found-unverified".into(),
            evidence: Some(TrustEvidence::UnverifiedRemote),
            entries: vec![
                TraceEntryView {
                    drv_path: "/nix/store/r.drv".into(),
                    output_name: "out".into(),
                    out_path: "/nix/store/o".into(),
                    signers: vec!["k-1".into(), "k-2".into()],
                    signature_count: 2,
                },
                TraceEntryView {
                    drv_path: "/nix/store/s.drv".into(),
                    output_name: "dev".into(),
                    out_path: "/nix/store/p".into(),
                    signers: vec![],
                    signature_count: 0,
                },
            ],
            opaque_paths: vec!["/nix/store/o".into()],
        },
    };
    assert_eq!(
        trace_text(&view),
        [
            "Closure Labs — Once trace",
            "",
            "installable: .#demo",
            "trace:       found-unverified",
            "evidence:    unverified-remote",
            "entry:       /nix/store/r.drv^out -> /nix/store/o (2 signature(s): k-1, k-2)",
            "entry:       /nix/store/s.drv^dev -> /nix/store/p (0 signature(s))",
            "opaque:      /nix/store/o",
            "decision:    UNSUPPORTED",
            "action:      FAIL",
        ]
    );
}

#[test]
fn explain_text_tells_the_whole_evaluation() {
    let native = NativeTrace {
        status: "found".into(),
        evidence: Some(TrustEvidence::LocalStore),
        entries: vec![TraceEntryView {
            drv_path: "/nix/store/r.drv".into(),
            output_name: "out".into(),
            out_path: "/nix/store/o".into(),
            signers: vec!["a".into()],
            signature_count: 1,
        }],
        opaque_paths: vec![],
    };
    assert_eq!(
        explain_text(&report(), &native),
        [
            "Closure Labs — Once explain",
            "",
            "installable: .#demo",
            "nix version: 2.35.2",
            "unresolved:  /nix/store/u.drv",
            "output:      out",
            "inputs:      not classified",
            "trace:       found",
            "evidence:    local-store",
            "entry:       /nix/store/r.drv^out -> /nix/store/o (1 signature(s): a)",
            "policy:      found",
            "signer:      a, b",
            "decision:    ACCEPTED_WITH_IA_TRUST",
            "action:      SKIP",
        ]
    );
}
