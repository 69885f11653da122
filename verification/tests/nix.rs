use once::backend::BackendDescription;
use once::config::{Config, IaMode, NixConfig, OnceConfig, ReportingConfig, TrustConfig};
use once::error::OnceError;
use once::nix::{
    parse_flake_revision, parse_nix_version, validate_policy_reference, CommandOutput, NixAdapter,
    PolicyStage, PolicyStep, TraceQuery, TrustEvidence,
};
use once::trace::TraceRecords;
use once::version::Version;

fn output(success: bool, stdout: &str, stderr: &str) -> CommandOutput {
    CommandOutput {
        success,
        status: if success { 0 } else { 1 },
        stdout: stdout.into(),
        stderr: stderr.into(),
    }
}

fn adapter(store: Option<&str>, eval_store: Option<&str>) -> NixAdapter {
    NixAdapter::new(
        "nix".into(),
        store.map(String::from),
        eval_store.map(String::from),
        None,
    )
}

fn config() -> Config {
    Config {
        schema: 1,
        once: OnceConfig {
            policy_version: "poc-v1".into(),
        },
        nix: NixConfig {
            minimum_version: Version::new(2, 35, 0),
            required_experimental_features: vec!["nix-command".into()],
        },
        trust: TrustConfig {
            required_signatures: 1,
            accepted_key_names: vec!["ci-1".into()],
            ia_mode: IaMode::Warn,
        },
        reporting: ReportingConfig::default(),
    }
}

#[test]
fn parses_upstream_version() {
    assert_eq!(
        parse_nix_version("nix (Nix) 2.35.0").expect("version"),
        Version::new(2, 35, 0)
    );
}

#[test]
fn parses_determinate_version() {
    assert_eq!(
        parse_nix_version("nix (Determinate Nix 3.22.2) 2.35.2").expect("version"),
        Version::new(2, 35, 2)
    );
}

#[test]
fn parses_upstream_snapshot_version() {
    let version =
        parse_nix_version("nix (Nix) 2.36.0pre20260822_88b09c6").expect("snapshot version");
    assert_eq!(
        version,
        Version::parse("2.36.0-pre.20260822-88b09c6").expect("normalized version")
    );
    assert!(version > Version::new(2, 35, 2));
    assert!(version < Version::new(2, 36, 0));
}

#[test]
fn version_policy_boundaries() {
    let minimum = Version::new(2, 35, 0);
    assert!(Version::new(2, 34, 9) < minimum);
    assert!(Version::new(2, 35, 0) >= minimum);
    assert!(Version::new(2, 36, 0) >= minimum);
}

#[test]
fn accepts_immutable_github_policy_reference() {
    let revision = "0123456789abcdef0123456789abcdef01234567";
    validate_policy_reference(
        &format!("github:closure-labs/once-policy/{revision}"),
        revision,
    )
    .expect("immutable reference");
}

#[test]
fn rejects_mutable_policy_reference() {
    let revision = "0123456789abcdef0123456789abcdef01234567";
    assert!(
        validate_policy_reference("github:closure-labs/once-policy/main", revision).is_err()
    );
}

#[test]
fn reads_revision_from_metadata() {
    let revision = "0123456789abcdef0123456789abcdef01234567";
    let output = format!(r#"{{"locked":{{"rev":"{revision}"}}}}"#);
    assert_eq!(parse_flake_revision(&output).expect("revision"), revision);
}

#[test]
fn version_without_number_is_refused() {
    match parse_nix_version("nix (Nix) unknown") {
        Err(OnceError::NixVersion(text)) => assert_eq!(text, "nix (Nix) unknown"),
        other => panic!("unexpected {other:?}"),
    }
    assert!(parse_nix_version("").is_err());
}

#[test]
fn version_takes_the_last_token_and_strips_punctuation() {
    let version = parse_nix_version("nix 1.0.0 (\"2.35.1\")").expect("version");
    assert_eq!(version, Version::new(2, 35, 1));
    assert_eq!(version.to_string(), "2.35.1");
    assert!(parse_nix_version("2.36.0pre").is_err());
    assert_eq!(
        parse_nix_version("2.36.0pre1+x").expect("snapshot"),
        Version::parse("2.36.0-pre.1-x").expect("normalized")
    );
}

#[test]
fn version_renders_pre_release_and_build() {
    let version = Version::parse("1.2.3-alpha.1+build.5").expect("version");
    assert_eq!(version.to_string(), "1.2.3-alpha.1+build.5");
    assert_eq!(version.pre, "alpha.1");
    assert_eq!(version.build, "build.5");
    assert_eq!(Version::new(10, 0, 7).to_string(), "10.0.7");
    assert!(Version::parse("1.2").is_none());
}

#[test]
fn version_query_reports_failures_and_parses_trimmed_output() {
    let nix = adapter(None, None);
    let version = nix
        .version(output(true, "  nix (Nix) 2.35.2\n", ""))
        .expect("version");
    assert_eq!(version, Version::new(2, 35, 2));
    match nix.version(output(false, "", "  boom \n")) {
        Err(OnceError::CommandFailed { program, status, stderr }) => {
            assert_eq!(program, "nix");
            assert_eq!(status, 1);
            assert_eq!(stderr, "boom");
        }
        other => panic!("unexpected {other:?}"),
    }
}

#[test]
fn policy_reference_errors_name_their_reason() {
    let revision = "0123456789abcdef0123456789abcdef01234567";
    let message = |result: Result<(), OnceError>| match result {
        Err(OnceError::Policy(message)) => message,
        other => panic!("unexpected {other:?}"),
    };
    assert_eq!(
        message(validate_policy_reference("github:o/r/0123456", "0123456")),
        "policy revision must be a full 40-character Git commit"
    );
    assert_eq!(
        message(validate_policy_reference(
            "github:o/r/0123456789abcdef0123456789abcdef0123456g",
            "0123456789abcdef0123456789abcdef0123456g"
        )),
        "policy revision must be a full 40-character Git commit"
    );
    assert_eq!(
        message(validate_policy_reference(&format!("gitlab:o/r/{revision}"), revision)),
        "v0.2 requires a github:OWNER/REPO/COMMIT policy reference"
    );
    assert_eq!(
        message(validate_policy_reference(&format!("github:o/r/{revision}/x"), revision)),
        "policy reference must embed the same full commit supplied by --policy-revision"
    );
    assert_eq!(
        message(validate_policy_reference(&format!("github:/r/{revision}"), revision)),
        "policy reference must embed the same full commit supplied by --policy-revision"
    );
    assert_eq!(
        message(validate_policy_reference("github:o/r", revision)),
        "policy reference must embed the same full commit supplied by --policy-revision"
    );
    let upper = revision.to_ascii_uppercase();
    assert!(validate_policy_reference(&format!("github:o/r/{upper}"), revision).is_ok());
}

#[test]
fn flake_revision_prefers_the_revision_field() {
    let text = r#"{"revision":"abc","locked":{"rev":"def"}}"#;
    assert_eq!(parse_flake_revision(text).expect("revision"), "abc");
    match parse_flake_revision(r#"{"locked":{}}"#) {
        Err(OnceError::Policy(message)) => {
            assert_eq!(message, "Nix metadata did not report a locked revision")
        }
        other => panic!("unexpected {other:?}"),
    }
    match parse_flake_revision("not json") {
        Err(OnceError::NixJson { output, .. }) => assert_eq!(output, "not json"),
        other => panic!("unexpected {other:?}"),
    }
}

#[test]
fn nix_arguments_enable_features_and_store() {
    let nix = adapter(Some("ssh://cache"), Some("local"));
    let args = nix.nix_arguments(vec!["store".into(), "cat".into()]);
    assert_eq!(
        args,
        [
            "--extra-experimental-features",
            "nix-command flakes ca-derivations",
            "--store",
            "ssh://cache",
            "store",
            "cat"
        ]
    );
    assert_eq!(
        nix.trace_arguments(".#demo"),
        ["store", "build-trace", "info", ".#demo", "--json", "--eval-store", "local"]
    );
    assert_eq!(
        nix.evaluate_arguments(".#demo"),
        ["derivation", "show", ".#demo", "--eval-store", "local"]
    );
    assert_eq!(
        nix.build_arguments(".#demo"),
        ["build", ".#demo", "--no-link", "--json", "--eval-store", "local"]
    );
    assert_eq!(
        adapter(None, None).nix_arguments(vec!["x".into()]),
        ["--extra-experimental-features", "nix-command flakes ca-derivations", "x"]
    );
    assert_eq!(
        adapter(None, None).help_arguments(),
        ["store", "build-trace", "info", "--help"]
    );
}

#[test]
fn evaluation_reads_the_first_derivation() {
    let nix = adapter(None, None);
    let evaluation = nix
        .evaluate(output(true, r#"{"derivations":{"b.drv":{},"a.drv":{}}}"#, ""))
        .expect("evaluation");
    assert_eq!(evaluation.unresolved_drv.as_deref(), Some("/nix/store/a.drv"));
    let evaluation = nix
        .evaluate(output(true, r#"{"/nix/store/unresolved-check.drv":{}}"#, ""))
        .expect("evaluation");
    assert_eq!(
        evaluation.unresolved_drv.as_deref(),
        Some("/nix/store/unresolved-check.drv")
    );
    let evaluation = nix
        .evaluate(output(true, r#"{"derivations":{},"x":1}"#, ""))
        .expect("evaluation");
    assert!(evaluation.unresolved_drv.is_none());
    assert!(matches!(
        nix.evaluate(output(true, "{", "")),
        Err(OnceError::NixJson { .. })
    ));
    assert!(matches!(
        nix.evaluate(output(false, "", "no")),
        Err(OnceError::CommandFailed { .. })
    ));
}

#[test]
fn trace_classifies_diagnostics() {
    let nix = adapter(None, None);
    let parse_error = || serde_json::from_str::<serde_json::Value>("").unwrap_err();
    let classify = |stderr: &str| {
        nix.trace(output(false, "", stderr), Err(parse_error()))
            .expect("classified")
    };
    match classify("error: cannot operate on output 'out' of the Unbuilt Derivation\n") {
        TraceQuery::Miss(d) => assert_eq!(
            d,
            "error: cannot operate on output 'out' of the Unbuilt Derivation"
        ),
        other => panic!("unexpected {other:?}"),
    }
    assert!(matches!(classify("path does not have a realization"), TraceQuery::Miss(_)));
    assert!(matches!(classify("key is UNTRUSTED"), TraceQuery::Untrusted(_)));
    assert!(matches!(classify("Signature is invalid"), TraceQuery::Untrusted(_)));
    assert!(matches!(classify("signature missing"), TraceQuery::Failed(_)));
    assert!(matches!(classify("disk full"), TraceQuery::Failed(_)));
}

#[test]
fn trace_evidence_depends_on_store() {
    let records = || Ok(TraceRecords::default());
    for (store, evidence) in [
        (None, TrustEvidence::LocalStore),
        (Some("daemon"), TrustEvidence::LocalStore),
        (Some("local?root=/tmp/x"), TrustEvidence::LocalStore),
        (Some("https://cache.example"), TrustEvidence::UnverifiedRemote),
        (Some("local"), TrustEvidence::UnverifiedRemote),
    ] {
        let nix = adapter(store, None);
        assert_eq!(nix.evidence(), evidence);
        match nix.trace(output(true, "[]", ""), records()) {
            Ok(TraceQuery::Found { evidence: found, .. }) => assert_eq!(found, evidence),
            other => panic!("unexpected {other:?}"),
        }
    }
    let error = serde_json::from_str::<serde_json::Value>("[").unwrap_err();
    match adapter(None, None).trace(output(true, "[", ""), Err(error)) {
        Err(OnceError::NixJson { output, .. }) => assert_eq!(output, "["),
        other => panic!("unexpected {other:?}"),
    }
}

#[test]
fn nix_remote_selects_the_store_when_none_is_given() {
    let with_remote = |store: Option<&str>, remote: Option<&str>| {
        NixAdapter::new(
            "nix".into(),
            store.map(String::from),
            None,
            remote.map(String::from),
        )
    };
    assert_eq!(
        with_remote(None, Some("https://cache.example")).evidence(),
        TrustEvidence::UnverifiedRemote
    );
    assert_eq!(
        with_remote(None, Some("daemon")).evidence(),
        TrustEvidence::LocalStore
    );
    assert_eq!(
        with_remote(Some("local?root=/tmp/x"), Some("ssh-ng://builder")).evidence(),
        TrustEvidence::LocalStore
    );
    assert_eq!(
        with_remote(Some("s3://bucket"), None).evidence(),
        TrustEvidence::UnverifiedRemote
    );
    match with_remote(None, Some("ssh-ng://builder")).trace(output(true, "[]", ""), Ok(TraceRecords::default())) {
        Ok(TraceQuery::Found { evidence, .. }) => assert_eq!(evidence, TrustEvidence::UnverifiedRemote),
        other => panic!("unexpected {other:?}"),
    }
}

#[test]
fn build_succeeds_only_with_nix() {
    let nix = adapter(None, None);
    assert!(nix.build(output(true, "[]", "")).is_ok());
    assert!(matches!(
        nix.build(output(false, "", "failed")),
        Err(OnceError::CommandFailed { .. })
    ));
}

#[test]
fn configured_features_come_from_the_settings() {
    let nix = adapter(None, None);
    let strings = |items: &[Option<&str>]| -> Option<Vec<Option<String>>> {
        Some(items.iter().map(|item| item.map(String::from)).collect())
    };
    let settings = vec![
        ("accept-flake-config".to_string(), None),
        (
            "experimental-features".to_string(),
            strings(&[Some("nix-command"), None, Some("ca-derivations")]),
        ),
        ("extra-experimental-features".to_string(), strings(&[Some("flakes")])),
    ];
    assert_eq!(
        nix.configured_features(output(true, "{}", ""), Ok(settings))
            .expect("features"),
        ["nix-command", "ca-derivations"]
    );
    let not_a_list = vec![("experimental-features".to_string(), None)];
    assert!(nix
        .configured_features(output(true, "{}", ""), Ok(not_a_list))
        .expect("no features")
        .is_empty());
    assert!(nix
        .configured_features(output(true, "{}", ""), Ok(vec![]))
        .expect("no features")
        .is_empty());
    let broken = serde_json::from_str::<serde_json::Value>("{").expect_err("invalid JSON");
    match nix.configured_features(output(true, "{", ""), Err(broken)) {
        Err(OnceError::NixJson { output, .. }) => assert_eq!(output, "{"),
        other => panic!("unexpected {other:?}"),
    }
    match nix.configured_features(output(false, "", " denied \n"), Ok(vec![])) {
        Err(OnceError::CommandFailed { program, status, stderr }) => {
            assert_eq!(program, "nix");
            assert_eq!(status, 1);
            assert_eq!(stderr, "denied");
        }
        other => panic!("unexpected {other:?}"),
    }
}

#[test]
fn doctor_is_suitable_with_new_nix_and_features() {
    let nix = adapter(None, None);
    let backend = BackendDescription {
        kind: "nix-environment",
        store: None,
    };
    let features = vec!["nix-command".to_string(), "ca-derivations".to_string()];
    let state = nix.doctor(
        &config(),
        Version::new(2, 35, 2),
        &output(true, "", ""),
        &features,
        backend.clone(),
    );
    assert!(state.suitable());
    assert_eq!(state.minimum, Version::new(2, 35, 0));
    assert_eq!(state.required_features, ["nix-command"]);
    let old = nix.doctor(
        &config(),
        Version::new(2, 34, 9),
        &output(true, "", ""),
        &features,
        backend.clone(),
    );
    assert!(!old.suitable());
    let no_ca = nix.doctor(
        &config(),
        Version::new(2, 36, 0),
        &output(true, "", ""),
        &vec!["flakes".to_string()],
        backend.clone(),
    );
    assert!(!no_ca.ca_derivations_configured);
    assert!(!no_ca.suitable());
    let no_trace = nix.doctor(
        &config(),
        Version::new(2, 36, 0),
        &output(false, "", ""),
        &features,
        backend,
    );
    assert!(!no_trace.suitable());
}

fn run_policy_load(outputs: Vec<CommandOutput>) -> (Vec<Vec<String>>, PolicyStep) {
    let revision = "0123456789abcdef0123456789abcdef01234567";
    let nix = adapter(None, None);
    let (mut load, mut step) =
        nix.load_policy(&format!("github:closure-labs/once-policy/{revision}"), revision);
    let mut commands = Vec::new();
    let mut outputs = outputs.into_iter();
    loop {
        match step {
            PolicyStep::Run(arguments) => {
                commands.push(arguments);
                step = nix.continue_policy(&mut load, outputs.next().expect("output"));
            }
            other => {
                assert_eq!(load.stage, PolicyStage::Done);
                return (commands, other);
            }
        }
    }
}

#[test]
fn policy_load_runs_metadata_build_and_cat() {
    let revision = "0123456789ABCDEF0123456789abcdef01234567";
    let (commands, step) = run_policy_load(vec![
        output(true, &format!(r#"{{"locked":{{"rev":"{revision}"}}}}"#), ""),
        output(true, "\n  /nix/store/abc-policy  \n\n", ""),
        output(true, "schema = 1\n", ""),
    ]);
    assert_eq!(commands.len(), 3);
    assert_eq!(
        commands[0],
        [
            "flake",
            "metadata",
            "github:closure-labs/once-policy/0123456789abcdef0123456789abcdef01234567",
            "--json"
        ]
    );
    assert_eq!(
        commands[1],
        [
            "build",
            "github:closure-labs/once-policy/0123456789abcdef0123456789abcdef01234567#policy",
            "--no-link",
            "--print-out-paths"
        ]
    );
    assert_eq!(commands[2], ["store", "cat", "/nix/store/abc-policy"]);
    match step {
        PolicyStep::Loaded(text) => assert_eq!(text, "schema = 1\n"),
        _ => panic!("policy was not loaded"),
    }
}

fn failure(step: PolicyStep) -> OnceError {
    match step {
        PolicyStep::Failed(error) => error,
        _ => panic!("policy load did not fail"),
    }
}

#[test]
fn policy_load_fails_closed() {
    let revision = "0123456789abcdef0123456789abcdef01234567";
    let metadata = || output(true, &format!(r#"{{"revision":"{revision}"}}"#), "");
    let (commands, step) = run_policy_load(vec![output(
        true,
        r#"{"revision":"ffffffffffffffffffffffffffffffffffffffff"}"#,
        "",
    )]);
    assert_eq!(commands.len(), 1);
    match failure(step) {
        OnceError::Policy(message) => assert_eq!(
            message,
            format!("flake resolved to revision ffffffffffffffffffffffffffffffffffffffff, expected {revision}")
        ),
        other => panic!("unexpected {other:?}"),
    }
    let (_, step) = run_policy_load(vec![metadata(), output(true, "relative/path\n", "")]);
    match failure(step) {
        OnceError::Policy(message) => {
            assert_eq!(message, "policy build did not return one Nix store path")
        }
        other => panic!("unexpected {other:?}"),
    }
    let (_, step) = run_policy_load(vec![
        metadata(),
        output(true, "/nix/store/a\n/nix/store/b\n", ""),
    ]);
    match failure(step) {
        OnceError::Policy(message) => {
            assert_eq!(message, "policy build returned more than one Nix store path")
        }
        other => panic!("unexpected {other:?}"),
    }
    let (_, step) = run_policy_load(vec![
        metadata(),
        output(true, "/nix/store/a\n", ""),
        output(true, " \n\t", ""),
    ]);
    match failure(step) {
        OnceError::Policy(message) => assert_eq!(message, "policy artifact is empty"),
        other => panic!("unexpected {other:?}"),
    }
    let (_, step) = run_policy_load(vec![output(false, "", "network down\n")]);
    assert!(matches!(failure(step), OnceError::CommandFailed { .. }));
    let (commands, step) = {
        let nix = adapter(None, None);
        let (load, step) = nix.load_policy("github:closure-labs/once-policy/main", revision);
        assert_eq!(load.stage, PolicyStage::Done);
        (0, step)
    };
    assert_eq!(commands, 0);
    assert!(matches!(failure(step), OnceError::Policy(_)));
}
