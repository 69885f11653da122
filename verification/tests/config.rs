use once::config::{Config, IaMode, NixConfig, OnceConfig, ReportingConfig, TrustConfig};
use once::error::OnceError;
use once::types::ExitCode;
use once::version::Version;

const VALID: &str = r#"
schema = 1
[once]
policy_version = "poc-v1"
[nix]
minimum_version = "2.35.0"
required_experimental_features = ["nix-command", "flakes", "ca-derivations"]
[trust]
required_signatures = 1
accepted_key_names = ["test-1"]
ia_mode = "warn"
"#;

/// Reads configuration text into the library's `Config`, field by field.
fn parse(source: &str) -> Config {
    let table: toml::Table = toml::from_str(source).expect("syntactically valid config");
    let text = |section: &str, key: &str| table[section][key].as_str().expect(key).to_owned();
    let list = |section: &str, key: &str| -> Vec<String> {
        table[section][key]
            .as_array()
            .expect(key)
            .iter()
            .map(|value| value.as_str().expect(key).to_owned())
            .collect()
    };
    Config {
        schema: table["schema"].as_integer().expect("schema") as u32,
        once: OnceConfig {
            policy_version: text("once", "policy_version"),
        },
        nix: NixConfig {
            minimum_version: Version::parse(&text("nix", "minimum_version")).expect("version"),
            required_experimental_features: list("nix", "required_experimental_features"),
        },
        trust: TrustConfig {
            required_signatures: table["trust"]["required_signatures"]
                .as_integer()
                .expect("required_signatures") as usize,
            accepted_key_names: list("trust", "accepted_key_names"),
            ia_mode: match text("trust", "ia_mode").as_str() {
                "deny" => IaMode::Deny,
                "warn" => IaMode::Warn,
                "allow-trusted" => IaMode::AllowTrusted,
                other => panic!("unknown ia_mode {other}"),
            },
        },
        reporting: match table.get("reporting").and_then(|r| r.get("github_summary")) {
            Some(value) => ReportingConfig {
                github_summary: value.as_bool().expect("github_summary"),
            },
            None => ReportingConfig::default(),
        },
    }
}

fn valid() -> Config {
    parse(VALID)
}

fn message(config: &Config) -> String {
    match config.validate() {
        Err(OnceError::InvalidConfig(message)) => message,
        other => panic!("unexpected {other:?}"),
    }
}

#[test]
fn parses_valid_config() {
    let config = parse(VALID);
    config.validate().expect("valid configuration");
    assert_eq!(config.nix.minimum_version, Version::new(2, 35, 0));
    assert_eq!(config.trust.ia_mode, IaMode::Warn);
}

#[test]
fn rejects_zero_signatures() {
    let source = VALID.replace("required_signatures = 1", "required_signatures = 0");
    let config = parse(&source);
    assert!(config.validate().is_err());
}

#[test]
fn rejects_unsupported_signature_threshold() {
    let source = VALID.replace("required_signatures = 1", "required_signatures = 2");
    let config = parse(&source);
    assert!(config.validate().is_err());
}

#[test]
fn valid_configuration_passes() {
    let config = valid();
    config.validate().expect("valid configuration");
    assert!(!config.reporting.github_summary);
}

#[test]
fn validation_reports_the_first_broken_rule() {
    let mut config = valid();
    config.schema = 2;
    config.trust.required_signatures = 2;
    assert_eq!(message(&config), "unsupported schema 2; expected 1");
    let mut config = valid();
    config.once.policy_version = " \t ".into();
    assert_eq!(message(&config), "once.policy_version must not be empty");
    let mut config = valid();
    config.trust.required_signatures = 3;
    assert_eq!(
        message(&config),
        "v0.1 supports trust.required_signatures = 1 only"
    );
    let mut config = valid();
    config.trust.accepted_key_names.clear();
    assert_eq!(message(&config), "trust.accepted_key_names must not be empty");
}

#[test]
fn configuration_errors_exit_as_malformed() {
    assert_eq!(
        OnceError::InvalidConfig("x".into()).exit_code(),
        ExitCode::MalformedConfig
    );
    assert_eq!(OnceError::Policy("x".into()).exit_code(), ExitCode::MalformedConfig);
    assert_eq!(OnceError::NixVersion("x".into()).exit_code(), ExitCode::Internal);
    assert_eq!(
        OnceError::CommandFailed {
            program: "nix".into(),
            status: 1,
            stderr: String::new()
        }
        .exit_code(),
        ExitCode::Internal
    );
    assert_eq!(ExitCode::MalformedConfig.code(), 30);
    assert_eq!(ExitCode::Internal.code(), 40);
}

#[test]
fn error_messages_name_their_cause() {
    assert_eq!(
        OnceError::InvalidConfig("x must be set".into()).message(),
        "invalid configuration: x must be set"
    );
    assert_eq!(
        OnceError::Policy("bad pin".into()).message(),
        "invalid policy: bad pin"
    );
    assert_eq!(
        OnceError::NixVersion("nix".into()).message(),
        "could not parse Nix version from: nix"
    );
    assert_eq!(
        OnceError::CommandFailed {
            program: "nix".into(),
            status: 1,
            stderr: "boom".into()
        }
        .message(),
        "nix failed with exit status 1: boom"
    );
    assert_eq!(
        OnceError::CommandFailed {
            program: "nix".into(),
            status: -2,
            stderr: String::new()
        }
        .message(),
        "nix failed with exit status -2: "
    );
    let source = serde_json::from_str::<serde_json::Value>("{").expect_err("invalid JSON");
    let text = source.to_string();
    assert_eq!(
        OnceError::NixJson {
            source,
            output: "{".into()
        }
        .message(),
        format!("could not parse JSON from Nix: {text}; output was: {{")
    );
    let missing = std::io::Error::new(std::io::ErrorKind::NotFound, "gone");
    assert_eq!(
        OnceError::ReadConfig {
            path: "/tmp/once.toml".into(),
            source: missing
        }
        .message(),
        "could not read configuration /tmp/once.toml: gone"
    );
}
