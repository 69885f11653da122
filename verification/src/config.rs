//! The Once policy configuration and its rules.

use vstd::prelude::*;

use crate::error::OnceError;
use crate::text::{chars_of, decimal, decimal_chars, push_all, push_str, string_of, trim, trim_chars};
use crate::version::Version;

verus! {

/// Policy configuration, schema 1.
#[derive(Clone, Debug)]
pub struct Config {
    pub schema: u32,
    pub once: OnceConfig,
    pub nix: NixConfig,
    pub trust: TrustConfig,
    pub reporting: ReportingConfig,
}

#[derive(Clone, Debug)]
pub struct OnceConfig {
    /// The policy version, part of every check's identity.
    pub policy_version: String,
}

#[derive(Clone, Debug)]
pub struct NixConfig {
    pub minimum_version: Version,
    pub required_experimental_features: Vec<String>,
}

#[derive(Clone, Debug)]
pub struct TrustConfig {
    pub required_signatures: usize,
    pub accepted_key_names: Vec<String>,
    pub ia_mode: IaMode,
}

/// How input-addressed dependencies are treated.
#[derive(Clone, Copy, Debug, PartialEq, Eq, Structural)]
pub enum IaMode {
    Deny,
    Warn,
    AllowTrusted,
}

#[derive(Clone, Debug)]
pub struct ReportingConfig {
    pub github_summary: bool,
}

impl Default for ReportingConfig {
    fn default() -> (r: ReportingConfig)
        ensures
            !r.github_summary,
    {
        ReportingConfig { github_summary: false }
    }
}

/// The message for an unsupported schema number.
pub open spec fn schema_message(schema: u32) -> Seq<char> {
    "unsupported schema "@ + decimal(schema as nat) + "; expected 1"@
}

/// The first rule of schema 1 that `config` breaks, with its message; `None`
/// when it breaks none.
pub open spec fn config_violation(config: Config) -> Option<Seq<char>> {
    if config.schema != 1 {
        Some(schema_message(config.schema))
    } else if trim(config.once.policy_version@).len() == 0 {
        Some("once.policy_version must not be empty"@)
    } else if config.trust.required_signatures != 1 {
        Some("v0.1 supports trust.required_signatures = 1 only"@)
    } else if config.trust.accepted_key_names@.len() == 0 {
        Some("trust.accepted_key_names must not be empty"@)
    } else {
        None
    }
}

impl Config {
    /// Checks the rules of schema 1 in order: schema 1, a non-blank policy
    /// version, exactly one required signature, at least one accepted key.
    pub fn validate(&self) -> (r: Result<(), OnceError>)
        ensures
            config_violation(*self) is None ==> r is Ok,
            config_violation(*self) matches Some(m) ==> (r matches Err(OnceError::InvalidConfig(msg)) && msg@ == m),
    {
        if self.schema != 1 {
            let mut msg: Vec<char> = Vec::new();
            push_str(&mut msg, "unsupported schema ");
            let n = decimal_chars(self.schema as u64);
            push_all(&mut msg, &n);
            push_str(&mut msg, "; expected 1");
            return Err(OnceError::InvalidConfig(string_of(&msg)));
        }
        let version = chars_of(self.once.policy_version.as_str());
        let trimmed = trim_chars(&version);
        if trimmed.len() == 0 {
            return Err(OnceError::InvalidConfig(String::from_str("once.policy_version must not be empty")));
        }
        if self.trust.required_signatures != 1 {
            return Err(OnceError::InvalidConfig(String::from_str("v0.1 supports trust.required_signatures = 1 only")));
        }
        if self.trust.accepted_key_names.len() == 0 {
            return Err(OnceError::InvalidConfig(String::from_str("trust.accepted_key_names must not be empty")));
        }
        Ok(())
    }
}

} // verus!
