//! The library's error type.

use vstd::prelude::*;

use crate::text::{chars_of, decimal, decimal_chars, ends_with, push_all, push_str, starts_with, string_of};
use crate::types::ExitCode;

verus! {

#[verifier::external_type_specification]
#[verifier::external_body]
pub struct ExIoError(std::io::Error);

#[verifier::external_type_specification]
#[verifier::external_body]
pub struct ExPathBuf(std::path::PathBuf);

#[verifier::external_type_specification]
#[verifier::external_body]
pub struct ExTomlError(toml::de::Error);

#[verifier::external_type_specification]
#[verifier::external_body]
pub struct ExJsonError(serde_json::Error);

/// Everything that can stop a Once command before it reaches a decision.
#[derive(Debug)]
#[allow(inconsistent_fields)]
pub enum OnceError {
    /// The program could not be started.
    Command { program: String, source: std::io::Error },
    /// The program ran and reported failure.
    CommandFailed { program: String, status: i32, stderr: String },
    /// The configuration file could not be read.
    ReadConfig { path: std::path::PathBuf, source: std::io::Error },
    /// The configuration text is not valid TOML for the schema.
    ParseConfig { path: std::path::PathBuf, source: toml::de::Error },
    /// The configuration breaks a rule of the schema.
    InvalidConfig(String),
    /// Nix printed JSON that could not be read.
    NixJson { source: serde_json::Error, output: String },
    /// The output of `nix --version` names no version.
    NixVersion(String),
    /// The JSON report could not be written.
    Report(serde_json::Error),
    /// The GitHub step summary could not be written.
    Summary { path: std::path::PathBuf, source: std::io::Error },
    /// The external policy reference or artifact is not acceptable.
    Policy(String),
}

/// Errors in the configuration or in the policy that supplies it.
pub open spec fn is_configuration_error(e: &OnceError) -> bool {
    ||| e is ReadConfig
    ||| e is ParseConfig
    ||| e is InvalidConfig
    ||| e is Policy
}

/// The text of an I/O error, as its `Display` writes it. It depends on the
/// operating system's error descriptions; nothing is claimed of it.
#[verifier::external_body]
fn io_error_text(e: &std::io::Error) -> (r: String) {
    e.to_string()
}

/// The text of a path, as `Path::display` writes it. Nothing is claimed of it.
#[verifier::external_body]
fn path_text(p: &std::path::PathBuf) -> (r: String) {
    format!("{}", p.display())
}

/// The text of a `toml::de::Error`, as its `Display` writes it. The error is
/// opaque here, so nothing is claimed of it.
#[verifier::external_body]
fn toml_error_text(e: &toml::de::Error) -> (r: String) {
    e.to_string()
}

/// The text of a `serde_json::Error`, as its `Display` writes it. The error
/// is opaque here, so nothing is claimed of it.
#[verifier::external_body]
fn json_error_text(e: &serde_json::Error) -> (r: String) {
    e.to_string()
}

/// A signed decimal: a minus sign before the digits of a negative number.
pub open spec fn signed_decimal(n: int) -> Seq<char> {
    if n < 0 {
        seq!['-'] + decimal((-n) as nat)
    } else {
        decimal(n as nat)
    }
}

/// What the message of an error says. The text of an underlying I/O, TOML or
/// JSON error and of a path is that error's or path's own display, which
/// depends on values opaque here: such a message is stated by what comes
/// before and after it.
pub open spec fn message_of(e: OnceError, m: Seq<char>) -> bool {
    match e {
        OnceError::Command { program, .. } => starts_with(m, "failed to execute "@ + program@ + ": "@),
        OnceError::CommandFailed { program, status, stderr } =>
            m == program@ + " failed with exit status "@ + signed_decimal(status as int) + ": "@ + stderr@,
        OnceError::ReadConfig { .. } => starts_with(m, "could not read configuration "@),
        OnceError::ParseConfig { .. } => starts_with(m, "could not parse configuration "@),
        OnceError::InvalidConfig(msg) => m == "invalid configuration: "@ + msg@,
        OnceError::NixJson { output, .. } => starts_with(m, "could not parse JSON from Nix: "@)
            && ends_with(m, "; output was: "@ + output@),
        OnceError::NixVersion(text) => m == "could not parse Nix version from: "@ + text@,
        OnceError::Report(_) => starts_with(m, "could not serialize JSON report: "@),
        OnceError::Summary { .. } => starts_with(m, "could not write GitHub summary "@),
        OnceError::Policy(msg) => m == "invalid policy: "@ + msg@,
    }
}

/// `prefix` followed by `rest`.
fn joined(prefix: Vec<char>, rest: &str) -> (r: String)
    ensures
        r@ == prefix@ + rest@,
        starts_with(r@, prefix@),
{
    let mut out = prefix;
    push_str(&mut out, rest);
    let ghost p = prefix@;
    assert(out@.take(p.len() as int) =~= p);
    string_of(&out)
}

impl OnceError {
    /// The message that a command stopped on this error prints.
    pub fn message(&self) -> (r: String)
        ensures
            message_of(*self, r@),
    {
        match self {
            OnceError::Command { program, source } => {
                let mut prefix = chars_of("failed to execute ");
                push_str(&mut prefix, program.as_str());
                push_str(&mut prefix, ": ");
                assert(prefix@ =~= "failed to execute "@ + program@ + ": "@);
                let text = io_error_text(source);
                joined(prefix, text.as_str())
            },
            OnceError::CommandFailed { program, status, stderr } => {
                let mut out = chars_of(program.as_str());
                push_str(&mut out, " failed with exit status ");
                let ghost head = out@;
                if *status < 0 {
                    out.push('-');
                    let magnitude: i64 = -(*status as i64);
                    let digits = decimal_chars(magnitude as u64);
                    assert(digits@ == decimal((-(*status as int)) as nat));
                    push_all(&mut out, &digits);
                } else {
                    let digits = decimal_chars(*status as u64);
                    assert(digits@ == decimal(*status as nat));
                    push_all(&mut out, &digits);
                }
                assert(out@ =~= head + signed_decimal(*status as int));
                push_str(&mut out, ": ");
                push_str(&mut out, stderr.as_str());
                assert(out@ =~= program@ + " failed with exit status "@ + signed_decimal(*status as int) + ": "@ + stderr@);
                string_of(&out)
            },
            OnceError::ReadConfig { path, source } => {
                let mut rest = chars_of(path_text(path).as_str());
                push_str(&mut rest, ": ");
                push_str(&mut rest, io_error_text(source).as_str());
                joined(chars_of("could not read configuration "), string_of(&rest).as_str())
            },
            OnceError::ParseConfig { path, source } => {
                let mut rest = chars_of(path_text(path).as_str());
                push_str(&mut rest, ": ");
                push_str(&mut rest, toml_error_text(source).as_str());
                joined(chars_of("could not parse configuration "), string_of(&rest).as_str())
            },
            OnceError::InvalidConfig(msg) => joined(chars_of("invalid configuration: "), msg.as_str()),
            OnceError::NixJson { source, output } => {
                let mut out = chars_of("could not parse JSON from Nix: ");
                let ghost head = out@;
                push_str(&mut out, json_error_text(source).as_str());
                let ghost middle = out@;
                push_str(&mut out, "; output was: ");
                push_str(&mut out, output.as_str());
                proof {
                    let tail = "; output was: "@ + output@;
                    assert(out@ =~= middle + tail);
                    assert(out@.take(head.len() as int) =~= head);
                    assert(out@.skip(out@.len() - tail.len()) =~= tail);
                }
                string_of(&out)
            },
            OnceError::NixVersion(text) => joined(chars_of("could not parse Nix version from: "), text.as_str()),
            OnceError::Report(source) => {
                joined(chars_of("could not serialize JSON report: "), json_error_text(source).as_str())
            },
            OnceError::Summary { path, source } => {
                let mut rest = chars_of(path_text(path).as_str());
                push_str(&mut rest, ": ");
                push_str(&mut rest, io_error_text(source).as_str());
                joined(chars_of("could not write GitHub summary "), string_of(&rest).as_str())
            },
            OnceError::Policy(msg) => joined(chars_of("invalid policy: "), msg.as_str()),
        }
    }

    /// The exit code of a command that stopped on this error: malformed
    /// configuration for configuration and policy errors, internal otherwise.
    pub fn exit_code(&self) -> (r: ExitCode)
        ensures
            is_configuration_error(self) ==> r == ExitCode::MalformedConfig,
            !is_configuration_error(self) ==> r == ExitCode::Internal,
            // The configuration file that cannot be read or parsed, a
            // configuration that breaks the schema and a refused policy are
            // bad configuration; everything else is an internal failure.
            *self is ReadConfig ==> r == ExitCode::MalformedConfig,
            *self is ParseConfig ==> r == ExitCode::MalformedConfig,
            *self is InvalidConfig ==> r == ExitCode::MalformedConfig,
            *self is Policy ==> r == ExitCode::MalformedConfig,
            *self is Command ==> r == ExitCode::Internal,
            *self is CommandFailed ==> r == ExitCode::Internal,
            *self is NixJson ==> r == ExitCode::Internal,
            *self is NixVersion ==> r == ExitCode::Internal,
            *self is Report ==> r == ExitCode::Internal,
            *self is Summary ==> r == ExitCode::Internal,
            r.spec_code() == 30 || r.spec_code() == 40,
    {
        match self {
            OnceError::ReadConfig { .. } | OnceError::ParseConfig { .. }
            | OnceError::InvalidConfig(_) | OnceError::Policy(_) => ExitCode::MalformedConfig,
            _ => ExitCode::Internal,
        }
    }
}

} // verus!
