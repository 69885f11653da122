//! Decisions, actions, exit codes and the result envelope.

use vstd::prelude::*;

verus! {

/// The policy decision for one installable.
#[derive(Clone, Copy, Debug, PartialEq, Eq, Structural)]
pub enum Decision {
    AcceptedCa,
    AcceptedWithIaTrust,
    Miss,
    Untrusted,
    Conflict,
    Unsupported,
    Error,
}

impl Decision {
    /// Whether the decision lets the caller skip the work.
    pub open spec fn spec_may_skip(self) -> bool {
        self is AcceptedCa || self is AcceptedWithIaTrust
    }

    /// The stable name of the decision, as the JSON envelope spells it.
    pub open spec fn name(self) -> Seq<char> {
        match self {
            Decision::AcceptedCa => "ACCEPTED_CA"@,
            Decision::AcceptedWithIaTrust => "ACCEPTED_WITH_IA_TRUST"@,
            Decision::Miss => "MISS"@,
            Decision::Untrusted => "UNTRUSTED"@,
            Decision::Conflict => "CONFLICT"@,
            Decision::Unsupported => "UNSUPPORTED"@,
            Decision::Error => "ERROR"@,
        }
    }

    #[verifier::when_used_as_spec(spec_may_skip)]
    pub fn may_skip(self) -> (r: bool)
        ensures
            r == self.spec_may_skip(),
    {
        match self {
            Decision::AcceptedCa | Decision::AcceptedWithIaTrust => true,
            _ => false,
        }
    }

    pub fn as_str(self) -> (r: &'static str)
        ensures
            r@ == self.name(),
    {
        match self {
            Decision::AcceptedCa => "ACCEPTED_CA",
            Decision::AcceptedWithIaTrust => "ACCEPTED_WITH_IA_TRUST",
            Decision::Miss => "MISS",
            Decision::Untrusted => "UNTRUSTED",
            Decision::Conflict => "CONFLICT",
            Decision::Unsupported => "UNSUPPORTED",
            Decision::Error => "ERROR",
        }
    }
}

/// What the caller should do with the installable.
#[derive(Clone, Copy, Debug, PartialEq, Eq, Structural)]
pub enum Action {
    Skip,
    Build,
    Built,
    Fail,
}

impl Action {
    /// The stable name of the action, as the JSON envelope spells it.
    pub open spec fn name(self) -> Seq<char> {
        match self {
            Action::Skip => "SKIP"@,
            Action::Build => "BUILD"@,
            Action::Built => "BUILT"@,
            Action::Fail => "FAIL"@,
        }
    }

    pub fn as_str(self) -> (r: &'static str)
        ensures
            r@ == self.name(),
    {
        match self {
            Action::Skip => "SKIP",
            Action::Build => "BUILD",
            Action::Built => "BUILT",
            Action::Fail => "FAIL",
        }
    }
}

/// The process exit codes of the command line.
#[derive(Clone, Copy, Debug, PartialEq, Eq, Structural)]
pub enum ExitCode {
    Accepted,
    Miss,
    Untrusted,
    Conflict,
    IaRejected,
    Unsupported,
    MalformedConfig,
    Internal,
}

impl ExitCode {
    pub open spec fn spec_code(self) -> i32 {
        match self {
            ExitCode::Accepted => 0,
            ExitCode::Miss => 10,
            ExitCode::Untrusted => 11,
            ExitCode::Conflict => 12,
            ExitCode::IaRejected => 13,
            ExitCode::Unsupported => 20,
            ExitCode::MalformedConfig => 30,
            ExitCode::Internal => 40,
        }
    }

    /// The numeric process exit status.
    #[verifier::when_used_as_spec(spec_code)]
    pub fn code(self) -> (r: i32)
        ensures
            r == self.spec_code(),
    {
        match self {
            ExitCode::Accepted => 0,
            ExitCode::Miss => 10,
            ExitCode::Untrusted => 11,
            ExitCode::Conflict => 12,
            ExitCode::IaRejected => 13,
            ExitCode::Unsupported => 20,
            ExitCode::MalformedConfig => 30,
            ExitCode::Internal => 40,
        }
    }
}

/// Counts of the dependency kinds of an installable, where known.
#[derive(Clone, Debug)]
pub struct InputSummary {
    pub content_addressed: Option<u64>,
    pub input_addressed: Option<u64>,
    pub unknown: Option<u64>,
}

impl Default for InputSummary {
    fn default() -> (r: InputSummary)
        ensures
            r.content_addressed is None,
            r.input_addressed is None,
            r.unknown is None,
    {
        InputSummary { content_addressed: None, input_addressed: None, unknown: None }
    }
}

/// The derivation identities that were seen.
#[derive(Clone, Debug)]
pub struct DerivationSummary {
    pub unresolved: Option<String>,
    pub resolved: Option<String>,
    pub output_name: Option<String>,
}

/// What the build trace showed.
#[derive(Clone, Debug)]
pub struct TraceSummary {
    pub status: String,
    pub out_path: Option<String>,
    pub signers: Vec<String>,
    pub signature_count: usize,
}

/// The versioned result of one policy evaluation.
#[derive(Clone, Debug)]
pub struct ResultEnvelope {
    pub schema: &'static str,
    pub installable: String,
    pub decision: Decision,
    pub action: Action,
    pub nix_version: Option<String>,
    pub derivation: DerivationSummary,
    pub trace: TraceSummary,
    pub inputs: InputSummary,
    pub diagnostics: Vec<String>,
}

} // verus!
