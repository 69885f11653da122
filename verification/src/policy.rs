//! The policy engine: from a build-trace query to a decision.

use vstd::prelude::*;

use crate::config::{Config, IaMode};
use crate::nix::{Evaluation, TraceQuery, TrustEvidence};
use crate::text::{
    owned,
    decimal, decimal_chars, holds_string, insert_sorted, push_all, push_str, string_of,
    strictly_sorted, view_set, views,
};
use crate::trace::{normalize_store_path, normalized_store_path, TraceEntry, TraceRecords};
use crate::types::{
    Action, Decision, DerivationSummary, ExitCode, InputSummary, ResultEnvelope, TraceSummary,
};

verus! {

broadcast use vstd::seq_lib::group_seq_properties;

/// The report of one evaluation and the exit code it implies.
pub struct PolicyResult {
    pub report: ResultEnvelope,
    pub exit_code: ExitCode,
}

// ---------------------------------------------------------------------------
// The model of the decision
// ---------------------------------------------------------------------------

/// The names of the keys that signed `entry`.
pub open spec fn signer_names(entry: TraceEntry) -> Set<Seq<char>> {
    Set::new(
        |n: Seq<char>|
            exists|k: int|
                0 <= k < entry.value.signatures@.len() && entry.value.signatures@[k].key_name@ == n,
    )
}

/// The key names that the configuration accepts.
pub open spec fn accepted_names(config: Config) -> Set<Seq<char>> {
    view_set(config.trust.accepted_key_names@)
}

/// The accepted keys among those that signed `entry`, each counted once.
pub open spec fn accepted_signers(config: Config, entry: TraceEntry) -> Set<Seq<char>> {
    signer_names(entry).intersect(accepted_names(config))
}

/// Whether `entry` carries as many accepted signatures as the policy requires.
pub open spec fn entry_trusted(config: Config, entry: TraceEntry) -> bool {
    accepted_signers(config, entry).len() >= config.trust.required_signatures
}

/// Whether two entries are for the same resolved derivation output. Store
/// paths are compared as normalized: a cache path may omit `/nix/store/`.
pub open spec fn same_key(a: TraceEntry, b: TraceEntry) -> bool {
    &&& normalized_store_path(a.key.drv_path@) == normalized_store_path(b.key.drv_path@)
    &&& a.key.output_name@ == b.key.output_name@
}

/// Whether two entries name different output paths, compared as normalized.
pub open spec fn different_outputs(a: TraceEntry, b: TraceEntry) -> bool {
    normalized_store_path(a.value.out_path@) != normalized_store_path(b.value.out_path@)
}

/// Whether one resolved derivation output maps to two different output paths.
pub open spec fn has_conflict(entries: Seq<TraceEntry>) -> bool {
    exists|i: int, j: int|
        0 <= i < entries.len() && 0 <= j < entries.len() && same_key(entries[i], entries[j])
            && different_outputs(entries[i], entries[j])
}

/// The first entry at or after `from` that is not trusted.
pub open spec fn first_untrusted(config: Config, entries: Seq<TraceEntry>, from: int) -> Option<int>
    decreases entries.len() - from,
{
    if from < 0 || from >= entries.len() {
        None
    } else if !entry_trusted(config, entries[from]) {
        Some(from)
    } else {
        first_untrusted(config, entries, from + 1)
    }
}

/// How found trace records are classified, in the order the checks are made.
#[derive(Clone, Copy, Debug, PartialEq, Eq, Structural)]
pub enum Finding {
    /// No base entry at all.
    Empty,
    /// One derivation output with two output paths.
    Conflicting,
    /// Records from a store whose signatures Nix did not validate.
    Remote,
    /// The entry at this index lacks accepted signatures.
    Untrusted(usize),
    /// Every entry carries enough accepted signatures.
    Trusted,
}

pub open spec fn finding(config: Config, records: TraceRecords, evidence: TrustEvidence) -> Finding {
    let entries = records.entries@;
    if entries.len() == 0 {
        Finding::Empty
    } else if has_conflict(entries) {
        Finding::Conflicting
    } else if evidence == TrustEvidence::UnverifiedRemote {
        Finding::Remote
    } else if first_untrusted(config, entries, 0) is Some {
        Finding::Untrusted(first_untrusted(config, entries, 0)->0 as usize)
    } else {
        Finding::Trusted
    }
}

pub open spec fn conflict_message() -> Seq<char> {
    "one resolved derivation output maps to multiple output paths"@
}

pub open spec fn remote_message() -> Seq<char> {
    "Nix 2.35 build-trace info exposes remote signatures without validating them; remote skip is unsupported"@
}

pub open spec fn deny_message() -> Seq<char> {
    "input-addressed dependency classification is unavailable; deny mode fails closed"@
}

pub open spec fn warn_message() -> Seq<char> {
    "input-addressed dependency counts are unavailable through the Nix 2.35 CLI"@
}

pub open spec fn allow_trusted_message() -> Seq<char> {
    "allow-trusted IA classification is unavailable through the Nix 2.35 CLI"@
}

/// The note on a base entry without enough accepted signers.
pub open spec fn untrusted_message(config: Config, entry: TraceEntry) -> Seq<char> {
    "base trace "@ + entry.key.drv_path@ + "^"@ + entry.key.output_name@ + " has "@ + decimal(
        accepted_signers(config, entry).len(),
    ) + " accepted signer(s); policy requires "@ + decimal(
        config.trust.required_signatures as nat,
    )
}

/// The decision on found records.
pub open spec fn found_decision(config: Config, f: Finding) -> Decision {
    match f {
        Finding::Empty => Decision::Miss,
        Finding::Conflicting => Decision::Conflict,
        Finding::Remote => Decision::Unsupported,
        Finding::Untrusted(_) => Decision::Untrusted,
        Finding::Trusted => match config.trust.ia_mode {
            IaMode::Warn => Decision::AcceptedWithIaTrust,
            _ => Decision::Unsupported,
        },
    }
}

pub open spec fn found_action(config: Config, f: Finding) -> Action {
    match f {
        Finding::Empty => Action::Build,
        Finding::Trusted => match config.trust.ia_mode {
            IaMode::Warn => Action::Skip,
            _ => Action::Fail,
        },
        _ => Action::Fail,
    }
}

pub open spec fn found_exit(config: Config, f: Finding) -> ExitCode {
    match f {
        Finding::Empty => ExitCode::Miss,
        Finding::Conflicting => ExitCode::Conflict,
        Finding::Remote => ExitCode::Unsupported,
        Finding::Untrusted(_) => ExitCode::Untrusted,
        Finding::Trusted => match config.trust.ia_mode {
            IaMode::Deny => ExitCode::IaRejected,
            IaMode::Warn => ExitCode::Accepted,
            IaMode::AllowTrusted => ExitCode::Unsupported,
        },
    }
}

pub open spec fn found_status(f: Finding) -> Seq<char> {
    match f {
        Finding::Empty => "missing"@,
        Finding::Conflicting => "conflict"@,
        Finding::Remote => "found-unverified"@,
        Finding::Untrusted(_) => "untrusted"@,
        Finding::Trusted => "found"@,
    }
}

pub open spec fn found_diagnostics(config: Config, records: TraceRecords, f: Finding) -> Seq<Seq<char>> {
    match f {
        Finding::Empty => Seq::empty(),
        Finding::Conflicting => seq![conflict_message()],
        Finding::Remote => seq![remote_message()],
        Finding::Untrusted(i) => seq![untrusted_message(config, records.entries@[i as int])],
        Finding::Trusted => match config.trust.ia_mode {
            IaMode::Deny => seq![deny_message()],
            IaMode::Warn => seq![warn_message()],
            IaMode::AllowTrusted => seq![allow_trusted_message()],
        },
    }
}

/// Whether the finding reached the last entry's identity (no conflict, local).
pub open spec fn found_resolved(f: Finding) -> bool {
    f is Untrusted || f is Trusted
}

pub open spec fn spec_decision(config: Config, query: TraceQuery) -> Decision {
    match query {
        TraceQuery::Miss(_) => Decision::Miss,
        TraceQuery::Untrusted(_) => Decision::Untrusted,
        TraceQuery::Failed(_) => Decision::Error,
        TraceQuery::Found { records, evidence } => found_decision(config, finding(config, records, evidence)),
    }
}

pub open spec fn spec_action(config: Config, query: TraceQuery) -> Action {
    match query {
        TraceQuery::Miss(_) => Action::Build,
        TraceQuery::Untrusted(_) => Action::Fail,
        TraceQuery::Failed(_) => Action::Fail,
        TraceQuery::Found { records, evidence } => found_action(config, finding(config, records, evidence)),
    }
}

pub open spec fn spec_exit(config: Config, query: TraceQuery) -> ExitCode {
    match query {
        TraceQuery::Miss(_) => ExitCode::Miss,
        TraceQuery::Untrusted(_) => ExitCode::Untrusted,
        TraceQuery::Failed(_) => ExitCode::Internal,
        TraceQuery::Found { records, evidence } => found_exit(config, finding(config, records, evidence)),
    }
}

pub open spec fn spec_status(config: Config, query: TraceQuery) -> Seq<char> {
    match query {
        TraceQuery::Miss(_) => "missing"@,
        TraceQuery::Untrusted(_) => "untrusted"@,
        TraceQuery::Failed(_) => "error"@,
        TraceQuery::Found { records, evidence } => found_status(finding(config, records, evidence)),
    }
}

pub open spec fn spec_diagnostics(config: Config, query: TraceQuery) -> Seq<Seq<char>> {
    match query {
        TraceQuery::Miss(d) => seq![d@],
        TraceQuery::Untrusted(d) => seq![d@],
        TraceQuery::Failed(d) => seq![d@],
        TraceQuery::Found { records, evidence } => found_diagnostics(
            config,
            records,
            finding(config, records, evidence),
        ),
    }
}

/// The last base entry, whose identity the report shows, where the records
/// were found, local, free of conflict and not empty.
pub open spec fn resolved_entry(config: Config, query: TraceQuery) -> Option<TraceEntry> {
    match query {
        TraceQuery::Found { records, evidence } => if found_resolved(
            finding(config, records, evidence),
        ) {
            Some(records.entries@.last())
        } else {
            None
        },
        _ => None,
    }
}

/// The accepted signers that the report lists: those of the last entry, where
/// every entry was trusted.
pub open spec fn reported_signers(config: Config, query: TraceQuery) -> Set<Seq<char>> {
    match query {
        TraceQuery::Found { records, evidence } => if finding(config, records, evidence)
            is Trusted {
            accepted_signers(config, records.entries@.last())
        } else {
            Set::empty()
        },
        _ => Set::empty(),
    }
}

pub open spec fn result_schema() -> Seq<char> {
    "dev.closurelabs.once/result/v1"@
}

pub open spec fn opt_view(o: Option<String>) -> Option<Seq<char>> {
    match o {
        Some(s) => Some(s@),
        None => None,
    }
}

/// What every report of an evaluation holds before the trace is classified.
pub open spec fn report_base(
    report: ResultEnvelope,
    installable: Seq<char>,
    nix_version: Option<Seq<char>>,
    evaluation: Evaluation,
) -> bool {
    &&& report.schema@ == result_schema()
    &&& report.installable@ == installable
    &&& opt_view(report.nix_version) == nix_version
    &&& opt_view(report.derivation.unresolved) == opt_view(evaluation.unresolved_drv)
    &&& report.inputs.content_addressed is None
    &&& report.inputs.input_addressed is None
    &&& report.inputs.unknown is None
}

/// What the report of an evaluation shows beside the decision, the action
/// and the exit code.
pub open spec fn report_shows(
    config: Config,
    installable: Seq<char>,
    nix_version: Option<Seq<char>>,
    evaluation: Evaluation,
    query: TraceQuery,
    report: ResultEnvelope,
) -> bool {
    &&& report_base(report, installable, nix_version, evaluation)
    &&& report.trace.status@ == spec_status(config, query)
    &&& views(report.diagnostics@) == spec_diagnostics(config, query)
    &&& match resolved_entry(config, query) {
        Some(e) => {
            &&& opt_view(report.derivation.resolved) == Some(normalized_store_path(e.key.drv_path@))
            &&& opt_view(report.derivation.output_name) == Some(e.key.output_name@)
            &&& opt_view(report.trace.out_path) == Some(normalized_store_path(e.value.out_path@))
        },
        None => {
            &&& report.derivation.resolved is None
            &&& report.derivation.output_name is None
            &&& report.trace.out_path is None
        },
    }
    &&& strictly_sorted(views(report.trace.signers@))
    &&& view_set(report.trace.signers@) == reported_signers(config, query)
    &&& report.trace.signature_count == report.trace.signers@.len()
}

/// The complete meaning of `evaluate`.
pub open spec fn evaluated(
    config: Config,
    installable: Seq<char>,
    nix_version: Option<Seq<char>>,
    evaluation: Evaluation,
    query: TraceQuery,
    result: PolicyResult,
) -> bool {
    &&& report_shows(config, installable, nix_version, evaluation, query, result.report)
    &&& result.report.decision == spec_decision(config, query)
    &&& result.report.action == spec_action(config, query)
    &&& result.exit_code == spec_exit(config, query)
}

// ---------------------------------------------------------------------------
// The engine
// ---------------------------------------------------------------------------

/// Turns one trace query into a report and an exit code.
pub fn evaluate(
    config: &Config,
    installable: &str,
    nix_version: Option<String>,
    evaluation: Evaluation,
    query: TraceQuery,
) -> (r: PolicyResult)
    ensures
        evaluated(*config, installable@, opt_view(nix_version), evaluation, query, r),
{
    let ghost q = query;
    let mut report = empty_report(installable, nix_version, evaluation);
    let exit_code = match query {
        TraceQuery::Miss(diagnostic) => {
            report.decision = Decision::Miss;
            report.action = Action::Build;
            report.trace.status = owned("missing");
            report.diagnostics.push(diagnostic);
            ExitCode::Miss
        },
        TraceQuery::Untrusted(diagnostic) => {
            report.decision = Decision::Untrusted;
            report.trace.status = owned("untrusted");
            report.diagnostics.push(diagnostic);
            ExitCode::Untrusted
        },
        TraceQuery::Failed(diagnostic) => {
            report.decision = Decision::Error;
            report.trace.status = owned("error");
            report.diagnostics.push(diagnostic);
            ExitCode::Internal
        },
        TraceQuery::Found { records, evidence } => {
            classify_found(config, &mut report, records, evidence)
        },
    };
    let r = PolicyResult { report, exit_code };
    proof {
        if !(q is Found) {
            assert(views(r.report.diagnostics@) =~= spec_diagnostics(*config, q));
            assert(view_set(r.report.trace.signers@) =~= Set::<Seq<char>>::empty());
        }
    }
    r
}

/// A report that has not yet seen the trace: decision `ERROR`, action `FAIL`.
pub open spec fn fresh_report(report: ResultEnvelope) -> bool {
    &&& report.decision == Decision::Error
    &&& report.action == Action::Fail
    &&& report.derivation.resolved is None
    &&& report.derivation.output_name is None
    &&& report.trace.status@ == "unknown"@
    &&& report.trace.out_path is None
    &&& report.trace.signers@.len() == 0
    &&& report.trace.signature_count == 0
    &&& report.diagnostics@.len() == 0
}

fn empty_report(installable: &str, nix_version: Option<String>, evaluation: Evaluation) -> (r:
    ResultEnvelope)
    ensures
        report_base(r, installable@, opt_view(nix_version), evaluation),
        fresh_report(r),
{
    let schema = "dev.closurelabs.once/result/v1";
    ResultEnvelope {
        schema,
        installable: owned(installable),
        decision: Decision::Error,
        action: Action::Fail,
        nix_version,
        derivation: DerivationSummary {
            unresolved: evaluation.unresolved_drv,
            resolved: None,
            output_name: None,
        },
        trace: TraceSummary {
            status: owned("unknown"),
            out_path: None,
            signers: Vec::new(),
            signature_count: 0,
        },
        inputs: InputSummary { content_addressed: None, input_addressed: None, unknown: None },
        diagnostics: Vec::new(),
    }
}

/// Whether two entries share a derivation output but not the output path.
fn conflicting_pair(a: &TraceEntry, b: &TraceEntry) -> (r: bool)
    ensures
        r == (same_key(*a, *b) && different_outputs(*a, *b)),
{
    let a_drv = normalize_store_path(a.key.drv_path.as_str());
    let b_drv = normalize_store_path(b.key.drv_path.as_str());
    let a_out = normalize_store_path(a.value.out_path.as_str());
    let b_out = normalize_store_path(b.value.out_path.as_str());
    a_drv == b_drv && a.key.output_name == b.key.output_name && !(a_out == b_out)
}

fn find_conflict(entries: &Vec<TraceEntry>) -> (r: bool)
    ensures
        r == has_conflict(entries@),
{
    let mut i: usize = 0;
    while i < entries.len()
        invariant
            i <= entries.len(),
            forall|a: int, b: int|
                0 <= a < i && 0 <= b < entries@.len() ==> !(same_key(entries@[a], entries@[b])
                    && different_outputs(entries@[a], entries@[b])),
        decreases entries.len() - i,
    {
        let mut j: usize = 0;
        while j < entries.len()
            invariant
                i < entries.len(),
                j <= entries.len(),
                forall|a: int, b: int|
                    0 <= a < i && 0 <= b < entries@.len() ==> !(same_key(entries@[a], entries@[b])
                        && different_outputs(entries@[a], entries@[b])),
                forall|b: int|
                    0 <= b < j ==> !(same_key(entries@[i as int], entries@[b])
                        && different_outputs(entries@[i as int], entries@[b])),
            decreases entries.len() - j,
        {
            if conflicting_pair(&entries[i], &entries[j]) {
                return true;
            }
            j = j + 1;
        }
        i = i + 1;
    }
    false
}

/// Whether one of the first `i` signatures is by the key named `n`.
pub open spec fn signed_before(signatures: Seq<crate::trace::Signature>, n: Seq<char>, i: int) -> bool {
    exists|k: int| 0 <= k < i && signatures[k].key_name@ == n
}

/// The accepted keys that signed `entry`, each once, in order of first signature.
fn accepted_signer_list(config: &Config, entry: &TraceEntry) -> (r: Vec<String>)
    ensures
        views(r@).no_duplicates(),
        view_set(r@) == accepted_signers(*config, *entry),
        accepted_signers(*config, *entry).finite(),
        accepted_signers(*config, *entry).len() == r@.len(),
{
    let signatures = &entry.value.signatures;
    let accepted = &config.trust.accepted_key_names;
    let mut r: Vec<String> = Vec::new();
    let mut i: usize = 0;
    while i < signatures.len()
        invariant
            signatures == &entry.value.signatures,
            accepted == &config.trust.accepted_key_names,
            i <= signatures.len(),
            views(r@).no_duplicates(),
            forall|n: Seq<char>|
                #[trigger] view_set(r@).contains(n) <==> (accepted_names(*config).contains(n)
                    && signed_before(signatures@, n, i as int)),
        decreases signatures.len() - i,
    {
        let name = &signatures[i].key_name;
        let in_accepted = holds_string(accepted, name);
        let seen = holds_string(&r, name);
        let ghost before = r@;
        if in_accepted && !seen {
            r.push(name.clone());
        }
        proof {
            if in_accepted && !seen {
                assert forall|a: int, b: int| 0 <= a < b < views(r@).len() implies views(r@)[a] != views(r@)[b] by {
                    if b == r@.len() - 1 {
                        assert(views(r@)[b] == name@);
                        assert(views(before)[a] == views(r@)[a]);
                        if views(r@)[a] == name@ {
                            assert(view_set(before).contains(name@));
                        }
                    } else {
                        assert(views(before)[a] == views(r@)[a]);
                        assert(views(before)[b] == views(r@)[b]);
                    }
                }
            }
            assert forall|n: Seq<char>| #[trigger] view_set(r@).contains(n) <==> (accepted_names(*config).contains(n) && signed_before(signatures@, n, i + 1)) by {
                if view_set(r@).contains(n) {
                    let k = choose|k: int| 0 <= k < r@.len() && r@[k]@ == n;
                    if k < before.len() {
                        assert(before[k] == r@[k]);
                        assert(view_set(before).contains(n));
                    } else {
                        assert(n == name@);
                        assert(signatures@[i as int].key_name@ == n);
                    }
                }
                if accepted_names(*config).contains(n) && signed_before(signatures@, n, i + 1) {
                    let k = choose|k: int| 0 <= k < i + 1 && signatures@[k].key_name@ == n;
                    if k < i {
                        assert(signed_before(signatures@, n, i as int));
                        assert(view_set(before).contains(n));
                        let m = choose|m: int| 0 <= m < before.len() && before[m]@ == n;
                        assert(r@[m] == before[m]);
                    } else {
                        assert(n == name@);
                        if seen {
                            let m = choose|m: int| 0 <= m < before.len() && before[m]@ == n;
                            assert(r@[m] == before[m]);
                        } else {
                            assert(r@[r@.len() - 1]@ == n);
                        }
                    }
                }
            }
        }
        i = i + 1;
    }
    proof {
        assert forall|n: Seq<char>| view_set(r@).contains(n) <==> accepted_signers(*config, *entry).contains(n) by {
            if view_set(r@).contains(n) {
                assert(signed_before(signatures@, n, i as int));
                let k = choose|k: int| 0 <= k < i && signatures@[k].key_name@ == n;
                assert(signer_names(*entry).contains(n));
            }
            if accepted_signers(*config, *entry).contains(n) {
                assert(signer_names(*entry).contains(n));
                let k = choose|k: int| 0 <= k < entry.value.signatures@.len() && entry.value.signatures@[k].key_name@ == n;
                assert(signed_before(signatures@, n, i as int));
            }
        }
        assert(view_set(r@) =~= accepted_signers(*config, *entry));
        assert forall|n: Seq<char>| views(r@).to_set().contains(n) <==> view_set(r@).contains(n) by {
            if views(r@).contains(n) {
                let k = choose|k: int| 0 <= k < views(r@).len() && views(r@)[k] == n;
                assert(r@[k]@ == n);
            }
            if view_set(r@).contains(n) {
                let k = choose|k: int| 0 <= k < r@.len() && r@[k]@ == n;
                assert(views(r@)[k] == n);
            }
        }
        assert(views(r@).to_set() =~= view_set(r@));
        views(r@).unique_seq_to_set();
        vstd::seq_lib::seq_to_set_is_finite(views(r@));
    }
    r
}

fn untrusted_note(config: &Config, entry: &TraceEntry, count: usize) -> (r: String)
    requires
        count == accepted_signers(*config, *entry).len(),
    ensures
        r@ == untrusted_message(*config, *entry),
{
    let mut msg: Vec<char> = Vec::new();
    push_str(&mut msg, "base trace ");
    push_str(&mut msg, entry.key.drv_path.as_str());
    push_str(&mut msg, "^");
    push_str(&mut msg, entry.key.output_name.as_str());
    push_str(&mut msg, " has ");
    let n = decimal_chars(count as u64);
    push_all(&mut msg, &n);
    push_str(&mut msg, " accepted signer(s); policy requires ");
    let m = decimal_chars(config.trust.required_signatures as u64);
    push_all(&mut msg, &m);
    string_of(&msg)
}

/// Every entry from `from` on is trusted when none of them is untrusted.
pub proof fn lemma_first_untrusted_none(config: Config, entries: Seq<TraceEntry>, from: int)
    requires
        0 <= from,
        first_untrusted(config, entries, from) is None,
    ensures
        forall|i: int| from <= i < entries.len() ==> entry_trusted(config, #[trigger] entries[i]),
    decreases entries.len() - from,
{
    if from < entries.len() {
        lemma_first_untrusted_none(config, entries, from + 1);
    }
}

/// Classifies found records into a fresh report and returns the exit code.
#[verifier::loop_isolation(false)]
pub fn classify_found(
    config: &Config,
    report: &mut ResultEnvelope,
    records: TraceRecords,
    evidence: TrustEvidence,
) -> (exit: ExitCode)
    requires
        fresh_report(*old(report)),
    ensures
        ({
            let f = finding(*config, records, evidence);
            let rep = *final(report);
            &&& rep.schema == old(report).schema
            &&& rep.installable == old(report).installable
            &&& rep.nix_version == old(report).nix_version
            &&& rep.derivation.unresolved == old(report).derivation.unresolved
            &&& rep.inputs == old(report).inputs
            &&& rep.decision == found_decision(*config, f)
            &&& rep.action == found_action(*config, f)
            &&& exit == found_exit(*config, f)
            &&& rep.trace.status@ == found_status(f)
            &&& views(rep.diagnostics@) == found_diagnostics(*config, records, f)
            &&& if found_resolved(f) {
                let e = records.entries@.last();
                &&& opt_view(rep.derivation.resolved) == Some(normalized_store_path(e.key.drv_path@))
                &&& opt_view(rep.derivation.output_name) == Some(e.key.output_name@)
                &&& opt_view(rep.trace.out_path) == Some(normalized_store_path(e.value.out_path@))
            } else {
                &&& rep.derivation.resolved is None
                &&& rep.derivation.output_name is None
                &&& rep.trace.out_path is None
            }
            &&& strictly_sorted(views(rep.trace.signers@))
            &&& view_set(rep.trace.signers@) == (if f is Trusted {
                accepted_signers(*config, records.entries@.last())
            } else {
                Set::<Seq<char>>::empty()
            })
            &&& rep.trace.signature_count == rep.trace.signers@.len()
        }),
        // Skipping is permitted only on local, non-empty, conflict-free
        // records whose every entry is trusted, in warn mode; the reported
        // signers are all accepted keys.
        exit == ExitCode::Accepted ==> {
            &&& evidence == TrustEvidence::LocalStore
            &&& records.entries@.len() > 0
            &&& !has_conflict(records.entries@)
            &&& config.trust.ia_mode == IaMode::Warn
            &&& forall|i: int| 0 <= i < records.entries@.len() ==> entry_trusted(*config, #[trigger] records.entries@[i])
        },
        forall|k: int| 0 <= k < final(report).trace.signers@.len()
            ==> accepted_names(*config).contains(#[trigger] final(report).trace.signers@[k]@),
{
    let ghost f = finding(*config, records, evidence);
    proof {
        assert(view_set(report.trace.signers@) =~= Set::<Seq<char>>::empty());
    }
    if records.entries.len() == 0 {
        report.decision = Decision::Miss;
        report.action = Action::Build;
        report.trace.status = owned("missing");
        proof {
            assert(views(report.diagnostics@) =~= Seq::<Seq<char>>::empty());
        }
        return ExitCode::Miss;
    }
    if find_conflict(&records.entries) {
        report.decision = Decision::Conflict;
        report.trace.status = owned("conflict");
        report.diagnostics.push(owned("one resolved derivation output maps to multiple output paths"));
        proof {
            assert(views(report.diagnostics@) =~= seq![conflict_message()]);
        }
        return ExitCode::Conflict;
    }
    if evidence == TrustEvidence::UnverifiedRemote {
        report.decision = Decision::Unsupported;
        report.trace.status = owned("found-unverified");
        report.diagnostics.push(
            owned(
                "Nix 2.35 build-trace info exposes remote signatures without validating them; remote skip is unsupported",
            ),
        );
        proof {
            assert(views(report.diagnostics@) =~= seq![remote_message()]);
        }
        return ExitCode::Unsupported;
    }
    let last = records.entries.len() - 1;
    let entry = &records.entries[last];
    report.derivation.resolved = Some(normalize_store_path(entry.key.drv_path.as_str()));
    report.derivation.output_name = Some(entry.key.output_name.clone());
    report.trace.out_path = Some(normalize_store_path(entry.value.out_path.as_str()));
    let ghost rep0 = *report;
    let mut i: usize = 0;
    while i < records.entries.len()
        invariant
            *report == rep0,
            i <= records.entries.len(),
            records.entries@.len() > 0,
            first_untrusted(*config, records.entries@, 0) == first_untrusted(
                *config,
                records.entries@,
                i as int,
            ),
            report.decision == Decision::Error,
            report.action == Action::Fail,
            report.diagnostics@.len() == 0,
            report.trace.signers@.len() == 0,
        decreases records.entries.len() - i,
    {
        let base_entry = &records.entries[i];
        let accepted = accepted_signer_list(config, base_entry);
        let accepted_count = accepted.len();
        if accepted_count < config.trust.required_signatures {
            report.decision = Decision::Untrusted;
            report.trace.status = owned("untrusted");
            let note = untrusted_note(config, base_entry, accepted_count);
            report.diagnostics.push(note);
            proof {
                assert(f == Finding::Untrusted(i));
                assert(views(report.diagnostics@) =~= seq![untrusted_message(*config, records.entries@[i as int])]);
            }
            return ExitCode::Untrusted;
        }
        i = i + 1;
    }
    assert(f == Finding::Trusted);
    proof {
        lemma_first_untrusted_none(*config, records.entries@, 0);
    }
    let accepted = accepted_signer_list(config, entry);
    let mut signers: Vec<String> = Vec::new();
    let mut k: usize = 0;
    while k < accepted.len()
        invariant
            k <= accepted.len(),
            strictly_sorted(views(signers@)),
            forall|n: Seq<char>| view_set(signers@).contains(n) <==> exists|m: int| 0 <= m < k && accepted@[m]@ == n,
        decreases accepted.len() - k,
    {
        let ghost before = signers@;
        insert_sorted(&mut signers, accepted[k].clone());
        proof {
            assert forall|n: Seq<char>| view_set(signers@).contains(n) <==> exists|m: int| 0 <= m < k + 1 && accepted@[m]@ == n by {
                if exists|m: int| 0 <= m < k + 1 && accepted@[m]@ == n {
                    let m = choose|m: int| 0 <= m < k + 1 && accepted@[m]@ == n;
                    if m < k {
                        assert(view_set(before).contains(n));
                    }
                }
            }
        }
        k = k + 1;
    }
    proof {
        assert(view_set(signers@) =~= view_set(accepted@));
        assert forall|k: int| 0 <= k < signers@.len() implies accepted_names(*config).contains(#[trigger] signers@[k]@) by {
            assert(view_set(signers@).contains(signers@[k]@));
        }
    }
    let count = signers.len();
    report.trace.signers = signers;
    report.trace.signature_count = count;
    report.trace.status = owned("found");
    report.action = Action::Skip;
    match config.trust.ia_mode {
        IaMode::Deny => {
            report.decision = Decision::Unsupported;
            report.action = Action::Fail;
            report.diagnostics.push(
                owned("input-addressed dependency classification is unavailable; deny mode fails closed"),
            );
            proof {
                assert(views(report.diagnostics@) =~= seq![deny_message()]);
            }
            ExitCode::IaRejected
        },
        IaMode::Warn => {
            report.decision = Decision::AcceptedWithIaTrust;
            report.diagnostics.push(
                owned("input-addressed dependency counts are unavailable through the Nix 2.35 CLI"),
            );
            proof {
                assert(views(report.diagnostics@) =~= seq![warn_message()]);
            }
            ExitCode::Accepted
        },
        IaMode::AllowTrusted => {
            report.decision = Decision::Unsupported;
            report.action = Action::Fail;
            report.diagnostics.push(
                owned("allow-trusted IA classification is unavailable through the Nix 2.35 CLI"),
            );
            proof {
                assert(views(report.diagnostics@) =~= seq![allow_trusted_message()]);
            }
            ExitCode::Unsupported
        },
    }
}

} // verus!
