//! Properties of the library as a whole.

use vstd::prelude::*;

use crate::config::{Config, IaMode};
use crate::config::config_violation;
use crate::nix::{
    failure_query, is_full_revision, pins_revision, reference_problem, spec_evidence, NixAdapter,
    TraceQuery, TrustEvidence,
};
use crate::policy::{
    entry_trusted, has_conflict, lemma_first_untrusted_none, spec_action, spec_decision, spec_exit,
};
use crate::report::{join, note_lines, result_lines};
use crate::text::{contains, is_ascii_hex, lower_seq, split_on, starts_with, trim, views};
use crate::trace::{normalized_store_path, TraceRecords};
use crate::types::{Action, Decision, ExitCode, ResultEnvelope};

verus! {

/// Normalizing a store path twice changes nothing, and a normalized path is
/// absolute.
pub proof fn law_normalize_idempotent(path: Seq<char>)
    ensures
        normalized_store_path(normalized_store_path(path)) == normalized_store_path(path),
        normalized_store_path(path).len() > 0,
        normalized_store_path(path)[0] == '/',
{
}

/// A check exits with the accepted code exactly when its decision lets the
/// caller skip the work.
pub proof fn law_accepted_exit_iff_skippable(config: Config, query: TraceQuery)
    ensures
        (spec_exit(config, query) == ExitCode::Accepted) <==> spec_decision(config, query).spec_may_skip(),
{
}

/// The action is `SKIP` exactly when the decision lets the caller skip, and
/// `BUILD` exactly when the decision is a miss.
pub proof fn law_action_follows_decision(config: Config, query: TraceQuery)
    ensures
        (spec_action(config, query) == Action::Skip) <==> spec_decision(config, query).spec_may_skip(),
        (spec_action(config, query) == Action::Build) <==> spec_decision(config, query) == Decision::Miss,
{
}

/// Work may be skipped only on records found in the trusted local store, not
/// empty, free of conflicting output paths, every base entry carrying the
/// required number of accepted signers, and with input-addressed dependencies
/// in `warn` mode. Remote trace hits and signer names alone never suffice.
pub proof fn law_acceptance_requires_trust(config: Config, query: TraceQuery)
    requires
        spec_decision(config, query).spec_may_skip(),
    ensures
        query is Found,
        query->evidence == TrustEvidence::LocalStore,
        query->records.entries@.len() > 0,
        !has_conflict(query->records.entries@),
        forall|i: int|
            0 <= i < query->records.entries@.len() ==> entry_trusted(
                config,
                #[trigger] query->records.entries@[i],
            ),
        config.trust.ia_mode == IaMode::Warn,
{
    lemma_first_untrusted_none(config, query->records.entries@, 0);
}

/// Whether one of the entry's signatures is by a key that the configuration
/// names.
pub open spec fn signed_by_named_key(config: Config, entry: crate::trace::TraceEntry) -> bool {
    exists|k: int, m: int|
        0 <= k < entry.value.signatures@.len() && 0 <= m < config.trust.accepted_key_names@.len()
            && entry.value.signatures@[k].key_name@ == config.trust.accepted_key_names@[m]@
}

/// Work may be skipped only when every base entry carries a signature by a
/// key that the configuration names, with local evidence and in warn mode:
/// signatures by other keys never suffice.
pub proof fn law_acceptance_needs_accepted_keys(config: Config, query: TraceQuery)
    requires
        spec_decision(config, query).spec_may_skip(),
        config.trust.required_signatures >= 1,
    ensures
        query is Found,
        query->evidence == TrustEvidence::LocalStore,
        query->records.entries@.len() > 0,
        forall|i: int| 0 <= i < query->records.entries@.len() ==> signed_by_named_key(config, #[trigger] query->records.entries@[i]),
        config.trust.ia_mode == IaMode::Warn,
{
    law_acceptance_requires_trust(config, query);
    assert forall|i: int| 0 <= i < query->records.entries@.len() implies signed_by_named_key(config, #[trigger] query->records.entries@[i]) by {
        let e = query->records.entries@[i];
        assert(entry_trusted(config, e));
        let signers = crate::policy::accepted_signers(config, e);
        if signers =~= Set::<Seq<char>>::empty() {
            assert(signers.len() == 0);
        }
        let n = choose|n: Seq<char>| signers.contains(n);
        assert(crate::policy::signer_names(e).contains(n));
        assert(crate::policy::accepted_names(config).contains(n));
        let k = choose|k: int| 0 <= k < e.value.signatures@.len() && e.value.signatures@[k].key_name@ == n;
        let m = choose|m: int| 0 <= m < config.trust.accepted_key_names@.len() && config.trust.accepted_key_names@[m]@ == n;
        assert(e.value.signatures@[k].key_name@ == config.trust.accepted_key_names@[m]@);
    }
}

/// Records from a store whose signatures Nix did not validate are never
/// accepted.
pub proof fn law_remote_never_accepted(config: Config, query: TraceQuery)
    requires
        query matches TraceQuery::Found { evidence, .. } && evidence == TrustEvidence::UnverifiedRemote,
    ensures
        !spec_decision(config, query).spec_may_skip(),
{
}

/// One resolved derivation output with two output paths is a conflict.
pub proof fn law_conflict_rejected(config: Config, query: TraceQuery)
    requires
        query matches TraceQuery::Found { records, .. } && has_conflict(records.entries@),
    ensures
        spec_decision(config, query) == Decision::Conflict,
        spec_exit(config, query) == ExitCode::Conflict,
{
}

/// Distinct outcomes have distinct exit codes.
pub proof fn law_exit_codes_distinct(a: ExitCode, b: ExitCode)
    requires
        a.spec_code() == b.spec_code(),
    ensures
        a == b,
{
}

/// Distinct decisions have distinct names.
pub proof fn law_decision_names_distinct(a: Decision, b: Decision)
    requires
        a.name() == b.name(),
    ensures
        a == b,
{
    reveal_strlit("ACCEPTED_CA");
    reveal_strlit("ACCEPTED_WITH_IA_TRUST");
    reveal_strlit("MISS");
    reveal_strlit("UNTRUSTED");
    reveal_strlit("CONFLICT");
    reveal_strlit("UNSUPPORTED");
    reveal_strlit("ERROR");
    assert("ACCEPTED_CA"@.len() == 11 && "ACCEPTED_CA"@[0] == 'A');
    assert("ACCEPTED_WITH_IA_TRUST"@.len() == 22);
    assert("MISS"@.len() == 4);
    assert("UNTRUSTED"@.len() == 9);
    assert("CONFLICT"@.len() == 8);
    assert("UNSUPPORTED"@.len() == 11 && "UNSUPPORTED"@[0] == 'U');
    assert("ERROR"@.len() == 5);
}

/// An accepted policy reference is `github:OWNER/REPO/COMMIT` with the
/// expected full 40-digit commit: branches, tags and abbreviated commits are
/// refused.
pub proof fn law_reference_pins_full_commit(reference: Seq<char>, expected: Seq<char>)
    requires
        reference_problem(reference, expected) is None,
    ensures
        is_full_revision(expected),
        pins_revision(reference, expected),
{
}

// ---------------------------------------------------------------------------
// Conflicts
// ---------------------------------------------------------------------------

/// Entries are keyed by derivation output: records in which no two entries
/// name the same output of the same derivation (derivation paths compared as
/// normalized) are never a conflict, whatever their output paths. In
/// particular the different outputs of one multi-output derivation never
/// conflict.
pub proof fn law_distinct_outputs_never_conflict(config: Config, records: TraceRecords, evidence: TrustEvidence)
    requires
        forall|i: int, j: int|
            0 <= i < records.entries@.len() && 0 <= j < records.entries@.len() && i != j ==> (
            normalized_store_path(#[trigger] records.entries@[i].key.drv_path@) != normalized_store_path(
                #[trigger] records.entries@[j].key.drv_path@,
            ) || records.entries@[i].key.output_name@ != records.entries@[j].key.output_name@),
    ensures
        !has_conflict(records.entries@),
        spec_decision(config, TraceQuery::Found { records, evidence }) != Decision::Conflict,
        spec_exit(config, TraceQuery::Found { records, evidence }) != ExitCode::Conflict,
{
    let entries = records.entries@;
    if has_conflict(entries) {
        let (i, j) = choose|i: int, j: int|
            0 <= i < entries.len() && 0 <= j < entries.len() && crate::policy::same_key(entries[i], entries[j])
                && crate::policy::different_outputs(entries[i], entries[j]);
        assert(i != j);
        assert(entries[i] == records.entries@[i]);
        assert(entries[j] == records.entries@[j]);
    }
}

/// One derivation output with two output paths (all compared as normalized)
/// is a conflict, whatever the evidence and the signers.
pub proof fn law_two_paths_for_one_output_conflict(
    config: Config,
    records: TraceRecords,
    evidence: TrustEvidence,
    i: int,
    j: int,
)
    requires
        0 <= i < records.entries@.len(),
        0 <= j < records.entries@.len(),
        normalized_store_path(records.entries@[i].key.drv_path@) == normalized_store_path(
            records.entries@[j].key.drv_path@,
        ),
        records.entries@[i].key.output_name@ == records.entries@[j].key.output_name@,
        normalized_store_path(records.entries@[i].value.out_path@) != normalized_store_path(
            records.entries@[j].value.out_path@,
        ),
    ensures
        spec_decision(config, TraceQuery::Found { records, evidence }) == Decision::Conflict,
        spec_action(config, TraceQuery::Found { records, evidence }) == Action::Fail,
        spec_exit(config, TraceQuery::Found { records, evidence }) == ExitCode::Conflict,
{
    let entries = records.entries@;
    assert(crate::policy::same_key(entries[i], entries[j]));
    assert(crate::policy::different_outputs(entries[i], entries[j]));
    assert(has_conflict(entries));
}

// ---------------------------------------------------------------------------
// The meaning of a failed build-trace query
// ---------------------------------------------------------------------------

/// A failed build-trace query whose diagnostic (in any case) says that the
/// derivation is unbuilt, has no build trace or has no realization is a miss,
/// which `run` answers with a build.
pub proof fn law_missing_trace_is_a_miss(config: Config, diagnostic: Seq<char>, q: TraceQuery)
    requires
        failure_query(diagnostic, q),
        contains(lower_seq(diagnostic), "unbuilt derivation"@) || contains(lower_seq(diagnostic), "no build trace"@)
            || contains(lower_seq(diagnostic), "does not have a realization"@),
    ensures
        q matches TraceQuery::Miss(d) && d@ == diagnostic,
        spec_decision(config, q) == Decision::Miss,
        spec_action(config, q) == Action::Build,
        spec_exit(config, q) == ExitCode::Miss,
{
}

/// A failed query that reports no miss but an untrusted or unsigned trace,
/// or an invalid signature, is untrusted; any other failure is an error.
pub proof fn law_failed_trace_classification(config: Config, diagnostic: Seq<char>, q: TraceQuery)
    requires
        failure_query(diagnostic, q),
        !contains(lower_seq(diagnostic), "unbuilt derivation"@),
        !contains(lower_seq(diagnostic), "no build trace"@),
        !contains(lower_seq(diagnostic), "does not have a realization"@),
    ensures
        (contains(lower_seq(diagnostic), "untrusted"@) || contains(lower_seq(diagnostic), "not signed"@)
            || (contains(lower_seq(diagnostic), "signature"@) && contains(lower_seq(diagnostic), "invalid"@)))
            ==> (q matches TraceQuery::Untrusted(d) && d@ == diagnostic && spec_exit(config, q) == ExitCode::Untrusted),
        !(contains(lower_seq(diagnostic), "untrusted"@) || contains(lower_seq(diagnostic), "not signed"@)
            || (contains(lower_seq(diagnostic), "signature"@) && contains(lower_seq(diagnostic), "invalid"@)))
            ==> (q matches TraceQuery::Failed(d) && d@ == diagnostic && spec_decision(config, q) == Decision::Error
                && spec_exit(config, q) == ExitCode::Internal),
        !spec_decision(config, q).spec_may_skip(),
{
}

// ---------------------------------------------------------------------------
// The pinned policy reference
// ---------------------------------------------------------------------------

/// An accepted policy reference is `github:OWNER/REPO/COMMIT` with a
/// non-empty owner and repository, and COMMIT is the expected revision
/// (ignoring ASCII case): exactly 40 hexadecimal digits. Abbreviated commits,
/// branches and tags are refused.
pub proof fn law_accepted_reference_embeds_the_full_commit(reference: Seq<char>, expected: Seq<char>)
    requires
        reference_problem(reference, expected) is None,
    ensures
        reference.len() >= 7 && reference.take(7) == "github:"@,
        split_on(reference.skip(7), '/').len() == 3,
        split_on(reference.skip(7), '/')[0].len() > 0,
        split_on(reference.skip(7), '/')[1].len() > 0,
        split_on(reference.skip(7), '/')[2].len() == 40,
        lower_seq(split_on(reference.skip(7), '/')[2]) == lower_seq(expected),
        expected.len() == 40,
        forall|k: int| 0 <= k < 40 ==> is_ascii_hex(#[trigger] expected[k]),
{
    reveal_strlit("github:");
    let commit = split_on(reference.skip(7), '/')[2];
    assert(lower_seq(commit).len() == commit.len());
    assert(lower_seq(expected).len() == expected.len());
}

/// An expected revision that is not 40 hexadecimal digits is refused,
/// whatever the reference.
pub proof fn law_short_revision_refused(reference: Seq<char>, expected: Seq<char>)
    requires
        !(expected.len() == 40 && forall|k: int| 0 <= k < 40 ==> is_ascii_hex(#[trigger] expected[k])),
    ensures
        reference_problem(reference, expected) is Some,
{
}

// ---------------------------------------------------------------------------
// What people see
// ---------------------------------------------------------------------------

proof fn lemma_concat_contains<A>(a: Seq<A>, b: Seq<A>, x: A)
    ensures
        a.contains(x) ==> (a + b).contains(x),
        b.contains(x) ==> (a + b).contains(x),
{
    if a.contains(x) {
        let i = choose|i: int| 0 <= i < a.len() && a[i] == x;
        assert((a + b)[i] == x);
    }
    if b.contains(x) {
        let i = choose|i: int| 0 <= i < b.len() && b[i] == x;
        assert((a + b)[a.len() + i] == x);
    }
}

/// The human-readable result shows every identity the report holds: the
/// installable, the unresolved and resolved derivations and the output where
/// present, the trace status, the signers where any, the decision and the
/// action; and a note for every diagnostic.
pub proof fn law_human_result_shows_the_report(report: ResultEnvelope)
    ensures
        result_lines(report).contains("installable: "@ + report.installable@),
        report.derivation.unresolved matches Some(p) ==> result_lines(report).contains("unresolved:  "@ + p@),
        report.derivation.resolved matches Some(p) ==> result_lines(report).contains("resolved:    "@ + p@),
        report.derivation.output_name matches Some(p) ==> result_lines(report).contains("output:      "@ + p@),
        result_lines(report).contains("trace:       "@ + report.trace.status@),
        report.trace.signers@.len() > 0 ==> result_lines(report).contains(
            "signer:      "@ + join(views(report.trace.signers@), ", "@),
        ),
        result_lines(report).contains("decision:    "@ + report.decision.name()),
        result_lines(report).contains("action:      "@ + report.action.name()),
        forall|k: int| 0 <= k < report.diagnostics@.len() ==> note_lines(report).contains(
            "note: "@ + #[trigger] report.diagnostics@[k]@,
        ),
{
    let head = seq![crate::report::banner(), Seq::<char>::empty(), "installable: "@ + report.installable@];
    let unresolved = crate::report::optional_line("unresolved:  "@, report.derivation.unresolved);
    let resolved = crate::report::optional_line("resolved:    "@, report.derivation.resolved);
    let output = crate::report::optional_line("output:      "@, report.derivation.output_name);
    let trace = seq!["trace:       "@ + report.trace.status@];
    let signers = if report.trace.signers@.len() > 0 {
        seq!["signer:      "@ + join(views(report.trace.signers@), ", "@)]
    } else {
        Seq::<Seq<char>>::empty()
    };
    let tail = seq!["decision:    "@ + report.decision.name(), "action:      "@ + report.action.name()];
    assert(result_lines(report) == head + unresolved + resolved + output + trace + signers + tail);
    let a1 = head + unresolved;
    let a2 = a1 + resolved;
    let a3 = a2 + output;
    let a4 = a3 + trace;
    let a5 = a4 + signers;
    assert forall|x: Seq<char>| #![trigger result_lines(report).contains(x)]
        head.contains(x) || unresolved.contains(x) || resolved.contains(x) || output.contains(x)
            || trace.contains(x) || signers.contains(x) || tail.contains(x)
        implies result_lines(report).contains(x) by {
        lemma_concat_contains(head, unresolved, x);
        lemma_concat_contains(a1, resolved, x);
        lemma_concat_contains(a2, output, x);
        lemma_concat_contains(a3, trace, x);
        lemma_concat_contains(a4, signers, x);
        lemma_concat_contains(a5, tail, x);
    }
    assert(head[2] == "installable: "@ + report.installable@);
    if let Some(p) = report.derivation.unresolved {
        assert(unresolved[0] == "unresolved:  "@ + p@);
    }
    if let Some(p) = report.derivation.resolved {
        assert(resolved[0] == "resolved:    "@ + p@);
    }
    if let Some(p) = report.derivation.output_name {
        assert(output[0] == "output:      "@ + p@);
    }
    assert(trace[0] == "trace:       "@ + report.trace.status@);
    if report.trace.signers@.len() > 0 {
        assert(signers[0] == "signer:      "@ + join(views(report.trace.signers@), ", "@));
    }
    assert(tail[0] == "decision:    "@ + report.decision.name());
    assert(tail[1] == "action:      "@ + report.action.name());
    assert forall|k: int| 0 <= k < report.diagnostics@.len() implies note_lines(report).contains(
        "note: "@ + #[trigger] report.diagnostics@[k]@,
    ) by {
        assert(note_lines(report)[k] == "note: "@ + report.diagnostics@[k]@);
    }
}

// ---------------------------------------------------------------------------
// Stable names and codes
// ---------------------------------------------------------------------------

/// The process exit status of each outcome: 0 accepted, 10 miss, 11
/// untrusted, 12 conflict, 13 IA rejected, 20 unsupported, 30 bad
/// configuration, 40 internal failure. Only an accepted check exits 0.
pub proof fn law_exit_status_values(e: ExitCode)
    ensures
        (e.spec_code() == 0) <==> (e == ExitCode::Accepted),
        e == ExitCode::Miss ==> e.spec_code() == 10,
        e == ExitCode::Untrusted ==> e.spec_code() == 11,
        e == ExitCode::Conflict ==> e.spec_code() == 12,
        e == ExitCode::IaRejected ==> e.spec_code() == 13,
        e == ExitCode::Unsupported ==> e.spec_code() == 20,
        e == ExitCode::MalformedConfig ==> e.spec_code() == 30,
        e == ExitCode::Internal ==> e.spec_code() == 40,
{
}

/// The names of decisions and actions as the JSON envelope spells them.
pub proof fn law_stable_names(d: Decision, a: Action)
    ensures
        d == Decision::AcceptedCa ==> d.name() == "ACCEPTED_CA"@,
        d == Decision::AcceptedWithIaTrust ==> d.name() == "ACCEPTED_WITH_IA_TRUST"@,
        d == Decision::Miss ==> d.name() == "MISS"@,
        d == Decision::Untrusted ==> d.name() == "UNTRUSTED"@,
        d == Decision::Conflict ==> d.name() == "CONFLICT"@,
        d == Decision::Unsupported ==> d.name() == "UNSUPPORTED"@,
        d == Decision::Error ==> d.name() == "ERROR"@,
        a == Action::Skip ==> a.name() == "SKIP"@,
        a == Action::Build ==> a.name() == "BUILD"@,
        a == Action::Built ==> a.name() == "BUILT"@,
        a == Action::Fail ==> a.name() == "FAIL"@,
{
}

// ---------------------------------------------------------------------------
// Store paths, stores and configuration
// ---------------------------------------------------------------------------

/// An absolute path is kept as it is; any other is taken relative to
/// `/nix/store/`.
pub proof fn law_store_path_normalization(path: Seq<char>)
    ensures
        path.len() > 0 && path[0] == '/' ==> normalized_store_path(path) == path,
        !(path.len() > 0 && path[0] == '/') ==> normalized_store_path(path) == "/nix/store/"@ + path,
{
    reveal_strlit("/nix/store/");
}

/// Records count as local evidence exactly when the store in use is local:
/// the adapter's store where one is set, else the store `NIX_REMOTE` names;
/// with neither, Nix's default local store. A `local?…` store and the daemon
/// are local; any other store is remote.
pub proof fn law_evidence_follows_the_store_in_use(adapter: NixAdapter)
    ensures
        adapter.store is None && adapter.nix_remote is None ==> spec_evidence(adapter) == TrustEvidence::LocalStore,
        adapter.store matches Some(s) ==> (spec_evidence(adapter) == TrustEvidence::LocalStore <==> (
            starts_with(s@, "local?"@) || s@ == "daemon"@)),
        adapter.store is None ==> (adapter.nix_remote matches Some(s) ==> (spec_evidence(adapter)
            == TrustEvidence::LocalStore <==> (starts_with(s@, "local?"@) || s@ == "daemon"@))),
{
}

/// A configuration passes validation exactly when it is schema 1 with a
/// non-blank policy version, requires exactly one signature and accepts at
/// least one key.
pub proof fn law_valid_configuration(config: Config)
    ensures
        (config_violation(config) is None) <==> (config.schema == 1 && trim(config.once.policy_version@).len() > 0
            && config.trust.required_signatures == 1 && config.trust.accepted_key_names@.len() > 0),
{
}

} // verus!
