//! The focused views of the read-only diagnostic commands: `resolve`,
//! `trace`, `trust` and the narrative of `explain`. Each carries the decision and action of the same
//! policy evaluation that `check` makes; only what it shows differs.

use vstd::prelude::*;

use crate::config::{Config, IaMode};
use crate::nix::{TraceQuery, TrustEvidence};
use crate::text::{copy_opt, copy_strings, owned, views};
use crate::trace::{normalize_store_path, normalized_store_path, TraceEntry};
use crate::types::{Action, Decision, ResultEnvelope};

verus! {

pub open spec fn resolve_schema() -> Seq<char> {
    "dev.closurelabs.once/resolve/v1"@
}

pub open spec fn trace_schema() -> Seq<char> {
    "dev.closurelabs.once/trace/v1"@
}

pub open spec fn trust_schema() -> Seq<char> {
    "dev.closurelabs.once/trust/v1"@
}

/// `once resolve`: the unresolved derivation from evaluation and the resolved
/// derivation output exposed by the base trace.
#[derive(Clone, Debug)]
pub struct ResolveView {
    pub schema: &'static str,
    pub installable: String,
    pub decision: Decision,
    pub action: Action,
    pub unresolved: Option<String>,
    pub resolved: Option<String>,
    pub output_name: Option<String>,
}

/// One base entry as `once trace` shows it: store paths normalized, the
/// signer names as Nix reported them, in order.
#[derive(Clone, Debug)]
pub struct TraceEntryView {
    pub drv_path: String,
    pub output_name: String,
    pub out_path: String,
    pub signers: Vec<String>,
    pub signature_count: usize,
}

/// What Nix's build-trace query returned, before any policy.
#[derive(Clone, Debug)]
pub struct NativeTrace {
    /// `found`, `found-unverified`, `missing`, `untrusted` or `error`.
    pub status: String,
    /// Where found records came from; `None` where none were found.
    pub evidence: Option<TrustEvidence>,
    pub entries: Vec<TraceEntryView>,
    pub opaque_paths: Vec<String>,
}

/// `once trace`: the native trace entries, output and opaque paths, signer
/// metadata and the evidence boundary, beside the policy's decision.
#[derive(Clone, Debug)]
pub struct TraceView {
    pub schema: &'static str,
    pub installable: String,
    pub decision: Decision,
    pub action: Action,
    pub native: NativeTrace,
}

/// `once trust`: the configured signature and IA policy, the accepted
/// signers, the decision and whether policy permits a skip.
#[derive(Clone, Debug)]
pub struct TrustView {
    pub schema: &'static str,
    pub installable: String,
    pub decision: Decision,
    pub action: Action,
    pub required_signatures: usize,
    pub accepted_key_names: Vec<String>,
    pub ia_mode: IaMode,
    pub accepted_signers: Vec<String>,
    pub skip_permitted: bool,
}

/// What a command shows at its end.
#[derive(Clone, Debug)]
pub enum Presentation {
    /// The result envelope itself (`check`, `run`).
    Envelope,
    /// `explain`: the result envelope in JSON, and for people the expanded
    /// narrative, which also shows the native trace.
    Explain(NativeTrace),
    Resolve(ResolveView),
    Trace(TraceView),
    Trust(TrustView),
}

pub open spec fn resolve_view_of(report: ResultEnvelope, v: ResolveView) -> bool {
    &&& v.schema@ == resolve_schema()
    &&& v.installable == report.installable
    &&& v.decision == report.decision
    &&& v.action == report.action
    &&& v.unresolved == report.derivation.unresolved
    &&& v.resolved == report.derivation.resolved
    &&& v.output_name == report.derivation.output_name
}

pub open spec fn trust_view_of(config: Config, report: ResultEnvelope, v: TrustView) -> bool {
    &&& v.schema@ == trust_schema()
    &&& v.installable == report.installable
    &&& v.decision == report.decision
    &&& v.action == report.action
    &&& v.required_signatures == config.trust.required_signatures
    &&& v.accepted_key_names@ == config.trust.accepted_key_names@
    &&& v.ia_mode == config.trust.ia_mode
    &&& v.accepted_signers@ == report.trace.signers@
    &&& v.skip_permitted == report.decision.spec_may_skip()
}

pub open spec fn trace_view_of(report: ResultEnvelope, v: TraceView) -> bool {
    &&& v.schema@ == trace_schema()
    &&& v.installable == report.installable
    &&& v.decision == report.decision
    &&& v.action == report.action
}

/// The status of the query itself: records found locally or remotely, none,
/// refused by Nix, or an error.
pub open spec fn native_status(query: TraceQuery) -> Seq<char> {
    match query {
        TraceQuery::Miss(_) => "missing"@,
        TraceQuery::Untrusted(_) => "untrusted"@,
        TraceQuery::Failed(_) => "error"@,
        TraceQuery::Found { records, evidence } => if records.entries@.len() == 0 {
            "missing"@
        } else if evidence == TrustEvidence::UnverifiedRemote {
            "found-unverified"@
        } else {
            "found"@
        },
    }
}

pub open spec fn signer_list(entry: TraceEntry) -> Seq<Seq<char>> {
    entry.value.signatures@.map_values(|s: crate::trace::Signature| s.key_name@)
}

pub open spec fn entry_view_of(entry: TraceEntry, v: TraceEntryView) -> bool {
    &&& v.drv_path@ == normalized_store_path(entry.key.drv_path@)
    &&& v.output_name@ == entry.key.output_name@
    &&& v.out_path@ == normalized_store_path(entry.value.out_path@)
    &&& views(v.signers@) == signer_list(entry)
    &&& v.signature_count == entry.value.signatures@.len()
}

/// Nothing found: no evidence, no entries, no opaque paths.
pub open spec fn nothing_found(n: NativeTrace) -> bool {
    &&& n.evidence is None
    &&& n.entries@.len() == 0
    &&& n.opaque_paths@.len() == 0
}

/// The native view of a build-trace query.
pub open spec fn native_shows(query: TraceQuery, n: NativeTrace) -> bool {
    &&& n.status@ == native_status(query)
    &&& match query {
        TraceQuery::Found { records, evidence } => {
            &&& n.evidence == Some(evidence)
            &&& n.entries@.len() == records.entries@.len()
            &&& forall|i: int|
                0 <= i < n.entries@.len() ==> entry_view_of(records.entries@[i], #[trigger] n.entries@[i])
            &&& views(n.opaque_paths@) == views(records.opaque_paths@).map_values(
                |p: Seq<char>| normalized_store_path(p),
            )
        },
        _ => nothing_found(n),
    }
}

pub fn resolve_view(report: &ResultEnvelope) -> (v: ResolveView)
    ensures
        resolve_view_of(*report, v),
{
    ResolveView {
        schema: "dev.closurelabs.once/resolve/v1",
        installable: report.installable.clone(),
        decision: report.decision,
        action: report.action,
        unresolved: copy_opt(&report.derivation.unresolved),
        resolved: copy_opt(&report.derivation.resolved),
        output_name: copy_opt(&report.derivation.output_name),
    }
}

pub fn trust_view(config: &Config, report: &ResultEnvelope) -> (v: TrustView)
    ensures
        trust_view_of(*config, *report, v),
{
    TrustView {
        schema: "dev.closurelabs.once/trust/v1",
        installable: report.installable.clone(),
        decision: report.decision,
        action: report.action,
        required_signatures: config.trust.required_signatures,
        accepted_key_names: copy_strings(&config.trust.accepted_key_names),
        ia_mode: config.trust.ia_mode,
        accepted_signers: copy_strings(&report.trace.signers),
        skip_permitted: report.decision.may_skip(),
    }
}

pub fn trace_view(report: &ResultEnvelope, native: NativeTrace) -> (v: TraceView)
    ensures
        trace_view_of(*report, v),
        v.native == native,
{
    TraceView {
        schema: "dev.closurelabs.once/trace/v1",
        installable: report.installable.clone(),
        decision: report.decision,
        action: report.action,
        native,
    }
}

fn entry_view(entry: &TraceEntry) -> (v: TraceEntryView)
    ensures
        entry_view_of(*entry, v),
{
    let signatures = &entry.value.signatures;
    let mut signers: Vec<String> = Vec::new();
    let mut i: usize = 0;
    while i < signatures.len()
        invariant
            signatures == &entry.value.signatures,
            i <= signatures.len(),
            views(signers@) == signer_list(*entry).take(i as int),
        decreases signatures.len() - i,
    {
        let ghost before = signers@;
        signers.push(signatures[i].key_name.clone());
        proof {
            assert(views(signers@) =~= views(before).push(signatures@[i as int].key_name@));
            assert(signer_list(*entry).take(i + 1) =~= signer_list(*entry).take(i as int).push(
                signer_list(*entry)[i as int],
            ));
        }
        i = i + 1;
    }
    assert(signer_list(*entry).take(i as int) =~= signer_list(*entry));
    TraceEntryView {
        drv_path: normalize_store_path(entry.key.drv_path.as_str()),
        output_name: entry.key.output_name.clone(),
        out_path: normalize_store_path(entry.value.out_path.as_str()),
        signers,
        signature_count: signatures.len(),
    }
}

fn nothing(status: &str) -> (n: NativeTrace)
    ensures
        n.status@ == status@,
        nothing_found(n),
{
    NativeTrace { status: owned(status), evidence: None, entries: Vec::new(), opaque_paths: Vec::new() }
}

/// The native view of a build-trace query.
pub fn native_trace(query: &TraceQuery) -> (n: NativeTrace)
    ensures
        native_shows(*query, n),
{
    match query {
        TraceQuery::Miss(_) => nothing("missing"),
        TraceQuery::Untrusted(_) => nothing("untrusted"),
        TraceQuery::Failed(_) => nothing("error"),
        TraceQuery::Found { records, evidence } => {
            let status = if records.entries.len() == 0 {
                owned("missing")
            } else if *evidence == TrustEvidence::UnverifiedRemote {
                owned("found-unverified")
            } else {
                owned("found")
            };
            let mut entries: Vec<TraceEntryView> = Vec::new();
            let mut i: usize = 0;
            while i < records.entries.len()
                invariant
                    i <= records.entries.len(),
                    entries@.len() == i,
                    forall|k: int|
                        0 <= k < i ==> entry_view_of(records.entries@[k], #[trigger] entries@[k]),
                decreases records.entries.len() - i,
            {
                entries.push(entry_view(&records.entries[i]));
                i = i + 1;
            }
            let mut opaque_paths: Vec<String> = Vec::new();
            let mut j: usize = 0;
            let ghost wanted = views(records.opaque_paths@).map_values(
                |p: Seq<char>| normalized_store_path(p),
            );
            while j < records.opaque_paths.len()
                invariant
                    j <= records.opaque_paths.len(),
                    wanted == views(records.opaque_paths@).map_values(
                        |p: Seq<char>| normalized_store_path(p),
                    ),
                    views(opaque_paths@) == wanted.take(j as int),
                decreases records.opaque_paths.len() - j,
            {
                let ghost before = opaque_paths@;
                opaque_paths.push(normalize_store_path(records.opaque_paths[j].as_str()));
                proof {
                    assert(views(opaque_paths@) =~= views(before).push(wanted[j as int]));
                    assert(wanted.take(j + 1) =~= wanted.take(j as int).push(wanted[j as int]));
                }
                j = j + 1;
            }
            assert(wanted.take(j as int) =~= wanted);
            NativeTrace { status, evidence: Some(*evidence), entries, opaque_paths }
        },
    }
}

} // verus!

verus! {

pub open spec fn spec_evidence_name(e: TrustEvidence) -> Seq<char> {
    match e {
        TrustEvidence::LocalStore => "local-store"@,
        TrustEvidence::UnverifiedRemote => "unverified-remote"@,
    }
}

/// The name of the evidence boundary: `local-store` or `unverified-remote`.
pub fn evidence_name(e: TrustEvidence) -> (r: &'static str)
    ensures
        r@ == spec_evidence_name(e),
{
    match e {
        TrustEvidence::LocalStore => "local-store",
        TrustEvidence::UnverifiedRemote => "unverified-remote",
    }
}

pub open spec fn spec_ia_mode_name(mode: IaMode) -> Seq<char> {
    match mode {
        IaMode::Deny => "deny"@,
        IaMode::Warn => "warn"@,
        IaMode::AllowTrusted => "allow-trusted"@,
    }
}

/// The configuration name of an IA mode.
pub fn ia_mode_name(mode: IaMode) -> (r: &'static str)
    ensures
        r@ == spec_ia_mode_name(mode),
{
    match mode {
        IaMode::Deny => "deny",
        IaMode::Warn => "warn",
        IaMode::AllowTrusted => "allow-trusted",
    }
}

} // verus!
