//! The text that Once shows people: the result, the diagnostic views of
//! `resolve`, `trace`, `trust` and `explain`, the doctor view and the GitHub
//! step summary.

use vstd::prelude::*;

use crate::nix::DoctorState;
use crate::text::{chars_of, decimal, decimal_chars, push_all, push_str, string_of, views};
use crate::types::{InputSummary, ResultEnvelope};
use crate::version::rendered;
use crate::views::{
    evidence_name, ia_mode_name, spec_evidence_name, spec_ia_mode_name, NativeTrace,
    ResolveView, TraceEntryView, TraceView, TrustView,
};

verus! {

/// Lines for standard output and for standard error.
pub struct HumanText {
    pub stdout: Vec<String>,
    pub stderr: Vec<String>,
}

/// `items` joined by `sep`.
pub open spec fn join(items: Seq<Seq<char>>, sep: Seq<char>) -> Seq<char>
    decreases items.len(),
{
    if items.len() == 0 {
        Seq::empty()
    } else if items.len() == 1 {
        items[0]
    } else {
        join(items.drop_last(), sep) + sep + items.last()
    }
}

/// The line `label` followed by `value`, where the value is present.
pub open spec fn optional_line(label: Seq<char>, value: Option<String>) -> Seq<Seq<char>> {
    match value {
        Some(v) => seq![label + v@],
        None => Seq::empty(),
    }
}

pub open spec fn banner() -> Seq<char> {
    "Closure Labs — Once"@
}

/// The standard-output lines of the human-readable result.
pub open spec fn result_lines(report: ResultEnvelope) -> Seq<Seq<char>> {
    seq![banner(), Seq::empty(), "installable: "@ + report.installable@]
        + optional_line("unresolved:  "@, report.derivation.unresolved)
        + optional_line("resolved:    "@, report.derivation.resolved)
        + optional_line("output:      "@, report.derivation.output_name)
        + seq!["trace:       "@ + report.trace.status@]
        + (if report.trace.signers@.len() > 0 {
            seq!["signer:      "@ + join(views(report.trace.signers@), ", "@)]
        } else {
            Seq::empty()
        })
        + seq!["decision:    "@ + report.decision.name(), "action:      "@ + report.action.name()]
}

/// The standard-error lines of the human-readable result: one note per diagnostic.
pub open spec fn note_lines(report: ResultEnvelope) -> Seq<Seq<char>> {
    views(report.diagnostics@).map_values(|d: Seq<char>| "note: "@ + d)
}

fn line(parts: &Vec<char>) -> (r: String)
    ensures
        r@ == parts@,
{
    string_of(parts)
}

fn labelled(label: &str, value: &str) -> (r: String)
    ensures
        r@ == label@ + value@,
{
    let mut out = chars_of(label);
    push_str(&mut out, value);
    line(&out)
}

fn push_optional(out: &mut Vec<String>, label: &str, value: &Option<String>)
    ensures
        views(final(out)@) == views(old(out)@) + optional_line(label@, *value),
{
    let ghost start = out@;
    if let Some(v) = value {
        out.push(labelled(label, v.as_str()));
    }
    assert(views(out@) =~= views(start) + optional_line(label@, *value));
}

/// The strings of `items` joined by `sep`.
pub fn join_strings(items: &Vec<String>, sep: &str) -> (r: Vec<char>)
    ensures
        r@ == join(views(items@), sep@),
{
    let mut out: Vec<char> = Vec::new();
    let mut i: usize = 0;
    while i < items.len()
        invariant
            i <= items.len(),
            out@ == join(views(items@.take(i as int)), sep@),
        decreases items.len() - i,
    {
        proof {
            assert(views(items@.take(i + 1)).drop_last() =~= views(items@.take(i as int)));
            assert(views(items@.take(i + 1)).last() == items@[i as int]@);
        }
        if i > 0 {
            push_str(&mut out, sep);
        }
        push_str(&mut out, items[i].as_str());
        proof {
            if i == 0 {
                assert(out@ =~= views(items@.take(1))[0]);
            }
        }
        i = i + 1;
    }
    assert(items@.take(i as int) =~= items@);
    out
}

/// The human-readable view of a result.
pub fn human_result(report: &ResultEnvelope) -> (r: HumanText)
    ensures
        views(r.stdout@) == result_lines(*report),
        views(r.stderr@) == note_lines(*report),
{
    let mut out: Vec<String> = Vec::new();
    out.push(crate::text::owned("Closure Labs — Once"));
    out.push(String::new());
    out.push(labelled("installable: ", report.installable.as_str()));
    let ghost head = out@;
    assert(views(head) =~= seq![banner(), Seq::empty(), "installable: "@ + report.installable@]);
    push_optional(&mut out, "unresolved:  ", &report.derivation.unresolved);
    push_optional(&mut out, "resolved:    ", &report.derivation.resolved);
    push_optional(&mut out, "output:      ", &report.derivation.output_name);
    let ghost with_paths = out@;
    out.push(labelled("trace:       ", report.trace.status.as_str()));
    let ghost before_signers = out@;
    assert(views(before_signers) =~= views(with_paths).push("trace:       "@ + report.trace.status@));
    if report.trace.signers.len() > 0 {
        let mut text = chars_of("signer:      ");
        let joined = join_strings(&report.trace.signers, ", ");
        push_all(&mut text, &joined);
        out.push(line(&text));
    }
    let ghost after_signers = out@;
    out.push(labelled("decision:    ", report.decision.as_str()));
    let ghost with_decision = out@;
    out.push(labelled("action:      ", report.action.as_str()));
    proof {
        let signer_part = if report.trace.signers@.len() > 0 {
            seq!["signer:      "@ + join(views(report.trace.signers@), ", "@)]
        } else {
            Seq::<Seq<char>>::empty()
        };
        assert(views(after_signers) =~= views(before_signers) + signer_part);
        assert(views(with_decision) =~= views(after_signers).push("decision:    "@ + report.decision.name()));
        assert(views(out@) =~= views(with_decision).push("action:      "@ + report.action.name()));
        assert(views(out@) =~= result_lines(*report));
    }
    let mut err: Vec<String> = Vec::new();
    let mut i: usize = 0;
    while i < report.diagnostics.len()
        invariant
            i <= report.diagnostics.len(),
            views(err@) =~= note_lines(*report).take(i as int),
        decreases report.diagnostics.len() - i,
    {
        proof {
            assert(note_lines(*report)[i as int] == "note: "@ + report.diagnostics@[i as int]@);
            assert(note_lines(*report).take(i + 1) =~= note_lines(*report).take(i as int).push(note_lines(*report)[i as int]));
        }
        let ghost before = err@;
        err.push(labelled("note: ", report.diagnostics[i].as_str()));
        assert(views(err@) =~= views(before).push("note: "@ + report.diagnostics@[i as int]@));
        i = i + 1;
    }
    assert(note_lines(*report).take(i as int) =~= note_lines(*report));
    HumanText { stdout: out, stderr: err }
}

pub open spec fn spec_yes_no(value: bool) -> Seq<char> {
    if value { "yes"@ } else { "no"@ }
}

pub fn yes_no(value: bool) -> (r: &'static str)
    ensures
        r@ == spec_yes_no(value),
{
    if value { "yes" } else { "no" }
}

/// The lines of the human-readable doctor view.
pub open spec fn doctor_lines(state: DoctorState) -> Seq<Seq<char>> {
    seq![
        "Closure Labs — Once doctor"@,
        Seq::empty(),
        "Nix version:              "@ + rendered(state.version@),
        "Required minimum:         "@ + rendered(state.minimum@),
        "build-trace command:      "@ + spec_yes_no(state.build_trace_command),
        "ca-derivations configured: "@ + spec_yes_no(state.ca_derivations_configured),
        "Backend:                  "@ + state.backend.kind@,
    ] + optional_line("Store:                    "@, state.backend.store) + seq![
        "Suitable:                 "@ + spec_yes_no(state.spec_suitable()),
    ]
}

/// The human-readable doctor view.
pub fn doctor_text(state: &DoctorState) -> (r: Vec<String>)
    ensures
        views(r@) == doctor_lines(*state),
{
    let mut out: Vec<String> = Vec::new();
    out.push(crate::text::owned("Closure Labs — Once doctor"));
    out.push(String::new());
    let version = state.version.to_string();
    out.push(labelled("Nix version:              ", version.as_str()));
    let minimum = state.minimum.to_string();
    out.push(labelled("Required minimum:         ", minimum.as_str()));
    out.push(labelled("build-trace command:      ", yes_no(state.build_trace_command)));
    out.push(labelled("ca-derivations configured: ", yes_no(state.ca_derivations_configured)));
    out.push(labelled("Backend:                  ", state.backend.kind));
    let ghost head = out@;
    assert(views(head) =~= seq![
        "Closure Labs — Once doctor"@,
        Seq::empty(),
        "Nix version:              "@ + rendered(state.version@),
        "Required minimum:         "@ + rendered(state.minimum@),
        "build-trace command:      "@ + spec_yes_no(state.build_trace_command),
        "ca-derivations configured: "@ + spec_yes_no(state.ca_derivations_configured),
        "Backend:                  "@ + state.backend.kind@,
    ]);
    push_optional(&mut out, "Store:                    ", &state.backend.store);
    let ghost with_store = out@;
    out.push(labelled("Suitable:                 ", yes_no(state.suitable())));
    assert(views(out@) =~= views(with_store).push("Suitable:                 "@ + spec_yes_no(state.spec_suitable())));
    assert(views(out@) =~= doctor_lines(*state));
    out
}

/// The Markdown that the GitHub step summary receives for a result.
pub open spec fn summary_markdown(report: ResultEnvelope) -> Seq<char> {
    "## Once: "@ + report.decision.name() + "\n\n- Installable: `"@ + report.installable@
        + "`\n- Trace: `"@ + report.trace.status@ + "`\n- Action: `"@ + report.action.name()
        + "`\n\n"@
}

pub fn summary_text(report: &ResultEnvelope) -> (r: String)
    ensures
        r@ == summary_markdown(*report),
{
    let mut out = chars_of("## Once: ");
    push_str(&mut out, report.decision.as_str());
    push_str(&mut out, "\n\n- Installable: `");
    push_str(&mut out, report.installable.as_str());
    push_str(&mut out, "`\n- Trace: `");
    push_str(&mut out, report.trace.status.as_str());
    push_str(&mut out, "`\n- Action: `");
    push_str(&mut out, report.action.as_str());
    push_str(&mut out, "`\n\n");
    string_of(&out)
}

} // verus!

verus! {

// ---------------------------------------------------------------------------
// The diagnostic views
// ---------------------------------------------------------------------------

/// The lines of `once resolve`.
pub open spec fn resolve_lines(v: ResolveView) -> Seq<Seq<char>> {
    seq!["Closure Labs — Once resolve"@, Seq::empty(), "installable: "@ + v.installable@]
        + optional_line("unresolved:  "@, v.unresolved)
        + optional_line("resolved:    "@, v.resolved)
        + optional_line("output:      "@, v.output_name)
        + seq!["decision:    "@ + v.decision.name(), "action:      "@ + v.action.name()]
}

pub fn resolve_text(v: &ResolveView) -> (r: Vec<String>)
    ensures
        views(r@) == resolve_lines(*v),
{
    let mut out: Vec<String> = Vec::new();
    out.push(crate::text::owned("Closure Labs — Once resolve"));
    out.push(String::new());
    out.push(labelled("installable: ", v.installable.as_str()));
    let ghost head = out@;
    assert(views(head) =~= seq!["Closure Labs — Once resolve"@, Seq::empty(), "installable: "@ + v.installable@]);
    push_optional(&mut out, "unresolved:  ", &v.unresolved);
    push_optional(&mut out, "resolved:    ", &v.resolved);
    push_optional(&mut out, "output:      ", &v.output_name);
    let ghost paths = out@;
    out.push(labelled("decision:    ", v.decision.as_str()));
    out.push(labelled("action:      ", v.action.as_str()));
    assert(views(out@) =~= views(paths) + seq!["decision:    "@ + v.decision.name(), "action:      "@ + v.action.name()]);
    out
}

/// `label` followed by `items` joined by `, `.
fn labelled_list(label: &str, items: &Vec<String>) -> (r: String)
    ensures
        r@ == label@ + join(views(items@), ", "@),
{
    let mut text = chars_of(label);
    let joined = join_strings(items, ", ");
    push_all(&mut text, &joined);
    line(&text)
}

/// The lines of `once trust`.
pub open spec fn trust_lines(v: TrustView) -> Seq<Seq<char>> {
    seq![
        "Closure Labs — Once trust"@,
        Seq::empty(),
        "installable: "@ + v.installable@,
        "required signatures: "@ + decimal(v.required_signatures as nat),
        "accepted keys:       "@ + join(views(v.accepted_key_names@), ", "@),
        "ia mode:             "@ + spec_ia_mode_name(v.ia_mode),
    ] + (if v.accepted_signers@.len() > 0 {
        seq!["accepted signers:    "@ + join(views(v.accepted_signers@), ", "@)]
    } else {
        Seq::empty()
    }) + seq![
        "decision:    "@ + v.decision.name(),
        "action:      "@ + v.action.name(),
        "skip permitted:      "@ + spec_yes_no(v.skip_permitted),
    ]
}

pub fn trust_text(v: &TrustView) -> (r: Vec<String>)
    ensures
        views(r@) == trust_lines(*v),
{
    let mut out: Vec<String> = Vec::new();
    out.push(crate::text::owned("Closure Labs — Once trust"));
    out.push(String::new());
    out.push(labelled("installable: ", v.installable.as_str()));
    let count = decimal_chars(v.required_signatures as u64);
    let mut text = chars_of("required signatures: ");
    push_all(&mut text, &count);
    out.push(line(&text));
    out.push(labelled_list("accepted keys:       ", &v.accepted_key_names));
    out.push(labelled("ia mode:             ", ia_mode_name(v.ia_mode)));
    let ghost head = out@;
    assert(views(head) =~= seq![
        "Closure Labs — Once trust"@,
        Seq::empty(),
        "installable: "@ + v.installable@,
        "required signatures: "@ + decimal(v.required_signatures as nat),
        "accepted keys:       "@ + join(views(v.accepted_key_names@), ", "@),
        "ia mode:             "@ + spec_ia_mode_name(v.ia_mode),
    ]);
    if v.accepted_signers.len() > 0 {
        out.push(labelled_list("accepted signers:    ", &v.accepted_signers));
    }
    let ghost signers = out@;
    out.push(labelled("decision:    ", v.decision.as_str()));
    out.push(labelled("action:      ", v.action.as_str()));
    out.push(labelled("skip permitted:      ", yes_no(v.skip_permitted)));
    proof {
        let signer_part = if v.accepted_signers@.len() > 0 {
            seq!["accepted signers:    "@ + join(views(v.accepted_signers@), ", "@)]
        } else {
            Seq::<Seq<char>>::empty()
        };
        assert(views(signers) =~= views(head) + signer_part);
        assert(views(out@) =~= views(signers) + seq![
            "decision:    "@ + v.decision.name(),
            "action:      "@ + v.action.name(),
            "skip permitted:      "@ + spec_yes_no(v.skip_permitted),
        ]);
    }
    out
}

/// One base entry of `once trace`: identity, output path, and its signatures.
pub open spec fn entry_line(e: TraceEntryView) -> Seq<char> {
    "entry:       "@ + e.drv_path@ + "^"@ + e.output_name@ + " -> "@ + e.out_path@ + " ("@ + decimal(
        e.signature_count as nat,
    ) + " signature(s)"@ + (if e.signers@.len() > 0 {
        ": "@ + join(views(e.signers@), ", "@)
    } else {
        Seq::empty()
    }) + ")"@
}

pub open spec fn opaque_line(p: Seq<char>) -> Seq<char> {
    "opaque:      "@ + p
}

/// The lines of a native build-trace answer: status, evidence, entries and
/// opaque paths.
pub open spec fn native_lines(n: NativeTrace) -> Seq<Seq<char>> {
    seq!["trace:       "@ + n.status@] + (match n.evidence {
        Some(e) => seq!["evidence:    "@ + spec_evidence_name(e)],
        None => Seq::empty(),
    }) + n.entries@.map_values(|e: TraceEntryView| entry_line(e))
        + views(n.opaque_paths@).map_values(|p: Seq<char>| opaque_line(p))
}

/// The lines of `once trace`.
pub open spec fn trace_lines(v: TraceView) -> Seq<Seq<char>> {
    seq!["Closure Labs — Once trace"@, Seq::empty(), "installable: "@ + v.installable@]
        + native_lines(v.native)
        + seq!["decision:    "@ + v.decision.name(), "action:      "@ + v.action.name()]
}

fn entry_text(e: &TraceEntryView) -> (r: String)
    ensures
        r@ == entry_line(*e),
{
    let mut text = chars_of("entry:       ");
    push_str(&mut text, e.drv_path.as_str());
    push_str(&mut text, "^");
    push_str(&mut text, e.output_name.as_str());
    push_str(&mut text, " -> ");
    push_str(&mut text, e.out_path.as_str());
    push_str(&mut text, " (");
    let count = decimal_chars(e.signature_count as u64);
    push_all(&mut text, &count);
    push_str(&mut text, " signature(s)");
    let ghost before = text@;
    if e.signers.len() > 0 {
        push_str(&mut text, ": ");
        let joined = join_strings(&e.signers, ", ");
        push_all(&mut text, &joined);
    }
    push_str(&mut text, ")");
    proof {
        let part = if e.signers@.len() > 0 {
            ": "@ + join(views(e.signers@), ", "@)
        } else {
            Seq::<char>::empty()
        };
        assert(text@ =~= before + part + ")"@);
    }
    line(&text)
}

fn push_native(out: &mut Vec<String>, n: &NativeTrace)
    ensures
        views(final(out)@) == views(old(out)@) + native_lines(*n),
{
    let ghost start = out@;
    out.push(labelled("trace:       ", n.status.as_str()));
    let ghost head = out@;
    if let Some(e) = n.evidence {
        out.push(labelled("evidence:    ", evidence_name(e)));
    }
    let ghost with_evidence = out@;
    proof {
        let evidence_part = match n.evidence {
            Some(e) => seq!["evidence:    "@ + spec_evidence_name(e)],
            None => Seq::<Seq<char>>::empty(),
        };
        assert(views(with_evidence) =~= views(head) + evidence_part);
    }
    let entries = &n.entries;
    let ghost entry_lines = entries@.map_values(|e: TraceEntryView| entry_line(e));
    let mut i: usize = 0;
    while i < entries.len()
        invariant
            entries == &n.entries,
            i <= entries.len(),
            entry_lines == entries@.map_values(|e: TraceEntryView| entry_line(e)),
            views(out@) == views(with_evidence) + entry_lines.take(i as int),
        decreases entries.len() - i,
    {
        let ghost before = out@;
        out.push(entry_text(&entries[i]));
        proof {
            assert(entry_lines.take(i + 1) =~= entry_lines.take(i as int).push(entry_lines[i as int]));
            assert(views(out@) =~= views(before).push(entry_lines[i as int]));
        }
        i = i + 1;
    }
    assert(entry_lines.take(i as int) =~= entry_lines);
    let ghost with_entries = out@;
    let paths = &n.opaque_paths;
    let ghost opaque_lines = views(paths@).map_values(|p: Seq<char>| opaque_line(p));
    let mut j: usize = 0;
    while j < paths.len()
        invariant
            paths == &n.opaque_paths,
            j <= paths.len(),
            opaque_lines == views(paths@).map_values(|p: Seq<char>| opaque_line(p)),
            views(out@) == views(with_entries) + opaque_lines.take(j as int),
        decreases paths.len() - j,
    {
        let ghost before = out@;
        out.push(labelled("opaque:      ", paths[j].as_str()));
        proof {
            assert(opaque_lines.take(j + 1) =~= opaque_lines.take(j as int).push(opaque_lines[j as int]));
            assert(views(out@) =~= views(before).push(opaque_lines[j as int]));
        }
        j = j + 1;
    }
    assert(opaque_lines.take(j as int) =~= opaque_lines);
    assert(views(out@) =~= views(start) + native_lines(*n));
}

pub fn trace_text(v: &TraceView) -> (r: Vec<String>)
    ensures
        views(r@) == trace_lines(*v),
{
    let mut out: Vec<String> = Vec::new();
    out.push(crate::text::owned("Closure Labs — Once trace"));
    out.push(String::new());
    out.push(labelled("installable: ", v.installable.as_str()));
    let ghost head = out@;
    push_native(&mut out, &v.native);
    let ghost with_native = out@;
    out.push(labelled("decision:    ", v.decision.as_str()));
    out.push(labelled("action:      ", v.action.as_str()));
    assert(views(out@) =~= views(head) + native_lines(v.native) + seq!["decision:    "@ + v.decision.name(), "action:      "@ + v.action.name()]);
    out
}

/// The line on input classification: the counts where Nix reported them,
/// else that they are not classified.
pub open spec fn input_lines(inputs: InputSummary) -> Seq<Seq<char>> {
    match (inputs.content_addressed, inputs.input_addressed, inputs.unknown) {
        (Some(ca), Some(ia), Some(unknown)) => seq![
            "inputs:      "@ + decimal(ca as nat) + " content-addressed, "@ + decimal(ia as nat)
                + " input-addressed, "@ + decimal(unknown as nat) + " unknown"@,
        ],
        _ => seq!["inputs:      not classified"@],
    }
}

/// The lines of `once explain`: evaluation, resolution, inputs, the native
/// trace, the policy's reading of it and the decision.
pub open spec fn explain_lines(report: ResultEnvelope, n: NativeTrace) -> Seq<Seq<char>> {
    seq!["Closure Labs — Once explain"@, Seq::empty(), "installable: "@ + report.installable@]
        + optional_line("nix version: "@, report.nix_version)
        + optional_line("unresolved:  "@, report.derivation.unresolved)
        + optional_line("resolved:    "@, report.derivation.resolved)
        + optional_line("output:      "@, report.derivation.output_name)
        + optional_line("out path:    "@, report.trace.out_path)
        + input_lines(report.inputs)
        + native_lines(n)
        + seq!["policy:      "@ + report.trace.status@]
        + (if report.trace.signers@.len() > 0 {
            seq!["signer:      "@ + join(views(report.trace.signers@), ", "@)]
        } else {
            Seq::empty()
        })
        + seq!["decision:    "@ + report.decision.name(), "action:      "@ + report.action.name()]
}

fn input_text(inputs: &InputSummary) -> (r: String)
    ensures
        seq![r@] == input_lines(*inputs),
{
    match (inputs.content_addressed, inputs.input_addressed, inputs.unknown) {
        (Some(ca), Some(ia), Some(unknown)) => {
            let mut text = chars_of("inputs:      ");
            push_all(&mut text, &decimal_chars(ca));
            push_str(&mut text, " content-addressed, ");
            push_all(&mut text, &decimal_chars(ia));
            push_str(&mut text, " input-addressed, ");
            push_all(&mut text, &decimal_chars(unknown));
            push_str(&mut text, " unknown");
            line(&text)
        },
        _ => crate::text::owned("inputs:      not classified"),
    }
}

pub fn explain_text(report: &ResultEnvelope, n: &NativeTrace) -> (r: Vec<String>)
    ensures
        views(r@) == explain_lines(*report, *n),
{
    let mut out: Vec<String> = Vec::new();
    out.push(crate::text::owned("Closure Labs — Once explain"));
    out.push(String::new());
    out.push(labelled("installable: ", report.installable.as_str()));
    let ghost head = out@;
    assert(views(head) =~= seq!["Closure Labs — Once explain"@, Seq::empty(), "installable: "@ + report.installable@]);
    push_optional(&mut out, "nix version: ", &report.nix_version);
    push_optional(&mut out, "unresolved:  ", &report.derivation.unresolved);
    push_optional(&mut out, "resolved:    ", &report.derivation.resolved);
    push_optional(&mut out, "output:      ", &report.derivation.output_name);
    push_optional(&mut out, "out path:    ", &report.trace.out_path);
    let ghost before_inputs = out@;
    out.push(input_text(&report.inputs));
    assert(views(out@) =~= views(before_inputs) + input_lines(report.inputs));
    let ghost before_native = out@;
    push_native(&mut out, n);
    out.push(labelled("policy:      ", report.trace.status.as_str()));
    let ghost before_signers = out@;
    if report.trace.signers.len() > 0 {
        out.push(labelled_list("signer:      ", &report.trace.signers));
    }
    let ghost after_signers = out@;
    out.push(labelled("decision:    ", report.decision.as_str()));
    out.push(labelled("action:      ", report.action.as_str()));
    proof {
        let signer_part = if report.trace.signers@.len() > 0 {
            seq!["signer:      "@ + join(views(report.trace.signers@), ", "@)]
        } else {
            Seq::<Seq<char>>::empty()
        };
        assert(views(after_signers) =~= views(before_signers) + signer_part);
        assert(views(out@) =~= views(after_signers) + seq!["decision:    "@ + report.decision.name(), "action:      "@ + report.action.name()]);
        assert(views(before_signers) =~= views(before_native) + native_lines(*n) + seq!["policy:      "@ + report.trace.status@]);
        assert(views(out@) =~= explain_lines(*report, *n));
    }
    out
}

} // verus!
