//! The Nix adapter: what is asked of Nix and what its answers mean.

use vstd::prelude::*;

use crate::backend::BackendDescription;
use crate::config::Config;
use crate::error::OnceError;
use crate::json::{check_json, json_keys_at, json_string_at, json_valid, keys_at, string_at};
use crate::text::{
    chars_of, contains, copy_strings, eq_ignore_ascii_case, eq_ignore_case, has_prefix,
    has_substring, has_suffix, lower_seq, lowercase, nonblank_line_list, nonblank_lines, owned,
    push_all, push_str, split_chars, split_on, split_whitespace, starts_with, ends_with, strip,
    strip_class, string_of, trim, trim_chars, words, view_set, is_ascii_alnum, is_ascii_hex,
    ascii_alnum, ascii_hex, views, CharClass,
};
use crate::trace::{normalize_store_path, normalized_store_path, store_prefix, TraceRecords};
use crate::policy::opt_view;
use crate::version::{prerelease_ok, semver_order, semver_parse, triple_order, Version, VersionView};

verus! {

/// What evaluating an installable showed.
#[derive(Clone, Debug)]
pub struct Evaluation {
    /// The unresolved derivation path, where Nix named one.
    pub unresolved_drv: Option<String>,
}

impl Default for Evaluation {
    fn default() -> (r: Evaluation)
        ensures
            r.unresolved_drv is None,
    {
        Evaluation { unresolved_drv: None }
    }
}

/// Where trace records came from.
#[derive(Clone, Copy, Debug, PartialEq, Eq, Structural)]
pub enum TrustEvidence {
    /// The trusted local store, which validated the signatures.
    LocalStore,
    /// A remote store whose signatures Nix did not validate.
    UnverifiedRemote,
}

/// The answer of one build-trace query.
#[derive(Clone, Debug)]
pub enum TraceQuery {
    Found { records: TraceRecords, evidence: TrustEvidence },
    Miss(String),
    Untrusted(String),
    Failed(String),
}

} // verus!

verus! {

/// What a finished Nix process left behind.
#[derive(Clone, Debug)]
pub struct CommandOutput {
    /// Whether the process reported success.
    pub success: bool,
    /// The exit status, 40 where the process gave none.
    pub status: i32,
    pub stdout: String,
    pub stderr: String,
}

/// How Once invokes Nix: the executable and the stores it names.
#[derive(Clone, Debug)]
pub struct NixAdapter {
    pub executable: String,
    /// The store for every `nix` subcommand (`--store`), where one is set.
    pub store: Option<String>,
    /// The store for evaluation (`--eval-store`), where one is set.
    pub eval_store: Option<String>,
    /// The store that Nix itself selects from `NIX_REMOTE` when no `--store`
    /// is passed, where that variable is set.
    pub nix_remote: Option<String>,
}

/// The experimental features that every `nix` subcommand enables.
pub open spec fn features() -> Seq<char> {
    "nix-command flakes ca-derivations"@
}

/// The full argument list of a `nix` subcommand: the features, the store if
/// one is set, then the subcommand's own arguments.
pub open spec fn nix_argument_list(adapter: NixAdapter, arguments: Seq<Seq<char>>) -> Seq<Seq<char>> {
    seq!["--extra-experimental-features"@, features()] + (match adapter.store {
        Some(store) => seq!["--store"@, store@],
        None => Seq::empty(),
    }) + arguments
}

/// The subcommand's arguments, then `--eval-store` if an evaluation store is set.
pub open spec fn with_eval_store(adapter: NixAdapter, arguments: Seq<Seq<char>>) -> Seq<Seq<char>> {
    arguments + (match adapter.eval_store {
        Some(store) => seq!["--eval-store"@, store@],
        None => Seq::empty(),
    })
}

/// The first index at which `pre` occurs in `s`.
pub open spec fn first_pre(s: Seq<char>) -> Option<int>
    decreases s.len(),
{
    if s.len() < 3 {
        None
    } else if s[0] == 'p' && s[1] == 'r' && s[2] == 'e' {
        Some(0)
    } else {
        match first_pre(s.drop_first()) {
            Some(i) => Some(i + 1),
            None => None,
        }
    }
}

/// A snapshot character as a pre-release identifier may hold it.
pub open spec fn snapshot_char(c: char) -> char {
    if is_ascii_alnum(c) || c == '-' {
        c
    } else {
        '-'
    }
}

/// `2.36.0pre20260822_88b09c6` read as `2.36.0-pre.20260822-88b09c6`.
pub open spec fn snapshot_text(part: Seq<char>) -> Option<Seq<char>> {
    match first_pre(part) {
        None => None,
        Some(i) => {
            let snapshot = part.skip(i + 3);
            if snapshot.len() == 0 {
                None
            } else {
                Some(part.take(i) + "-pre."@ + snapshot.map_values(|c: char| snapshot_char(c)))
            }
        },
    }
}

/// The version that one token names, directly or as a Nix snapshot.
pub open spec fn token_version(part: Seq<char>) -> Option<VersionView> {
    if semver_parse(part) is Some {
        semver_parse(part)
    } else {
        match snapshot_text(part) {
            Some(t) => semver_parse(t),
            None => None,
        }
    }
}

/// The version named by the last word that names one.
pub open spec fn version_in_words(ws: Seq<Seq<char>>) -> Option<VersionView>
    decreases ws.len(),
{
    if ws.len() == 0 {
        None
    } else {
        match token_version(strip(ws.last(), CharClass::NotVersionChar)) {
            Some(v) => Some(v),
            None => version_in_words(ws.drop_last()),
        }
    }
}

/// The version that the output of `nix --version` reports.
pub open spec fn reported_version(output: Seq<char>) -> Option<VersionView> {
    version_in_words(words(output))
}

fn snapshot_version_text(part: &Vec<char>) -> (r: Option<Vec<char>>)
    ensures
        match snapshot_text(part@) {
            Some(t) => r matches Some(x) && x@ == t,
            None => r is None,
        },
{
    let mut i: usize = 0;
    assert(part@.skip(0) =~= part@);
    while i < part.len() && part.len() - i >= 3 && !(part[i] == 'p' && part[i + 1] == 'r' && part[i + 2] == 'e')
        invariant
            i <= part.len(),
            first_pre(part@) == match first_pre(part@.skip(i as int)) {
                Some(k) => Some(k + i),
                None => None,
            },
        decreases part.len() - i,
    {
        proof {
            assert(part@.skip(i as int).drop_first() =~= part@.skip(i + 1));
        }
        i = i + 1;
    }
    if i >= part.len() || part.len() - i < 3 {
        return None;
    }
    proof {
        assert(part@.skip(i as int)[0] == part@[i as int]);
        assert(part@.skip(i as int)[1] == part@[i + 1]);
        assert(part@.skip(i as int)[2] == part@[i + 2]);
    }
    let start = i + 3;
    if start == part.len() {
        proof {
            assert(part@.skip(start as int).len() == 0);
        }
        return None;
    }
    let mut out: Vec<char> = Vec::new();
    let mut k: usize = 0;
    while k < i
        invariant
            k <= i,
            i + 3 <= part.len(),
            out@ =~= part@.take(k as int),
        decreases i - k,
    {
        out.push(part[k]);
        k = k + 1;
    }
    push_str(&mut out, "-pre.");
    let ghost head = out@;
    let mut j: usize = start;
    while j < part.len()
        invariant
            start <= j <= part.len(),
            out@ =~= head + part@.subrange(start as int, j as int).map_values(|c: char| snapshot_char(c)),
        decreases part.len() - j,
    {
        let c = part[j];
        if ascii_alnum(c) || c == '-' {
            out.push(c);
        } else {
            out.push('-');
        }
        j = j + 1;
    }
    proof {
        assert(part@.subrange(start as int, j as int) =~= part@.skip(start as int));
    }
    Some(out)
}

fn token_version_of(part: &Vec<char>) -> (r: Option<Version>)
    ensures
        match token_version(part@) {
            Some(v) => r matches Some(x) && x@ == v,
            None => r is None,
        },
        r matches Some(x) ==> (x.pre@.len() == 0 || prerelease_ok(x.pre@)),
{
    let text = string_of(part);
    if let Some(v) = Version::parse(text.as_str()) {
        return Some(v);
    }
    match snapshot_version_text(part) {
        Some(t) => {
            let text = string_of(&t);
            Version::parse(text.as_str())
        },
        None => None,
    }
}

/// Finds the version in the output of `nix --version`: the last
/// white-space-separated word that, with surrounding punctuation removed,
/// parses as a semantic version, directly or after a Nix snapshot suffix
/// such as `pre20260822_88b09c6` is rewritten as a pre-release.
pub fn parse_nix_version(value: &str) -> (r: Result<Version, OnceError>)
    ensures
        match reported_version(value@) {
            Some(v) => r matches Ok(x) && x@ == v,
            None => r matches Err(OnceError::NixVersion(s)) && s@ == value@,
        },
        r matches Ok(x) ==> (x.pre@.len() == 0 || prerelease_ok(x.pre@)),
{
    let chars = chars_of(value);
    let ws = split_whitespace(&chars);
    let ghost all = words(chars@);
    let mut k: usize = ws.len();
    assert(all.take(k as int) =~= all);
    while k > 0
        invariant
            k <= ws@.len(),
            ws@.len() == all.len(),
            forall|m: int| 0 <= m < ws@.len() ==> #[trigger] ws@[m]@ == all[m],
            version_in_words(all) == version_in_words(all.take(k as int)),
            all == words(value@),
        decreases k,
    {
        let part = strip_class(&ws[k - 1], CharClass::NotVersionChar);
        proof {
            assert(all.take(k as int).last() == all[k - 1]);
            assert(all.take(k as int).drop_last() =~= all.take(k - 1));
        }
        if let Some(v) = token_version_of(&part) {
            proof {
                assert(strip(all.take(k as int).last(), CharClass::NotVersionChar) == part@);
                assert(version_in_words(all.take(k as int)) == Some(v@));
            }
            return Ok(v);
        }
        k = k - 1;
    }
    Err(OnceError::NixVersion(owned(value)))
}

impl NixAdapter {
    /// An adapter that runs `executable` against the given stores;
    /// `nix_remote` is the value of `NIX_REMOTE`, where it is set.
    pub fn new(
        executable: String,
        store: Option<String>,
        eval_store: Option<String>,
        nix_remote: Option<String>,
    ) -> (r: NixAdapter)
        ensures
            r.executable == executable,
            r.store == store,
            r.eval_store == eval_store,
            r.nix_remote == nix_remote,
    {
        NixAdapter { executable, store, eval_store, nix_remote }
    }

    /// The arguments of a `nix` subcommand with the features enabled and the
    /// store selected.
    pub fn nix_arguments(&self, arguments: Vec<String>) -> (r: Vec<String>)
        ensures
            r@.map_values(|s: String| s@) == nix_argument_list(*self, arguments@.map_values(|s: String| s@)),
    {
        let mut r: Vec<String> = Vec::new();
        r.push(owned("--extra-experimental-features"));
        r.push(owned("nix-command flakes ca-derivations"));
        if let Some(store) = &self.store {
            r.push(owned("--store"));
            r.push(store.clone());
        }
        let ghost head = r@;
        let mut rest = arguments;
        r.append(&mut rest);
        proof {
            let tail = arguments@.map_values(|s: String| s@);
            let store_part = match &self.store {
                Some(store) => seq!["--store"@, store@],
                None => Seq::<Seq<char>>::empty(),
            };
            assert(r@.map_values(|s: String| s@) =~= seq!["--extra-experimental-features"@, features()] + store_part + tail);
        }
        r
    }

    /// Appends `--eval-store` and the evaluation store, if one is set.
    fn add_eval_store(&self, arguments: &mut Vec<String>)
        ensures
            final(arguments)@.map_values(|s: String| s@) == with_eval_store(*self, old(arguments)@.map_values(|s: String| s@)),
    {
        let ghost start = arguments@;
        if let Some(store) = &self.eval_store {
            arguments.push(owned("--eval-store"));
            arguments.push(store.clone());
        }
        proof {
            let extra = match &self.eval_store {
                Some(store) => seq!["--eval-store"@, store@],
                None => Seq::<Seq<char>>::empty(),
            };
            assert(arguments@.map_values(|s: String| s@) =~= start.map_values(|s: String| s@) + extra);
        }
    }

    /// The error for a Nix process that reported failure.
    pub fn failed(&self, output: CommandOutput) -> (r: OnceError)
        ensures
            r matches OnceError::CommandFailed { program, status, stderr } && program == self.executable
                && status == output.status && stderr@ == trim(output.stderr@),
    {
        let stderr = chars_of(output.stderr.as_str());
        let trimmed = trim_chars(&stderr);
        OnceError::CommandFailed {
            program: self.executable.clone(),
            status: output.status,
            stderr: string_of(&trimmed),
        }
    }

    /// The version from the output of `nix --version`.
    pub fn version(&self, output: CommandOutput) -> (r: Result<Version, OnceError>)
        ensures
            !output.success ==> (r matches Err(OnceError::CommandFailed { program, status, stderr })
                && program == self.executable && status == output.status && stderr@ == trim(output.stderr@)),
            output.success ==> match reported_version(trim(output.stdout@)) {
                Some(v) => r matches Ok(x) && x@ == v,
                None => r matches Err(OnceError::NixVersion(s)) && s@ == trim(output.stdout@),
            },
            r matches Ok(x) ==> (x.pre@.len() == 0 || prerelease_ok(x.pre@)),
    {
        if !output.success {
            return Err(self.failed(output));
        }
        let stdout = chars_of(output.stdout.as_str());
        let trimmed = string_of(&trim_chars(&stdout));
        parse_nix_version(trimmed.as_str())
    }
}

} // verus!

verus! {

// ---------------------------------------------------------------------------
// The external policy reference
// ---------------------------------------------------------------------------

pub open spec fn github_scheme() -> Seq<char> {
    seq!['g', 'i', 't', 'h', 'u', 'b', ':']
}

/// A full Git commit: 40 hexadecimal digits.
pub open spec fn is_full_revision(revision: Seq<char>) -> bool {
    revision.len() == 40 && forall|k: int| 0 <= k < 40 ==> is_ascii_hex(#[trigger] revision[k])
}

pub open spec fn revision_message() -> Seq<char> {
    "policy revision must be a full 40-character Git commit"@
}

pub open spec fn github_message() -> Seq<char> {
    "v0.2 requires a github:OWNER/REPO/COMMIT policy reference"@
}

pub open spec fn embed_message() -> Seq<char> {
    "policy reference must embed the same full commit supplied by --policy-revision"@
}

/// Whether `reference` is `github:OWNER/REPO/COMMIT` with a non-empty owner and
/// repository and the commit equal to `expected`, ignoring ASCII case.
pub open spec fn pins_revision(reference: Seq<char>, expected: Seq<char>) -> bool {
    let segments = split_on(reference.skip(7), '/');
    &&& starts_with(reference, github_scheme())
    &&& segments.len() == 3
    &&& segments[0].len() > 0
    &&& segments[1].len() > 0
    &&& eq_ignore_case(segments[2], expected)
}

/// Why an external policy reference is refused, in the order of the checks;
/// `None` for an immutable reference to the expected commit.
pub open spec fn reference_problem(reference: Seq<char>, expected: Seq<char>) -> Option<Seq<char>> {
    if !is_full_revision(expected) {
        Some(revision_message())
    } else if !starts_with(reference, github_scheme()) {
        Some(github_message())
    } else if !pins_revision(reference, expected) {
        Some(embed_message())
    } else {
        None
    }
}

/// Accepts only `github:OWNER/REPO/COMMIT` where COMMIT is the full expected
/// revision: branches, tags and abbreviated commits are refused.
pub fn validate_policy_reference(reference: &str, expected_revision: &str) -> (r: Result<(), OnceError>)
    ensures
        match reference_problem(reference@, expected_revision@) {
            None => r is Ok,
            Some(m) => r matches Err(OnceError::Policy(msg)) && msg@ == m,
        },
{
    let expected = chars_of(expected_revision);
    let mut all_hex = expected.len() == 40;
    let mut k: usize = 0;
    while all_hex && k < expected.len()
        invariant
            k <= expected.len(),
            all_hex ==> expected.len() == 40,
            all_hex ==> forall|j: int| 0 <= j < k ==> is_ascii_hex(#[trigger] expected@[j]),
            !all_hex ==> !is_full_revision(expected@),
        decreases expected.len() - k,
    {
        if !ascii_hex(expected[k]) {
            all_hex = false;
        }
        k = k + 1;
    }
    if !all_hex {
        return Err(OnceError::Policy(owned("policy revision must be a full 40-character Git commit")));
    }
    let reference_chars = chars_of(reference);
    let scheme = chars_of("github:");
    proof {
        reveal_strlit("github:");
        assert(scheme@ =~= github_scheme());
    }
    if !has_prefix(&reference_chars, &scheme) {
        return Err(OnceError::Policy(owned("v0.2 requires a github:OWNER/REPO/COMMIT policy reference")));
    }
    let mut path: Vec<char> = Vec::new();
    let mut i: usize = 7;
    while i < reference_chars.len()
        invariant
            7 <= i <= reference_chars.len(),
            path@ =~= reference_chars@.subrange(7, i as int),
        decreases reference_chars.len() - i,
    {
        path.push(reference_chars[i]);
        i = i + 1;
    }
    assert(path@ =~= reference@.skip(7));
    let segments = split_chars(&path, '/');
    if segments.len() != 3 || segments[0].len() == 0 || segments[1].len() == 0
        || !eq_ignore_ascii_case(&segments[2], &expected) {
        return Err(OnceError::Policy(owned("policy reference must embed the same full commit supplied by --policy-revision")));
    }
    Ok(())
}

/// The revision that `nix flake metadata --json` reports: `revision`, else
/// `locked.rev`, where either is a string.
pub open spec fn metadata_revision(output: Seq<char>) -> Option<Seq<char>> {
    if json_string_at(output, "/revision"@) is Some {
        json_string_at(output, "/revision"@)
    } else {
        json_string_at(output, "/locked/rev"@)
    }
}

pub open spec fn no_revision_message() -> Seq<char> {
    "Nix metadata did not report a locked revision"@
}

/// Reads the locked revision from the JSON of `nix flake metadata`.
pub fn parse_flake_revision(output: &str) -> (r: Result<String, OnceError>)
    ensures
        !json_valid(output@) ==> (r matches Err(OnceError::NixJson { output: o, .. }) && o@ == output@),
        json_valid(output@) ==> match metadata_revision(output@) {
            Some(v) => r matches Ok(s) && s@ == v,
            None => r matches Err(OnceError::Policy(m)) && m@ == no_revision_message(),
        },
{
    match check_json(output) {
        Err(source) => {
            return Err(OnceError::NixJson { source, output: owned(output) });
        },
        Ok(()) => {},
    }
    if let Some(revision) = string_at(output, "/revision") {
        return Ok(revision);
    }
    match string_at(output, "/locked/rev") {
        Some(revision) => Ok(revision),
        None => Err(OnceError::Policy(owned("Nix metadata did not report a locked revision"))),
    }
}

// ---------------------------------------------------------------------------
// Evaluation and build traces
// ---------------------------------------------------------------------------

/// The first key that names a derivation file.
pub open spec fn first_drv_key(keys: Seq<Seq<char>>) -> Option<Seq<char>>
    decreases keys.len(),
{
    if keys.len() == 0 {
        None
    } else if ends_with(keys[0], ".drv"@) {
        Some(keys[0])
    } else {
        first_drv_key(keys.drop_first())
    }
}

/// The unresolved derivation that `nix derivation show` reports: the first key
/// of its `derivations` map, as a store path, or else the first top-level key
/// that ends in `.drv`.
pub open spec fn shown_derivation(output: Seq<char>) -> Option<Seq<char>> {
    match json_keys_at(output, ""@) {
        _ if json_keys_at(output, "/derivations"@) is Some && json_keys_at(output, "/derivations"@)->0.len() > 0 =>
            Some(normalized_store_path(json_keys_at(output, "/derivations"@)->0[0])),
        Some(keys) => first_drv_key(keys),
        None => None,
    }
}

/// The miss diagnostics of `build-trace info`, in lower case.
pub open spec fn is_miss_text(lower: Seq<char>) -> bool {
    ||| contains(lower, "unbuilt derivation"@)
    ||| contains(lower, "no build trace"@)
    ||| contains(lower, "does not have a realization"@)
}

/// The trust diagnostics of `build-trace info`, in lower case.
pub open spec fn is_untrusted_text(lower: Seq<char>) -> bool {
    ||| contains(lower, "untrusted"@)
    ||| contains(lower, "not signed"@)
    ||| (contains(lower, "signature"@) && contains(lower, "invalid"@))
}

/// What a failed build-trace query means, from its trimmed diagnostic.
pub open spec fn failure_query(diagnostic: Seq<char>, q: TraceQuery) -> bool {
    let lower = lower_seq(diagnostic);
    if is_miss_text(lower) {
        q matches TraceQuery::Miss(d) && d@ == diagnostic
    } else if is_untrusted_text(lower) {
        q matches TraceQuery::Untrusted(d) && d@ == diagnostic
    } else {
        q matches TraceQuery::Failed(d) && d@ == diagnostic
    }
}

/// The store that the `nix` subcommands query: the adapter's store, else the
/// one that `NIX_REMOTE` names, else none (Nix's default local store).
pub open spec fn store_in_use(adapter: NixAdapter) -> Option<String> {
    match adapter.store {
        Some(store) => Some(store),
        None => adapter.nix_remote,
    }
}

/// Records from the store in use are trusted only if it is local: no store
/// named, a `local?…` store or the daemon.
pub open spec fn spec_evidence(adapter: NixAdapter) -> TrustEvidence {
    match store_in_use(adapter) {
        None => TrustEvidence::LocalStore,
        Some(store) => if starts_with(store@, "local?"@) || store@ == "daemon"@ {
            TrustEvidence::LocalStore
        } else {
            TrustEvidence::UnverifiedRemote
        },
    }
}

/// The strings of a list, in order; entries that are not strings are dropped.
pub open spec fn string_entries(list: Seq<Option<String>>) -> Seq<Seq<char>>
    decreases list.len(),
{
    if list.len() == 0 {
        Seq::empty()
    } else {
        string_entries(list.drop_last()) + match list.last() {
            Some(s) => seq![s@],
            None => Seq::<Seq<char>>::empty(),
        }
    }
}

/// The index of the first setting at or after `from` named `name`.
pub open spec fn setting_index(
    settings: Seq<(String, Option<Vec<Option<String>>>)>,
    name: Seq<char>,
    from: int,
) -> Option<int>
    decreases settings.len() - from,
{
    if from < 0 || from >= settings.len() {
        None
    } else if settings[from].0@ == name {
        Some(from)
    } else {
        setting_index(settings, name, from + 1)
    }
}

/// The enabled experimental features: the strings of the first
/// `experimental-features` setting whose value is a list, else none.
pub open spec fn listed_features(settings: Seq<(String, Option<Vec<Option<String>>>)>) -> Seq<Seq<char>> {
    match setting_index(settings, "experimental-features"@, 0) {
        Some(i) => match settings[i].1 {
            Some(list) => string_entries(list@),
            None => Seq::empty(),
        },
        None => Seq::empty(),
    }
}

/// Whether the error reports a failed Nix process with its trimmed output.
pub open spec fn is_failure_of(adapter: NixAdapter, output: CommandOutput, e: OnceError) -> bool {
    e matches OnceError::CommandFailed { program, status, stderr } && program == adapter.executable
        && status == output.status && stderr@ == trim(output.stderr@)
}

fn strings(parts: Vec<&str>) -> (r: Vec<String>)
    ensures
        views(r@) == parts@.map_values(|s: &str| s@),
{
    let mut r: Vec<String> = Vec::new();
    let mut i: usize = 0;
    while i < parts.len()
        invariant
            i <= parts.len(),
            views(r@) =~= parts@.take(i as int).map_values(|s: &str| s@),
        decreases parts.len() - i,
    {
        r.push(owned(parts[i]));
        i = i + 1;
        assert(parts@.take(i as int).map_values(|s: &str| s@) =~= parts@.take(i - 1).map_values(|s: &str| s@).push(parts@[i - 1]@));
    }
    assert(parts@.take(i as int) =~= parts@);
    r
}

impl NixAdapter {
    /// The arguments of `nix derivation show` for an installable.
    pub fn evaluate_arguments(&self, installable: &str) -> (r: Vec<String>)
        ensures
            views(r@) == with_eval_store(*self, seq!["derivation"@, "show"@, installable@]),
    {
        let mut r = strings(vec!["derivation", "show", installable]);
        self.add_eval_store(&mut r);
        r
    }

    /// The unresolved derivation from the output of `nix derivation show`.
    #[verifier::loop_isolation(false)]
    pub fn evaluate(&self, output: CommandOutput) -> (r: Result<Evaluation, OnceError>)
        ensures
            !output.success ==> (r matches Err(e) && is_failure_of(*self, output, e)),
            output.success && !json_valid(output.stdout@) ==> (r matches Err(OnceError::NixJson { output: o, .. }) && o@ == output.stdout@),
            output.success && json_valid(output.stdout@) ==> (r matches Ok(ev) && opt_view(ev.unresolved_drv) == shown_derivation(output.stdout@)),
    {
        if !output.success {
            return Err(self.failed(output));
        }
        match check_json(output.stdout.as_str()) {
            Err(source) => {
                return Err(OnceError::NixJson { source, output: output.stdout });
            },
            Ok(()) => {},
        }
        if let Some(keys) = keys_at(output.stdout.as_str(), "/derivations") {
            if keys.len() > 0 {
                let path = normalize_store_path(keys[0].as_str());
                return Ok(Evaluation { unresolved_drv: Some(path) });
            }
        }
        match keys_at(output.stdout.as_str(), "") {
            None => Ok(Evaluation { unresolved_drv: None }),
            Some(keys) => {
                let suffix = chars_of(".drv");
                let mut k: usize = 0;
                let ghost all = json_keys_at(output.stdout@, ""@)->0;
                assert(all.skip(0) =~= all);
                while k < keys.len()
                    invariant
                        k <= keys.len(),
                        keys@.len() == all.len(),
                        forall|m: int| 0 <= m < keys@.len() ==> #[trigger] keys@[m]@ == all[m],
                        suffix@ == ".drv"@,
                        first_drv_key(all) == first_drv_key(all.skip(k as int)),
                    decreases keys.len() - k,
                {
                    let key = chars_of(keys[k].as_str());
                    proof {
                        assert(all.skip(k as int)[0] == all[k as int]);
                        assert(all.skip(k as int).drop_first() =~= all.skip(k + 1));
                    }
                    if has_suffix(&key, &suffix) {
                        return Ok(Evaluation { unresolved_drv: Some(keys[k].clone()) });
                    }
                    k = k + 1;
                }
                assert(all.skip(k as int).len() == 0);
                Ok(Evaluation { unresolved_drv: None })
            },
        }
    }

    /// The arguments of `nix store build-trace info` for an installable.
    pub fn trace_arguments(&self, installable: &str) -> (r: Vec<String>)
        ensures
            views(r@) == with_eval_store(
                *self,
                seq!["store"@, "build-trace"@, "info"@, installable@, "--json"@],
            ),
    {
        let mut r = strings(vec!["store", "build-trace", "info", installable, "--json"]);
        self.add_eval_store(&mut r);
        r
    }

    /// Where records from the store in use come from: the local store when
    /// none is named, one named `local?…` or `daemon`; any other is remote.
    pub fn evidence(&self) -> (r: TrustEvidence)
        ensures
            r == spec_evidence(*self),
    {
        let in_use = match &self.store {
            Some(store) => Some(store),
            None => self.nix_remote.as_ref(),
        };
        match in_use {
            None => TrustEvidence::LocalStore,
            Some(store) => {
                let chars = chars_of(store.as_str());
                let local = chars_of("local?");
                let daemon = chars_of("daemon");
                if has_prefix(&chars, &local) || crate::text::chars_equal(&chars, &daemon) {
                    TrustEvidence::LocalStore
                } else {
                    TrustEvidence::UnverifiedRemote
                }
            },
        }
    }

    /// The answer of `nix store build-trace info`: the records (`records` is
    /// the parse of the output's JSON, consulted only when the process
    /// succeeded) with the store's evidence, or the meaning of its diagnostic.
    pub fn trace(&self, output: CommandOutput, records: Result<TraceRecords, serde_json::Error>) -> (r:
        Result<TraceQuery, OnceError>)
        ensures
            output.success ==> match records {
                Ok(rec) => r matches Ok(TraceQuery::Found { records: x, evidence }) && x == rec && evidence
                    == spec_evidence(*self),
                Err(_) => r matches Err(OnceError::NixJson { output: o, .. }) && o@ == output.stdout@,
            },
            !output.success ==> (r matches Ok(q) && failure_query(trim(output.stderr@), q)),
    {
        if output.success {
            return match records {
                Ok(records) => Ok(TraceQuery::Found { records, evidence: self.evidence() }),
                Err(source) => Err(OnceError::NixJson { source, output: output.stdout }),
            };
        }
        let stderr = chars_of(output.stderr.as_str());
        let diagnostic = trim_chars(&stderr);
        let lower = lowercase(&diagnostic);
        let text = string_of(&diagnostic);
        if has_substring(&lower, &chars_of("unbuilt derivation")) || has_substring(&lower, &chars_of("no build trace"))
            || has_substring(&lower, &chars_of("does not have a realization")) {
            Ok(TraceQuery::Miss(text))
        } else if has_substring(&lower, &chars_of("untrusted")) || has_substring(&lower, &chars_of("not signed"))
            || (has_substring(&lower, &chars_of("signature")) && has_substring(&lower, &chars_of("invalid"))) {
            Ok(TraceQuery::Untrusted(text))
        } else {
            Ok(TraceQuery::Failed(text))
        }
    }

    /// The arguments of `nix build` for an installable.
    pub fn build_arguments(&self, installable: &str) -> (r: Vec<String>)
        ensures
            views(r@) == with_eval_store(
                *self,
                seq!["build"@, installable@, "--no-link"@, "--json"@],
            ),
    {
        let mut r = strings(vec!["build", installable, "--no-link", "--json"]);
        self.add_eval_store(&mut r);
        r
    }

    /// The experimental features that `nix config show --json` lists: the
    /// string entries of the first setting named `experimental-features`,
    /// where its value is a list. `settings` is the parse of the output, each
    /// setting by name with its value as a list of optional strings (`None`
    /// for an entry that is not a string) where the value is a list; it is
    /// consulted only when the process succeeded.
    #[verifier::loop_isolation(false)]
    pub fn configured_features(
        &self,
        output: CommandOutput,
        settings: Result<Vec<(String, Option<Vec<Option<String>>>)>, serde_json::Error>,
    ) -> (r: Result<Vec<String>, OnceError>)
        ensures
            !output.success ==> (r matches Err(e) && is_failure_of(*self, output, e)),
            output.success ==> match settings {
                Ok(list) => r matches Ok(features) && views(features@) == listed_features(list@),
                Err(_) => r matches Err(OnceError::NixJson { output: o, .. }) && o@ == output.stdout@,
            },
    {
        if !output.success {
            return Err(self.failed(output));
        }
        let settings = match settings {
            Ok(settings) => settings,
            Err(source) => {
                return Err(OnceError::NixJson { source, output: output.stdout });
            },
        };
        let name = owned("experimental-features");
        let mut i: usize = 0;
        while i < settings.len()
            invariant
                i <= settings.len(),
                name@ == "experimental-features"@,
                setting_index(settings@, name@, 0) == setting_index(settings@, name@, i as int),
            decreases settings.len() - i,
        {
            if settings[i].0 == name {
                let mut features: Vec<String> = Vec::new();
                if let Some(list) = &settings[i].1 {
                    let mut j: usize = 0;
                    while j < list.len()
                        invariant
                            j <= list.len(),
                            views(features@) == string_entries(list@.take(j as int)),
                        decreases list.len() - j,
                    {
                        proof {
                            assert(list@.take(j + 1).drop_last() =~= list@.take(j as int));
                        }
                        if let Some(feature) = &list[j] {
                            features.push(feature.clone());
                        }
                        proof {
                            assert(string_entries(list@.take(j + 1)) =~= string_entries(list@.take(j as int)) + match list@[j as int] {
                                Some(f) => seq![f@],
                                None => Seq::<Seq<char>>::empty(),
                            });
                        }
                        j = j + 1;
                    }
                    assert(list@.take(j as int) =~= list@);
                }
                return Ok(features);
            }
            i = i + 1;
        }
        Ok(Vec::new())
    }

    /// Whether `nix build` succeeded.
    pub fn build(&self, output: CommandOutput) -> (r: Result<(), OnceError>)
        ensures
            output.success ==> r is Ok,
            !output.success ==> (r matches Err(e) && is_failure_of(*self, output, e)),
    {
        if output.success {
            Ok(())
        } else {
            Err(self.failed(output))
        }
    }
}

} // verus!

verus! {

// ---------------------------------------------------------------------------
// Diagnosis of the Nix installation
// ---------------------------------------------------------------------------

/// What `once doctor` found.
#[derive(Clone, Debug)]
pub struct DoctorState {
    pub version: Version,
    pub minimum: Version,
    pub build_trace_command: bool,
    pub ca_derivations_configured: bool,
    pub required_features: Vec<String>,
    pub backend: BackendDescription,
}

impl DoctorState {
    /// Nix is new enough, offers `build-trace`, and has content-addressed
    /// derivations enabled.
    pub open spec fn spec_suitable(&self) -> bool {
        &&& semver_order(self.version@, self.minimum@) >= 0
        &&& self.build_trace_command
        &&& self.ca_derivations_configured
    }

    #[verifier::when_used_as_spec(spec_suitable)]
    pub fn suitable(&self) -> (r: bool)
        ensures
            r == self.spec_suitable(),
            self.version@ == self.minimum@ ==> r == (self.build_trace_command && self.ca_derivations_configured),
            triple_order(self.version@, self.minimum@) != 0 ==> r == (triple_order(self.version@, self.minimum@) > 0
                && self.build_trace_command && self.ca_derivations_configured),
    {
        !self.version.less_than(&self.minimum) && self.build_trace_command && self.ca_derivations_configured
    }
}

impl NixAdapter {
    /// The arguments that ask whether `nix store build-trace info` exists.
    pub fn help_arguments(&self) -> (r: Vec<String>)
        ensures
            views(r@) == seq!["store"@, "build-trace"@, "info"@, "--help"@],
    {
        strings(vec!["store", "build-trace", "info", "--help"])
    }

    /// Assembles the diagnosis from the version that `nix --version` reported,
    /// the outcome of the `build-trace info --help` probe, the experimental
    /// features that `nix config show` lists and the backend.
    pub fn doctor(
        &self,
        config: &Config,
        version: Version,
        help: &CommandOutput,
        configured_features: &Vec<String>,
        backend: BackendDescription,
    ) -> (r: DoctorState)
        ensures
            r.version == version,
            r.minimum@ == config.nix.minimum_version@,
            r.build_trace_command == help.success,
            r.ca_derivations_configured == view_set(configured_features@).contains("ca-derivations"@),
            r.required_features@ == config.nix.required_experimental_features@,
            r.backend == backend,
    {
        let ca = owned("ca-derivations");
        DoctorState {
            version,
            minimum: config.nix.minimum_version.copied(),
            build_trace_command: help.success,
            ca_derivations_configured: crate::text::holds_string(configured_features, &ca),
            required_features: copy_strings(&config.nix.required_experimental_features),
            backend,
        }
    }
}

// ---------------------------------------------------------------------------
// Loading policy from an immutable flake
// ---------------------------------------------------------------------------

/// Where the loading of an external policy stands.
#[derive(Clone, Copy, Debug, PartialEq, Eq, Structural)]
pub enum PolicyStage {
    /// Waiting for `nix flake metadata`.
    Metadata,
    /// Waiting for `nix build …#policy`.
    Build,
    /// Waiting for `nix store cat` of the policy artifact.
    Contents,
    /// Loaded or failed.
    Done,
}

/// The state of loading an external policy.
pub struct PolicyLoad {
    pub reference: String,
    pub expected_revision: String,
    pub stage: PolicyStage,
    /// The revision that Nix reported for the flake, once it was read.
    pub revision: Ghost<Option<Seq<char>>>,
    /// The store path of the built policy, once the build reported it.
    pub artifact: Ghost<Option<Seq<char>>>,
}

/// What the program around the library must do next while loading a policy.
pub enum PolicyStep {
    /// Run `nix` with these subcommand arguments and report its output.
    Run(Vec<String>),
    /// The policy text.
    Loaded(String),
    /// Loading failed.
    Failed(OnceError),
}

pub open spec fn mismatch_message(actual: Seq<char>, expected: Seq<char>) -> Seq<char> {
    "flake resolved to revision "@ + actual + ", expected "@ + expected
}

pub open spec fn no_path_message() -> Seq<char> {
    "policy build did not return one Nix store path"@
}

pub open spec fn many_paths_message() -> Seq<char> {
    "policy build returned more than one Nix store path"@
}

pub open spec fn empty_policy_message() -> Seq<char> {
    "policy artifact is empty"@
}

/// The installable of the policy output of a flake.
pub open spec fn policy_installable(reference: Seq<char>) -> Seq<char> {
    reference + "#policy"@
}

impl PolicyLoad {
    /// What every stage has established: the reference pins the expected
    /// commit; past metadata, Nix reported that commit; past the build, the
    /// build named exactly one store path.
    pub open spec fn wf(self) -> bool {
        &&& reference_problem(self.reference@, self.expected_revision@) is None
        &&& (self.stage is Build || self.stage is Contents) ==> (self.revision@ matches Some(rev)
            && eq_ignore_case(rev, self.expected_revision@))
        &&& self.stage is Contents ==> (self.artifact@ matches Some(p) && starts_with(p, store_prefix()))
    }
}

impl NixAdapter {
    /// Starts loading policy from `reference`, pinned to `expected_revision`:
    /// refuses a mutable or mismatched reference before Nix is asked anything,
    /// else asks for the flake's metadata.
    pub fn load_policy(&self, reference: &str, expected_revision: &str) -> (r: (PolicyLoad, PolicyStep))
        ensures
            r.0.reference@ == reference@,
            r.0.expected_revision@ == expected_revision@,
            match reference_problem(reference@, expected_revision@) {
                Some(m) => r.0.stage == PolicyStage::Done && (r.1 matches PolicyStep::Failed(OnceError::Policy(msg)) && msg@ == m),
                None => r.0.stage == PolicyStage::Metadata && r.0.wf() && (r.1 matches PolicyStep::Run(args)
                    && views(args@) == seq!["flake"@, "metadata"@, reference@, "--json"@]),
            },
    {
        let checked = validate_policy_reference(reference, expected_revision);
        match checked {
            Err(e) => (
                PolicyLoad {
                    reference: owned(reference),
                    expected_revision: owned(expected_revision),
                    stage: PolicyStage::Done,
                    revision: Ghost(None),
                    artifact: Ghost(None),
                },
                PolicyStep::Failed(e),
            ),
            Ok(()) => (
                PolicyLoad {
                    reference: owned(reference),
                    expected_revision: owned(expected_revision),
                    stage: PolicyStage::Metadata,
                    revision: Ghost(None),
                    artifact: Ghost(None),
                },
                PolicyStep::Run(strings(vec!["flake", "metadata", reference, "--json"])),
            ),
        }
    }

    /// Takes the output of the `nix` command that the last step asked for and
    /// decides the next step.
    pub fn continue_policy(&self, load: &mut PolicyLoad, output: CommandOutput) -> (step: PolicyStep)
        requires
            old(load).wf(),
            !(old(load).stage is Done),
        ensures
            final(load).wf(),
            final(load).reference == old(load).reference,
            final(load).expected_revision == old(load).expected_revision,
            step is Run <==> !(final(load).stage is Done),
            // Policy text comes only from the artifact of the pinned commit.
            step is Loaded ==> (old(load).stage is Contents
                && reference_problem(final(load).reference@, final(load).expected_revision@) is None
                && (final(load).revision@ matches Some(rev) && eq_ignore_case(rev, final(load).expected_revision@))
                && (final(load).artifact@ matches Some(p) && starts_with(p, store_prefix()))),
            !output.success ==> final(load).stage is Done && (step matches PolicyStep::Failed(e) && is_failure_of(*self, output, e)),
            output.success && old(load).stage is Metadata ==> {
                let out = output.stdout@;
                if !json_valid(out) {
                    final(load).stage is Done && (step matches PolicyStep::Failed(OnceError::NixJson { output: o, .. }) && o@ == out)
                } else {
                    match metadata_revision(out) {
                        None => final(load).stage is Done && (step matches PolicyStep::Failed(OnceError::Policy(m)) && m@ == no_revision_message()),
                        Some(rev) => if eq_ignore_case(rev, old(load).expected_revision@) {
                            final(load).stage is Build && final(load).revision@ == Some(rev) && (step matches PolicyStep::Run(args)
                                && views(args@) == seq!["build"@, policy_installable(old(load).reference@), "--no-link"@, "--print-out-paths"@])
                        } else {
                            final(load).stage is Done && (step matches PolicyStep::Failed(OnceError::Policy(m))
                                && m@ == mismatch_message(rev, old(load).expected_revision@))
                        },
                    }
                }
            },
            output.success && old(load).stage is Build ==> {
                let lines = nonblank_lines(output.stdout@);
                if lines.len() == 0 || !starts_with(trim(lines[0]), store_prefix()) {
                    final(load).stage is Done && (step matches PolicyStep::Failed(OnceError::Policy(m)) && m@ == no_path_message())
                } else if lines.len() > 1 {
                    final(load).stage is Done && (step matches PolicyStep::Failed(OnceError::Policy(m)) && m@ == many_paths_message())
                } else {
                    final(load).stage is Contents && final(load).artifact@ == Some(trim(lines[0])) && (step matches PolicyStep::Run(args)
                        && views(args@) == seq!["store"@, "cat"@, trim(lines[0])])
                }
            },
            output.success && old(load).stage is Contents ==> final(load).stage is Done && if trim(output.stdout@).len() == 0 {
                step matches PolicyStep::Failed(OnceError::Policy(m)) && m@ == empty_policy_message()
            } else {
                step matches PolicyStep::Loaded(text) && text@ == output.stdout@
            },
    {
        if !output.success {
            load.stage = PolicyStage::Done;
            return PolicyStep::Failed(self.failed(output));
        }
        match load.stage {
            PolicyStage::Metadata => {
                let actual = match parse_flake_revision(output.stdout.as_str()) {
                    Ok(actual) => actual,
                    Err(e) => {
                        load.stage = PolicyStage::Done;
                        return PolicyStep::Failed(e);
                    },
                };
                let actual_chars = chars_of(actual.as_str());
                let expected_chars = chars_of(load.expected_revision.as_str());
                if !eq_ignore_ascii_case(&actual_chars, &expected_chars) {
                    let mut msg: Vec<char> = Vec::new();
                    push_str(&mut msg, "flake resolved to revision ");
                    push_all(&mut msg, &actual_chars);
                    push_str(&mut msg, ", expected ");
                    push_all(&mut msg, &expected_chars);
                    load.stage = PolicyStage::Done;
                    return PolicyStep::Failed(OnceError::Policy(string_of(&msg)));
                }
                let mut installable = chars_of(load.reference.as_str());
                push_str(&mut installable, "#policy");
                let installable = string_of(&installable);
                load.revision = Ghost(Some(actual@));
                load.stage = PolicyStage::Build;
                PolicyStep::Run(strings(vec!["build", installable.as_str(), "--no-link", "--print-out-paths"]))
            },
            PolicyStage::Build => {
                let stdout = chars_of(output.stdout.as_str());
                let lines = nonblank_line_list(&stdout);
                if lines.len() == 0 {
                    load.stage = PolicyStage::Done;
                    return PolicyStep::Failed(OnceError::Policy(owned("policy build did not return one Nix store path")));
                }
                let path = trim_chars(&lines[0]);
                let prefix = chars_of("/nix/store/");
                proof {
                    reveal_strlit("/nix/store/");
                    assert(prefix@ =~= store_prefix());
                }
                if !has_prefix(&path, &prefix) {
                    load.stage = PolicyStage::Done;
                    return PolicyStep::Failed(OnceError::Policy(owned("policy build did not return one Nix store path")));
                }
                if lines.len() > 1 {
                    load.stage = PolicyStage::Done;
                    return PolicyStep::Failed(OnceError::Policy(owned("policy build returned more than one Nix store path")));
                }
                let path_text = string_of(&path);
                load.artifact = Ghost(Some(path@));
                load.stage = PolicyStage::Contents;
                PolicyStep::Run(strings(vec!["store", "cat", path_text.as_str()]))
            },
            _ => {
                load.stage = PolicyStage::Done;
                let stdout = chars_of(output.stdout.as_str());
                if crate::text::is_blank(&stdout) {
                    return PolicyStep::Failed(OnceError::Policy(owned("policy artifact is empty")));
                }
                PolicyStep::Loaded(output.stdout)
            },
        }
    }
}

} // verus!
