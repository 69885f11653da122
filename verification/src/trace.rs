//! Native Nix build-trace records.

use vstd::prelude::*;

use crate::text::{chars_of, push_str, string_of};

verus! {

/// A signature on a build-trace entry: the signing key's name and the
/// signature text.
#[derive(Clone, Debug)]
pub struct Signature {
    pub key_name: String,
    pub sig: String,
}

/// A resolved derivation path and one of its outputs.
#[derive(Clone, Debug)]
pub struct TraceKey {
    pub drv_path: String,
    pub output_name: String,
}

/// The output path recorded for a key, with its signatures.
#[derive(Clone, Debug)]
pub struct TraceValue {
    pub out_path: String,
    pub signatures: Vec<Signature>,
}

/// One base build-trace entry.
#[derive(Clone, Debug)]
pub struct TraceEntry {
    pub key: TraceKey,
    pub value: TraceValue,
}

/// The records of one build-trace query: base entries, in the order Nix
/// returned them, and the opaque output paths listed beside them.
#[derive(Clone, Debug)]
pub struct TraceRecords {
    pub entries: Vec<TraceEntry>,
    pub opaque_paths: Vec<String>,
}

impl Default for TraceRecords {
    fn default() -> (r: TraceRecords)
        ensures
            r.entries@.len() == 0,
            r.opaque_paths@.len() == 0,
    {
        TraceRecords { entries: Vec::new(), opaque_paths: Vec::new() }
    }
}

/// The Nix store directory that relative cache paths live in.
pub open spec fn store_prefix() -> Seq<char> {
    seq!['/', 'n', 'i', 'x', '/', 's', 't', 'o', 'r', 'e', '/']
}

/// A store path as shown and compared: absolute paths stay, and a path that
/// does not start with `/` is taken to be relative to `/nix/store/`.
pub open spec fn normalized_store_path(path: Seq<char>) -> Seq<char> {
    if path.len() > 0 && path[0] == '/' {
        path
    } else {
        store_prefix() + path
    }
}

pub fn normalize_store_path(path: &str) -> (r: String)
    ensures
        r@ == normalized_store_path(path@),
{
    let chars = chars_of(path);
    if chars.len() > 0 && chars[0] == '/' {
        string_of(&chars)
    } else {
        let mut out: Vec<char> = Vec::new();
        let prefix = "/nix/store/";
        push_str(&mut out, prefix);
        proof {
            reveal_strlit("/nix/store/");
            assert(prefix@ =~= store_prefix());
        }
        let mut all = out;
        crate::text::push_all(&mut all, &chars);
        string_of(&all)
    }
}

} // verus!
