//! The Nix store backend that trace queries go through.

use vstd::prelude::*;

use crate::text::copy_opt;

verus! {

/// What a backend reports of itself.
#[derive(Clone, Debug)]
pub struct BackendDescription {
    pub kind: &'static str,
    pub store: Option<String>,
}

/// The backend that the process environment selects: the store named by
/// `ONCE_NIX_STORE`, else by `NIX_REMOTE`, else Nix's default.
#[derive(Clone, Debug)]
pub struct EnvironmentBackend;

impl Default for EnvironmentBackend {
    fn default() -> (r: EnvironmentBackend) {
        EnvironmentBackend
    }
}

impl EnvironmentBackend {
    /// Describes the backend from the values of `ONCE_NIX_STORE` and
    /// `NIX_REMOTE`, the first that is set naming the store.
    pub fn describe(&self, once_nix_store: &Option<String>, nix_remote: &Option<String>) -> (r:
        BackendDescription)
        ensures
            r.kind@ == "nix-environment"@,
            r.store == (if once_nix_store is Some {
                *once_nix_store
            } else {
                *nix_remote
            }),
    {
        let store = if once_nix_store.is_some() {
            copy_opt(once_nix_store)
        } else {
            copy_opt(nix_remote)
        };
        BackendDescription { kind: "nix-environment", store }
    }
}

} // verus!
