//! Settings read once per run.

use vstd::prelude::*;
use crate::fields::FieldMap;

verus! {

#[verifier::external_type_specification]
#[verifier::external_body]
pub struct ExPathBuf(std::path::PathBuf);

pub const DEFAULT_TIMEOUT_SECS: u64 = 30;

pub const DEFAULT_MAX_HISTORY: usize = 100;

pub struct AppConfig {
    /// Headers sent with every request, before those given on the command.
    pub default_headers: FieldMap,
    /// Prefix for request URLs given without a scheme.
    pub base_url: Option<String>,
    pub timeout_secs: u64,
    pub follow_redirects: bool,
    /// The most history entries kept.
    pub max_history: usize,
    pub collections_dir: std::path::PathBuf,
}

impl AppConfig {
    pub open spec fn wf(&self) -> bool {
        self.default_headers.wf()
    }

    /// The default settings, with collections under `collections_dir`.
    pub fn with_collections_dir(collections_dir: std::path::PathBuf) -> (r: AppConfig)
        ensures
            r.wf(),
            r.default_headers@.len() == 0,
            r.base_url is None,
            r.timeout_secs == DEFAULT_TIMEOUT_SECS,
            r.follow_redirects,
            r.max_history == DEFAULT_MAX_HISTORY,
            r.collections_dir == collections_dir,
    {
        AppConfig {
            default_headers: FieldMap::new(),
            base_url: None,
            timeout_secs: DEFAULT_TIMEOUT_SECS,
            follow_redirects: true,
            max_history: DEFAULT_MAX_HISTORY,
            collections_dir,
        }
    }
}

} // verus!
