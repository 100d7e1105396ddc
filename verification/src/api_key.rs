//! The stored credential record and the error raised when a candidate key
//! fails the identity probe.
use vstd::prelude::*;
use vstd::string::StringExecFns;

verus! {

/// The credential record as it is persisted between runs: the key, if one
/// was ever verified, and the display name it belonged to.
#[derive(Debug, Clone)]
pub struct ApiKey {
    pub api_key: Option<String>,
    pub name: String,
}

impl Default for ApiKey {
    /// A fresh record: no key, an empty name.
    fn default() -> (r: Self)
        ensures
            r.api_key is None,
            r.name@ == Seq::<char>::empty(),
    {
        Self { api_key: None, name: String::new() }
    }
}

/// The error a failed identity probe raises: the candidate key was not
/// accepted.
#[derive(Debug, Clone)]
pub struct InvalidAPIKey;

impl InvalidAPIKey {
    pub fn new() -> (r: InvalidAPIKey) {
        InvalidAPIKey
    }

    pub fn message(&self) -> (m: &'static str)
        ensures
            m@ == "InvalidAPIKey used"@,
    {
        "InvalidAPIKey used"
    }
}

} // verus!
