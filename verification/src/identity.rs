//! Identity gate: validates a presented credential against a static identity
//! table built at startup and yields the identity bound to it. A request with
//! a missing or unknown credential is rejected before any later stage runs.

use vstd::prelude::*;
use vstd::string::StringExecFns;

verus! {

/// The identity bound to an authenticated request.
#[derive(Debug, Clone)]
pub struct UserId(pub String);

/// Static credential-to-identity table, immutable for the process lifetime.
#[derive(Clone)]
pub struct ApiKeyAuth {
    apikeys: Vec<(String, String)>,
}

/// The identity label recorded for a request that never passed the identity
/// gate.
pub open spec fn spec_unauthorized_sentinel() -> Seq<char> {
    "UNAUTHORIZED"@
}

/// Returns the fixed sentinel identity used for unauthenticated requests.
pub fn unauthorized_sentinel() -> (s: String)
    ensures
        s@ == spec_unauthorized_sentinel(),
{
    String::from_str("UNAUTHORIZED")
}

/// First-match lookup of `key` in the table entries from index `from` on.
pub open spec fn spec_lookup_from(
    table: Seq<(String, String)>,
    key: Seq<char>,
    from: int,
) -> Option<Seq<char>>
    decreases table.len() - from,
{
    if from < 0 || from >= table.len() {
        None
    } else if table[from].0@ == key {
        Some(table[from].1@)
    } else {
        spec_lookup_from(table, key, from + 1)
    }
}

/// The identity bound to `key` in the table, if any.
pub open spec fn spec_lookup(table: Seq<(String, String)>, key: Seq<char>) -> Option<Seq<char>> {
    spec_lookup_from(table, key, 0)
}

impl ApiKeyAuth {
    /// The credential-to-identity entries this gate was built from.
    pub closed spec fn spec_table(&self) -> Seq<(String, String)> {
        self.apikeys@
    }

    /// Makes an identity table of credential and identity pairs.
    pub fn from_apikeys(apikeys: Vec<(String, String)>) -> (auth: Self)
        ensures
            auth.spec_table() == apikeys@,
    {
        Self { apikeys }
    }

    /// Looks the presented credential up in the identity table.
    ///
    /// Returns the bound identity exactly when a credential was presented and
    /// is known; an absent or unknown credential yields `None`, and the
    /// request must not proceed.
    pub fn validate(&self, credential: Option<&String>) -> (user: Option<UserId>)
        ensures
            match credential {
                None => user is None,
                Some(c) => match user {
                    Some(u) => spec_lookup(self.spec_table(), c@) == Some(u.0@),
                    None => spec_lookup(self.spec_table(), c@) is None,
                },
            },
    {
        match credential {
            None => None,
            Some(c) => {
                let n = self.apikeys.len();
                let mut i: usize = 0;
                while i < n
                    invariant
                        credential == Some(c),
                        n == self.spec_table().len(),
                        0 <= i <= n,
                        spec_lookup(self.spec_table(), c@) == spec_lookup_from(
                            self.spec_table(),
                            c@,
                            i as int,
                        ),
                    decreases n - i,
                {
                    let entry = &self.apikeys[i];
                    if entry.0.eq(c) {
                        return Some(UserId(entry.1.clone()));
                    }
                    i = i + 1;
                }
                None
            },
        }
    }
}

} // verus!
