//! Saved request collections, and lookup of a request in one.

use vstd::prelude::*;
use crate::error::{AppError, ErrorView};
use crate::request::HttpRequest;
use crate::text::same_text;

verus! {

broadcast use vstd::string::group_string_axioms;

pub struct SavedRequest {
    pub name: String,
    pub description: Option<String>,
    pub request: HttpRequest,
}

pub struct Collection {
    pub name: String,
    pub description: Option<String>,
    /// Saved requests under their keys.
    pub requests: Vec<(String, SavedRequest)>,
}

/// The message for a request key that a collection lacks.
pub open spec fn missing_request_message(request: Seq<char>, collection: Seq<char>) -> Seq<char> {
    "Request '"@ + request + "' not found in collection '"@ + collection + "'"@
}

impl Collection {
    /// No key names two saved requests.
    pub open spec fn wf(&self) -> bool {
        forall|i: int, j: int|
            0 <= i < j < self.requests@.len() ==> #[trigger] self.requests@[i].0@
                != #[trigger] self.requests@[j].0@
    }

    /// Whether no key names two saved requests.
    pub fn keys_distinct(&self) -> (r: bool)
        ensures
            r == self.wf(),
    {
        let n = self.requests.len();
        let mut j: usize = 0;
        while j < n
            invariant
                n == self.requests@.len(),
                j <= n,
                forall|a: int, b: int|
                    0 <= a < b < j ==> #[trigger] self.requests@[a].0@
                        != #[trigger] self.requests@[b].0@,
            decreases n - j,
        {
            let mut i: usize = 0;
            while i < j
                invariant
                    n == self.requests@.len(),
                    i <= j < n,
                    forall|a: int, b: int|
                        0 <= a < b < j ==> #[trigger] self.requests@[a].0@
                            != #[trigger] self.requests@[b].0@,
                    forall|a: int| 0 <= a < i ==> #[trigger] self.requests@[a].0@ != self.requests@[j as int].0@,
                decreases j - i,
            {
                if same_text(self.requests[i].0.as_str(), self.requests[j].0.as_str()) {
                    return false;
                }
                i += 1;
            }
            j += 1;
        }
        true
    }

    /// The saved request under `key`, or the error naming the key and the
    /// collection.
    pub fn find_request(&self, key: &str) -> (r: Result<&SavedRequest, AppError>)
        requires
            self.wf(),
        ensures
            match r {
                Ok(s) => exists|i: int|
                    {
                        &&& 0 <= i < self.requests@.len()
                        &&& self.requests@[i].0@ == key@
                        &&& *s == self.requests@[i].1
                    },
                Err(e) => e@ == ErrorView::Other(missing_request_message(key@, self.name@))
                    && forall|j: int| 0 <= j < self.requests@.len() ==> self.requests@[j].0@ != key@,
            },
    {
        let mut i: usize = 0;
        while i < self.requests.len()
            invariant
                i <= self.requests@.len(),
                forall|j: int| 0 <= j < i ==> self.requests@[j].0@ != key@,
            decreases self.requests@.len() - i,
        {
            if same_text(self.requests[i].0.as_str(), key) {
                return Ok(&self.requests[i].1);
            }
            i += 1;
        }
        let mut msg = String::from_str("Request '");
        msg.append(key);
        msg.append("' not found in collection '");
        msg.append(self.name.as_str());
        msg.append("'");
        Err(AppError::Other(msg))
    }
}

} // verus!
