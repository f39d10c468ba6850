//! The listing rule: how many album names are shown.
//!
//! The store reports the album names in listing order. At most the first
//! hundred are printed; when more exist, a truncation warning is emitted
//! instead of the rest.

use vstd::prelude::*;

verus! {

/// The most album names a listing prints.
pub const LIST_LIMIT: usize = 100;

/// What a listing displays: the full count, the names to print in order,
/// and whether names beyond the limit were left out.
#[derive(Debug)]
pub struct ListReport {
    pub total: usize,
    pub shown: Vec<String>,
    pub truncated: bool,
}

impl ListReport {
    /// `shown` is the names up to the limit, in order; `truncated` says
    /// exactly whether there were more.
    pub open spec fn wf(&self, names: Seq<String>) -> bool {
        &&& self.total == names.len()
        &&& self.truncated == (names.len() > LIST_LIMIT)
        &&& self.shown@.len() == (if names.len() <= LIST_LIMIT {
            names.len()
        } else {
            LIST_LIMIT as nat
        })
        &&& forall|i: int| 0 <= i < self.shown@.len() ==> self.shown@[i]@ == names[i]@
    }
}

/// Decides what a listing of `names` displays: all of them if they fit the
/// limit, else the first hundred with a truncation warning.
pub fn list_report(names: &Vec<String>) -> (r: ListReport)
    ensures
        r.wf(names@),
{
    let total = names.len();
    let count = if total > LIST_LIMIT {
        LIST_LIMIT
    } else {
        total
    };
    let mut shown: Vec<String> = Vec::new();
    let mut i: usize = 0;
    while i < count
        invariant
            count <= names@.len(),
            i <= count,
            shown@.len() == i,
            forall|j: int| 0 <= j < i ==> shown@[j]@ == names@[j]@,
        decreases count - i,
    {
        shown.push(names[i].clone());
        i += 1;
    }
    ListReport { total, shown, truncated: total > LIST_LIMIT }
}

} // verus!
