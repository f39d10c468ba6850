//! Progress accounting: how many items of a run have been attempted so far.
//!
//! The counter is advanced once per attempted item, success or failure, and
//! never moves backwards or past the total. The terminal rewriting that
//! shows the message in place is done by the surrounding binary.

use vstd::prelude::*;
use crate::text::spec_decimal;
use crate::text::decimal_string;

verus! {

/// Progress of one transfer run: `completed` items attempted out of `total`.
#[derive(Debug, Clone, Copy)]
pub struct TransferProgress {
    pub completed: u64,
    pub total: u64,
}

impl TransferProgress {
    /// The counter never exceeds the total.
    pub open spec fn wf(&self) -> bool {
        self.completed <= self.total
    }

    /// A fresh counter for a run of `total` items.
    pub fn new(total: u64) -> (r: TransferProgress)
        ensures
            r.completed == 0,
            r.total == total,
            r.wf(),
    {
        TransferProgress { completed: 0, total }
    }

    /// Counts one more attempted item.
    pub fn advance(&mut self)
        requires
            old(self).wf(),
            old(self).completed < old(self).total,
        ensures
            final(self).completed == old(self).completed + 1,
            final(self).total == old(self).total,
            final(self).wf(),
    {
        self.completed = self.completed + 1;
    }

    /// The in-place progress line, `"<verb> <completed> / <total> files"`.
    pub fn message(&self, verb: &str) -> (r: String)
        ensures
            r@ == verb@ + " "@ + spec_decimal(self.completed as nat) + " / "@ + spec_decimal(
                self.total as nat,
            ) + " files"@,
    {
        proof {
            reveal_strlit(" ");
            reveal_strlit(" / ");
            reveal_strlit(" files");
        }
        let mut s = String::from_str(verb);
        s.append(" ");
        let c = decimal_string(self.completed);
        s.append(c.as_str());
        s.append(" / ");
        let t = decimal_string(self.total);
        s.append(t.as_str());
        s.append(" files");
        s
    }
}

} // verus!
