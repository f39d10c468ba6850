//! The download operation as a state machine.
//!
//! Like the upload, the machine decides and the surrounding binary acts:
//! fetch an object, write a local file, finish. Keys are taken in listing
//! order; an object with an empty body is skipped with a diagnostic, the
//! rest are written under the key with its album prefix stripped, byte for
//! byte as fetched.
//!
//! A failed fetch or write is fatal to the whole download — stricter than
//! the upload's per-item tolerance. The two policies are deliberately kept
//! distinct rather than unified.

use vstd::prelude::*;
use crate::error::StoreError;
use crate::error::SyncError;
use crate::keys::local_filename;
use crate::keys::spec_local_name;
use crate::progress::TransferProgress;

verus! {

/// Where a download run stands.
#[derive(Debug, Clone, Copy, PartialEq, Eq, Structural)]
pub enum DownloadPhase {
    /// Nothing has happened yet.
    Starting,
    /// The current key's object is being fetched.
    FetchingItem,
    /// The current key's bytes are being written to a local file.
    WritingItem,
    /// Every key was attempted.
    Done,
    /// A fatal error ended the run early.
    Failed,
}

/// How a download run ended.
#[derive(Debug)]
pub enum DownloadOutcome {
    /// Every key was attempted (an empty listing completes at once).
    Completed,
    /// A fatal error ended the run.
    Aborted { error: SyncError },
}

/// The next piece of outside work a download run asks for.
#[derive(Debug)]
pub enum DownloadAction {
    /// Fetch the object under `key` from `bucket`.
    FetchObject { bucket: String, key: String },
    /// Write `body` to the local file named `filename`, overwriting it.
    WriteFile { filename: String, body: Vec<u8> },
    /// The run is over.
    Finish { outcome: DownloadOutcome },
}

/// What the outside work reported back.
#[derive(Debug)]
pub enum DownloadEvent {
    /// The object's full body, buffered; empty is a valid result.
    ObjectFetched { body: Vec<u8> },
    /// The fetch failed (fatal).
    FetchFailed { error: StoreError },
    /// The local file was written.
    FileWritten,
    /// The local write failed (fatal).
    WriteFailed { message: String },
}

/// One download run: the keys of the album, the bucket, and the counters.
#[derive(Debug)]
pub struct DownloadRun {
    pub bucket: String,
    /// The album's object keys, in listing order.
    pub keys: Vec<String>,
    /// Keys before `index` have been attempted.
    pub index: usize,
    pub progress: TransferProgress,
    /// Keys whose object had an empty body and was not written.
    pub skipped: u64,
    pub phase: DownloadPhase,
}

impl DownloadRun {
    /// The number of keys of the run.
    pub open spec fn spec_total(&self) -> nat {
        self.keys@.len()
    }

    /// The run's invariant.
    pub open spec fn wf(&self) -> bool {
        &&& self.progress.total == self.spec_total()
        &&& self.index <= self.spec_total()
        &&& self.progress.completed == self.index
        &&& self.skipped <= self.progress.completed
        &&& (self.phase is Starting ==> self.index == 0)
        &&& ((self.phase is FetchingItem || self.phase is WritingItem) ==> self.index
            < self.spec_total())
        &&& (self.phase is Done ==> self.index == self.spec_total())
    }

    /// Which events fit the current phase.
    pub open spec fn accepts(&self, e: DownloadEvent) -> bool {
        match self.phase {
            DownloadPhase::FetchingItem => e is ObjectFetched || e is FetchFailed,
            DownloadPhase::WritingItem => e is FileWritten || e is WriteFailed,
            _ => false,
        }
    }

    /// The keys, bucket and total are fixed for the whole run.
    pub open spec fn same_setup(pre: DownloadRun, post: DownloadRun) -> bool {
        &&& post.keys == pre.keys
        &&& post.bucket == pre.bucket
        &&& post.progress.total == pre.progress.total
    }

    /// One key was attempted (`skip` says whether its empty body was
    /// skipped): the counters step, and the run either turns to fetching
    /// the next key or, after the last, finishes with `Completed`.
    pub open spec fn item_step(
        pre: DownloadRun,
        post: DownloadRun,
        a: DownloadAction,
        skip: bool,
    ) -> bool {
        &&& post.index == pre.index + 1
        &&& post.progress.completed == pre.progress.completed + 1
        &&& post.skipped == pre.skipped + (if skip { 1int } else { 0int })
        &&& if post.index < pre.spec_total() {
            &&& post.phase is FetchingItem
            &&& (a matches DownloadAction::FetchObject { bucket, key } && bucket@ == pre.bucket@
                && key@ == pre.keys@[post.index as int]@)
        } else {
            &&& post.phase is Done
            &&& (a matches DownloadAction::Finish { outcome } && outcome is Completed)
        }
    }

    /// A fresh run over `keys`, fetching from `bucket`.
    pub fn new(bucket: String, keys: Vec<String>) -> (r: DownloadRun)
        ensures
            r.wf(),
            r.phase is Starting,
            r.bucket == bucket,
            r.keys == keys,
            r.index == 0,
            r.skipped == 0,
    {
        let total = keys.len() as u64;
        DownloadRun {
            bucket,
            keys,
            index: 0,
            progress: TransferProgress::new(total),
            skipped: 0,
            phase: DownloadPhase::Starting,
        }
    }

    /// Begins the run. An empty listing is not an error: the run finishes
    /// at once; otherwise the first key is fetched.
    pub fn start(&mut self) -> (a: DownloadAction)
        requires
            old(self).wf(),
            old(self).phase is Starting,
        ensures
            final(self).wf(),
            DownloadRun::same_setup(*old(self), *final(self)),
            final(self).index == 0,
            final(self).skipped == 0 == old(self).skipped,
            old(self).spec_total() == 0 ==> {
                &&& final(self).phase is Done
                &&& (a matches DownloadAction::Finish { outcome } && outcome is Completed)
            },
            old(self).spec_total() > 0 ==> {
                &&& final(self).phase is FetchingItem
                &&& (a matches DownloadAction::FetchObject { bucket, key } && bucket@ == old(
                    self,
                ).bucket@ && key@ == old(self).keys@[0]@)
            },
    {
        if self.keys.len() == 0 {
            self.phase = DownloadPhase::Done;
            DownloadAction::Finish { outcome: DownloadOutcome::Completed }
        } else {
            self.phase = DownloadPhase::FetchingItem;
            DownloadAction::FetchObject {
                bucket: self.bucket.clone(),
                key: self.keys[0].clone(),
            }
        }
    }

    /// Steps past the key just attempted and says what comes next.
    fn finish_item(&mut self, skip: bool) -> (a: DownloadAction)
        requires
            old(self).wf(),
            old(self).phase is FetchingItem || old(self).phase is WritingItem,
        ensures
            final(self).wf(),
            DownloadRun::same_setup(*old(self), *final(self)),
            DownloadRun::item_step(*old(self), *final(self), a, skip),
    {
        let n = self.keys.len();
        assert(self.index < n);
        self.progress.advance();
        self.index = self.index + 1;
        if skip {
            self.skipped = self.skipped + 1;
        }
        if self.index < n {
            self.phase = DownloadPhase::FetchingItem;
            DownloadAction::FetchObject {
                bucket: self.bucket.clone(),
                key: self.keys[self.index].clone(),
            }
        } else {
            self.phase = DownloadPhase::Done;
            DownloadAction::Finish { outcome: DownloadOutcome::Completed }
        }
    }

    /// Feeds the outcome of the last action back into the run and returns
    /// the next action.
    pub fn on_event(&mut self, e: DownloadEvent) -> (a: DownloadAction)
        requires
            old(self).wf(),
            old(self).accepts(e),
        ensures
            final(self).wf(),
            DownloadRun::same_setup(*old(self), *final(self)),
            // a fetched body: empty means this key is skipped, otherwise
            // the bytes are written unchanged under the stripped key
            e matches DownloadEvent::ObjectFetched { body } ==> {
                if body@.len() == 0 {
                    DownloadRun::item_step(*old(self), *final(self), a, true)
                } else {
                    &&& final(self).index == old(self).index
                    &&& final(self).skipped == old(self).skipped
                    &&& final(self).phase is WritingItem
                    &&& (a matches DownloadAction::WriteFile { filename, body: b } && filename@
                        == spec_local_name(old(self).keys@[old(self).index as int]@) && b@
                        == body@)
                }
            },
            // a failed fetch aborts the whole download
            e matches DownloadEvent::FetchFailed { error } ==> {
                &&& final(self).index == old(self).index
                &&& final(self).phase is Failed
                &&& (a matches DownloadAction::Finish { outcome } && outcome
                    matches DownloadOutcome::Aborted { error: ae } && ae
                    matches SyncError::PerItemTransferError { message: m } && m@
                    == error.spec_message())
            },
            // the file is on disk: this key is done
            e is FileWritten ==> DownloadRun::item_step(*old(self), *final(self), a, false),
            // a failed write aborts the whole download
            e matches DownloadEvent::WriteFailed { message } ==> {
                &&& final(self).index == old(self).index
                &&& final(self).phase is Failed
                &&& (a matches DownloadAction::Finish { outcome } && outcome
                    matches DownloadOutcome::Aborted { error } && error
                    matches SyncError::PerItemTransferError { message: m } && m@ == message@)
            },
    {
        match e {
            DownloadEvent::ObjectFetched { body } => {
                if body.len() == 0 {
                    self.finish_item(true)
                } else {
                    self.phase = DownloadPhase::WritingItem;
                    let filename = local_filename(self.keys[self.index].as_str());
                    DownloadAction::WriteFile { filename, body }
                }
            },
            DownloadEvent::FetchFailed { error } => {
                self.phase = DownloadPhase::Failed;
                DownloadAction::Finish {
                    outcome: DownloadOutcome::Aborted {
                        error: SyncError::PerItemTransferError { message: error.message() },
                    },
                }
            },
            DownloadEvent::FileWritten => self.finish_item(false),
            DownloadEvent::WriteFailed { message } => {
                self.phase = DownloadPhase::Failed;
                DownloadAction::Finish {
                    outcome: DownloadOutcome::Aborted {
                        error: SyncError::PerItemTransferError { message },
                    },
                }
            },
        }
    }

    /// Law: when a download run has attempted every key, the progress
    /// counter has reached the total, and every key was either written or
    /// skipped for an empty body.
    pub proof fn lemma_download_accounting(self)
        requires
            self.wf(),
            self.phase is Done,
        ensures
            self.progress.completed == self.progress.total,
            self.skipped <= self.progress.total,
    {
    }
}

} // verus!
