//! The upload operation as a state machine.
//!
//! The machine decides; the surrounding binary acts. Each call returns the
//! next action to perform — create the container, read a file, transform an
//! image, put an object, or finish — and the binary reports the outcome of
//! that action as the next event. Items are attempted exactly once each, in
//! order, strictly sequentially.
//!
//! The failure policy of an upload: a container-creation failure or a local
//! read failure is fatal and ends the run; a transform or transfer failure
//! is counted against that one item and the run continues.

use vstd::prelude::*;
use crate::error::StoreError;
use crate::error::SyncError;
use crate::keys::object_key;
use crate::keys::spec_object_key;
use crate::model::ImageAlbum;
use crate::progress::TransferProgress;

verus! {

/// Where an upload run stands.
#[derive(Debug, Clone, Copy, PartialEq, Eq, Structural)]
pub enum UploadPhase {
    /// Nothing has happened yet.
    Starting,
    /// The container-creation call is in flight.
    CreatingContainer,
    /// The current item's file is being read.
    ReadingItem,
    /// The current item's bytes are being transformed.
    TransformingItem,
    /// The current item's object is being put.
    PuttingItem,
    /// Every item was attempted (or there was nothing to upload).
    Done,
    /// A fatal error ended the run early.
    Failed,
}

/// How an upload run ended.
#[derive(Debug)]
pub enum UploadOutcome {
    /// The folder held no matching images; nothing was attempted and no
    /// container was created.
    NothingToUpload,
    /// Every item was attempted; per-item failures are in the counters.
    Completed,
    /// A fatal error ended the run.
    Aborted { error: SyncError },
}

/// The next piece of outside work an upload run asks for.
#[derive(Debug)]
pub enum UploadAction {
    /// Create the remote container named `name`.
    CreateContainer { name: String },
    /// Read the local file at `path`.
    ReadFile { path: String },
    /// Run `data` through the image transformer.
    TransformImage { data: Vec<u8> },
    /// Store `body` under `key` in `bucket`.
    PutObject { bucket: String, key: String, body: Vec<u8> },
    /// The run is over.
    Finish { outcome: UploadOutcome },
}

/// What the outside work reported back.
#[derive(Debug)]
pub enum UploadEvent {
    /// The container was created.
    ContainerCreated,
    /// The container could not be created (fatal).
    ContainerFailed { error: StoreError },
    /// The current item's file was read.
    FileRead { data: Vec<u8> },
    /// The current item's file could not be read (fatal).
    FileReadFailed,
    /// The transformer produced the downscaled bytes.
    ImageTransformed { data: Vec<u8> },
    /// The transform failed; this item is skipped.
    TransformFailed,
    /// The object was stored.
    ObjectPut,
    /// The put failed; this item is skipped.
    PutFailed,
}

/// One upload run: the album, the target bucket, and the counters.
#[derive(Debug)]
pub struct UploadRun {
    pub album: ImageAlbum,
    pub bucket: String,
    /// Items before `index` have been attempted.
    pub index: usize,
    pub progress: TransferProgress,
    /// Items whose transform or put failed.
    pub failed: u64,
    /// Items whose object was stored.
    pub stored: u64,
    pub phase: UploadPhase,
}

impl UploadRun {
    /// The number of items of the run.
    pub open spec fn spec_total(&self) -> nat {
        self.album.photos@.len()
    }

    /// The run's invariant: counters in step with the index, the index
    /// within bounds, and each phase only where it makes sense.
    pub open spec fn wf(&self) -> bool {
        &&& self.progress.total == self.spec_total()
        &&& self.index <= self.spec_total()
        &&& self.progress.completed == self.index
        &&& self.stored + self.failed == self.progress.completed
        &&& (self.phase is Starting ==> self.index == 0)
        &&& (self.phase is CreatingContainer ==> self.index == 0 && self.spec_total() > 0)
        &&& ((self.phase is ReadingItem || self.phase is TransformingItem || self.phase
            is PuttingItem) ==> self.index < self.spec_total())
        &&& (self.phase is Done ==> self.index == self.spec_total())
    }

    /// Which events fit the current phase.
    pub open spec fn accepts(&self, e: UploadEvent) -> bool {
        match self.phase {
            UploadPhase::CreatingContainer => e is ContainerCreated || e is ContainerFailed,
            UploadPhase::ReadingItem => e is FileRead || e is FileReadFailed,
            UploadPhase::TransformingItem => e is ImageTransformed || e is TransformFailed,
            UploadPhase::PuttingItem => e is ObjectPut || e is PutFailed,
            _ => false,
        }
    }

    /// The album, bucket and total are fixed for the whole run.
    pub open spec fn same_setup(pre: UploadRun, post: UploadRun) -> bool {
        &&& post.album == pre.album
        &&& post.bucket == pre.bucket
        &&& post.progress.total == pre.progress.total
    }

    /// One item was attempted (`fail` says whether it counts as failed):
    /// the counters step, and the run either turns to the next item's file
    /// or, after the last item, finishes with `Completed`.
    pub open spec fn item_step(pre: UploadRun, post: UploadRun, a: UploadAction, fail: bool) -> bool {
        &&& post.index == pre.index + 1
        &&& post.progress.completed == pre.progress.completed + 1
        &&& post.failed == pre.failed + (if fail { 1int } else { 0int })
        &&& post.stored == pre.stored + (if fail { 0int } else { 1int })
        &&& if post.index < pre.spec_total() {
            &&& post.phase is ReadingItem
            &&& (a matches UploadAction::ReadFile { path } && path@ == pre.album.photos@[
                post.index as int].path@)
        } else {
            &&& post.phase is Done
            &&& (a matches UploadAction::Finish { outcome } && outcome is Completed)
        }
    }

    /// A fresh run for `album`, targeting `bucket`.
    pub fn new(album: ImageAlbum, bucket: String) -> (r: UploadRun)
        ensures
            r.wf(),
            r.phase is Starting,
            r.album == album,
            r.bucket == bucket,
            r.index == 0,
            r.failed == 0,
            r.stored == 0,
    {
        let total = album.photos.len() as u64;
        UploadRun {
            album,
            bucket,
            index: 0,
            progress: TransferProgress::new(total),
            failed: 0,
            stored: 0,
            phase: UploadPhase::Starting,
        }
    }

    /// Begins the run. An album with no photos finishes at once — in
    /// particular, no container-creation is asked for; otherwise the first
    /// action is to create the container named after the album.
    pub fn start(&mut self) -> (a: UploadAction)
        requires
            old(self).wf(),
            old(self).phase is Starting,
        ensures
            final(self).wf(),
            UploadRun::same_setup(*old(self), *final(self)),
            final(self).index == 0,
            final(self).failed == 0 == old(self).failed,
            final(self).stored == 0 == old(self).stored,
            old(self).spec_total() == 0 ==> {
                &&& final(self).phase is Done
                &&& (a matches UploadAction::Finish { outcome } && outcome is NothingToUpload)
            },
            old(self).spec_total() > 0 ==> {
                &&& final(self).phase is CreatingContainer
                &&& (a matches UploadAction::CreateContainer { name } && name@
                    == old(self).album.name@)
            },
    {
        if self.album.photos.len() == 0 {
            self.phase = UploadPhase::Done;
            UploadAction::Finish { outcome: UploadOutcome::NothingToUpload }
        } else {
            self.phase = UploadPhase::CreatingContainer;
            UploadAction::CreateContainer { name: self.album.name.clone() }
        }
    }

    /// Steps past the item just attempted and says what comes next: the
    /// next item's file, or the end of the run.
    fn finish_item(&mut self, fail: bool) -> (a: UploadAction)
        requires
            old(self).wf(),
            old(self).phase is ReadingItem || old(self).phase is TransformingItem || old(
                self,
            ).phase is PuttingItem,
        ensures
            final(self).wf(),
            UploadRun::same_setup(*old(self), *final(self)),
            UploadRun::item_step(*old(self), *final(self), a, fail),
    {
        let n = self.album.photos.len();
        assert(self.index < n);
        self.progress.advance();
        self.index = self.index + 1;
        if fail {
            self.failed = self.failed + 1;
        } else {
            self.stored = self.stored + 1;
        }
        if self.index < n {
            self.phase = UploadPhase::ReadingItem;
            UploadAction::ReadFile { path: self.album.photos[self.index].path.clone() }
        } else {
            self.phase = UploadPhase::Done;
            UploadAction::Finish { outcome: UploadOutcome::Completed }
        }
    }

    /// Feeds the outcome of the last action back into the run and returns
    /// the next action.
    pub fn on_event(&mut self, e: UploadEvent) -> (a: UploadAction)
        requires
            old(self).wf(),
            old(self).accepts(e),
        ensures
            final(self).wf(),
            UploadRun::same_setup(*old(self), *final(self)),
            // the container stands: the first item's file is read next
            e is ContainerCreated ==> {
                &&& final(self).index == 0
                &&& final(self).failed == old(self).failed
                &&& final(self).stored == old(self).stored
                &&& final(self).phase is ReadingItem
                &&& (a matches UploadAction::ReadFile { path } && path@ == old(
                    self,
                ).album.photos@[0].path@)
            },
            // container creation failed: fatal, nothing was attempted
            e matches UploadEvent::ContainerFailed { error } ==> {
                &&& final(self).index == 0
                &&& final(self).phase is Failed
                &&& (a matches UploadAction::Finish { outcome } && outcome
                    matches UploadOutcome::Aborted { error: ae } && ae
                    matches SyncError::ContainerCreateError { message: m } && m@
                    == error.spec_message())
            },
            // the file was read: transform it if the album downscales,
            // else put its bytes unchanged
            e matches UploadEvent::FileRead { data } ==> {
                &&& final(self).index == old(self).index
                &&& final(self).failed == old(self).failed
                &&& final(self).stored == old(self).stored
                &&& if old(self).album.downscale {
                    &&& final(self).phase is TransformingItem
                    &&& (a matches UploadAction::TransformImage { data: d } && d@ == data@)
                } else {
                    &&& final(self).phase is PuttingItem
                    &&& (a matches UploadAction::PutObject { bucket, key, body } && bucket@ == old(
                        self,
                    ).bucket@ && key@ == spec_object_key(
                        old(self).album.name@,
                        old(self).album.photos@[old(self).index as int].name@,
                    ) && body@ == data@)
                }
            },
            // a local read failure is fatal and aborts the remaining items
            e is FileReadFailed ==> {
                &&& final(self).index == old(self).index
                &&& final(self).phase is Failed
                &&& (a matches UploadAction::Finish { outcome } && outcome
                    matches UploadOutcome::Aborted { error } && error
                    matches SyncError::FileUnreadable { path } && path@ == old(
                    self,
                ).album.photos@[old(self).index as int].path@)
            },
            // the transform produced the bytes to store
            e matches UploadEvent::ImageTransformed { data } ==> {
                &&& final(self).index == old(self).index
                &&& final(self).failed == old(self).failed
                &&& final(self).stored == old(self).stored
                &&& final(self).phase is PuttingItem
                &&& (a matches UploadAction::PutObject { bucket, key, body } && bucket@ == old(
                    self,
                ).bucket@ && key@ == spec_object_key(
                    old(self).album.name@,
                    old(self).album.photos@[old(self).index as int].name@,
                ) && body@ == data@)
            },
            // a failed transform skips this one item
            e is TransformFailed ==> UploadRun::item_step(*old(self), *final(self), a, true),
            // the object is in the store
            e is ObjectPut ==> UploadRun::item_step(*old(self), *final(self), a, false),
            // a failed put skips this one item
            e is PutFailed ==> UploadRun::item_step(*old(self), *final(self), a, true),
    {
        match e {
            UploadEvent::ContainerCreated => {
                self.phase = UploadPhase::ReadingItem;
                UploadAction::ReadFile { path: self.album.photos[0].path.clone() }
            },
            UploadEvent::ContainerFailed { error } => {
                self.phase = UploadPhase::Failed;
                UploadAction::Finish {
                    outcome: UploadOutcome::Aborted {
                        error: SyncError::ContainerCreateError { message: error.message() },
                    },
                }
            },
            UploadEvent::FileRead { data } => {
                if self.album.downscale {
                    self.phase = UploadPhase::TransformingItem;
                    UploadAction::TransformImage { data }
                } else {
                    self.phase = UploadPhase::PuttingItem;
                    let key = object_key(
                        self.album.name.as_str(),
                        self.album.photos[self.index].name.as_str(),
                    );
                    UploadAction::PutObject { bucket: self.bucket.clone(), key, body: data }
                }
            },
            UploadEvent::FileReadFailed => {
                self.phase = UploadPhase::Failed;
                UploadAction::Finish {
                    outcome: UploadOutcome::Aborted {
                        error: SyncError::FileUnreadable {
                            path: self.album.photos[self.index].path.clone(),
                        },
                    },
                }
            },
            UploadEvent::ImageTransformed { data } => {
                self.phase = UploadPhase::PuttingItem;
                let key = object_key(
                    self.album.name.as_str(),
                    self.album.photos[self.index].name.as_str(),
                );
                UploadAction::PutObject { bucket: self.bucket.clone(), key, body: data }
            },
            UploadEvent::TransformFailed => self.finish_item(true),
            UploadEvent::ObjectPut => self.finish_item(false),
            UploadEvent::PutFailed => self.finish_item(true),
        }
    }

    /// Law: when an upload run has attempted every item, the progress
    /// counter has reached the total — every attempt was counted, success
    /// or failure — and the objects stored are exactly the attempts that
    /// did not fail.
    pub proof fn lemma_upload_accounting(self)
        requires
            self.wf(),
            self.phase is Done,
        ensures
            self.progress.completed == self.progress.total,
            self.stored == self.progress.total - self.failed,
    {
    }
}

} // verus!
