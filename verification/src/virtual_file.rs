//! The logical file: a path, the options to open it again, a position, and
//! a cached reference to the slot that may still hold its descriptor.
//!
//! Every function here decides and records; none touches a file.  A caller
//! asks `lock_file` for the descriptor, performs the system call on what it
//! is given, and reports back where the state depends on the outcome.

use crate::io_error::{Error, ErrorKind};
use crate::labels::{labels_of, metric_labels};
use crate::open_options::OpenOptions;
use crate::slot_pool::{
    Closing, LockState, Lookup, OpenFiles, PoolView, Slot, SlotHandle, Victim,
};
use crate::transfer::Transfer;
use vstd::prelude::*;

verus! {

/// From where a seek is measured.
#[derive(Clone, Copy, Debug, PartialEq, Eq, Structural)]
pub enum SeekFrom {
    /// From the first byte of the file.
    Start(u64),
    /// From the end of the file.
    End(i64),
    /// From the current position.
    Current(i64),
}


/// The kinds of operation whose duration is observed.
#[derive(Clone, Copy, Debug, PartialEq, Eq, Structural)]
pub enum StorageIoOperation {
    /// The first open of a file.
    Open,
    /// An open that brings back a descriptor which was evicted.
    OpenAfterReplace,
    /// The close of a descriptor whose file is going away.
    Close,
    /// The close of a descriptor that is evicted for another file.
    CloseByReplace,
    /// A read at an offset.
    Read,
    /// A write at an offset.
    Write,
    /// A seek to the end of the file.
    Seek,
    /// A flush of the file to the device.
    Fsync,
    /// A query of the file's metadata.
    Metadata,
}

/// How a logical file gets at its descriptor.
#[derive(Debug)]
pub enum Resolution<F> {
    /// The cached slot still holds the descriptor.  The slot is locked
    /// shared for the caller, who uses `OpenFiles::file(index)` and then
    /// gives the lock back with `OpenFiles::release(index)`.
    Ready { index: usize },
    /// The lock of the cached slot cannot be shared now.  The caller waits
    /// for slot `index` and asks again.
    Busy { index: usize },
    /// Somebody else is opening this file again.  The caller waits for that
    /// to end and asks again: the descriptor may then be there.
    Reopening,
    /// The descriptor is gone and a slot was taken for a new one.  The
    /// caller closes `evicted`, opens the file with the stored options and
    /// reports with `finish_reopen` or `fail_reopen`.
    Reopen { slot: SlotHandle, evicted: Option<F> },
    /// The descriptor is gone and every slot is locked.  The caller waits
    /// for slot `index`, takes it with `OpenFiles::claim` and goes on as
    /// after `Reopen`.
    Contended { index: usize },
}

/// A request for the descriptor, with the kind of operation that it is for.
#[derive(Debug)]
pub struct Access<F> {
    /// The operation to observe.
    pub op: StorageIoOperation,
    /// Where the descriptor is, or what to do to get it.
    pub resolution: Resolution<F>,
}

/// What a seek has done so far.
#[derive(Debug)]
pub enum Seek<F> {
    /// The position is set, to this offset.
    At(u64),
    /// The position is unchanged.  The caller finds the end of the file
    /// with the descriptor that `access` leads to, and calls
    /// `seek_from_end` with it and with this offset.
    FromEnd { offset: i64, access: Access<F> },
}

/// A logical file.
#[derive(Debug)]
pub struct VirtualFile {
    /// Where the descriptor was last stored.  The slot may hold it still, be
    /// empty, or hold the descriptor of another file.
    handle: SlotHandle,
    /// Set while one caller opens the file again, so that no second one
    /// does.
    reopening: bool,
    /// The position of sequential reads and writes.
    pos: u64,
    /// The path of the file.
    pub path: String,
    /// The options to open the file again: those it was opened with, minus
    /// the ones that create or truncate.
    open_options: OpenOptions,
    /// The tenant under whose name the file's traffic is counted.
    tenant_id: String,
    /// The timeline under whose name the file's traffic is counted.
    timeline_id: String,
}

/// A logical file as contracts see it.
pub struct VirtualFileView {
    pub handle: SlotHandle,
    pub reopening: bool,
    pub pos: u64,
    pub path: Seq<char>,
    pub open_options: OpenOptions,
    pub tenant_id: Seq<char>,
    pub timeline_id: Seq<char>,
}

impl View for VirtualFile {
    type V = VirtualFileView;

    closed spec fn view(&self) -> VirtualFileView {
        VirtualFileView {
            handle: self.handle,
            reopening: self.reopening,
            pos: self.pos,
            path: self.path@,
            open_options: self.open_options,
            tenant_id: self.tenant_id@,
            timeline_id: self.timeline_id@,
        }
    }
}

/// A file that is about to be opened for the first time.
#[derive(Debug)]
pub struct PendingOpen {
    /// The path to open.
    pub path: String,
    /// The options to open it with.
    pub open_options: OpenOptions,
    /// The label of the file's tenant.
    pub tenant_id: String,
    /// The label of the file's timeline.
    pub timeline_id: String,
}

/// Where a seek by `offset` from `base` ends: at their sum, unless that is
/// negative or beyond the largest offset.
pub open spec fn seek_target(base: u64, offset: i64) -> Result<u64, Error> {
    if base + offset < 0 {
        Err(Error::NegativeOffset)
    } else if base + offset > u64::MAX {
        Err(Error::OffsetOverflow)
    } else {
        Ok((base + offset) as u64)
    }
}

/// Computes `seek_target`.
fn offset_from(base: u64, offset: i64) -> (target: Result<u64, Error>)
    ensures
        target == seek_target(base, offset),
{
    let pos: i128 = base as i128 + offset as i128;
    if pos < 0 {
        Err(Error::NegativeOffset)
    } else if pos > u64::MAX as i128 {
        Err(Error::OffsetOverflow)
    } else {
        Ok(pos as u64)
    }
}

impl PendingOpen {
    /// Records that the file was opened: stores the descriptor in the slot
    /// that was taken for it, unlocks the slot, and makes the logical file.
    ///
    /// The file starts at position zero and remembers the options without
    /// those that create or truncate.
    pub fn finish<F>(self, pool: &mut OpenFiles<F>, slot: SlotHandle, file: F) -> (vfile:
        VirtualFile)
        requires
            old(pool)@.wf(),
            old(pool)@.is_claimed(slot),
        ensures
            final(pool)@.wf(),
            final(pool)@.follows(old(pool)@),
            final(pool)@.differs_at(
                old(pool)@,
                slot.index as int,
                (Slot {
                    file: Some(file),
                    lock: LockState::Free,
                    ..old(pool)@.slots[slot.index as int]
                }),
            ),
            final(pool)@.is_valid(slot),
            vfile@ == (VirtualFileView {
                handle: slot,
                reopening: false,
                pos: 0,
                path: self.path@,
                open_options: self.open_options.reopen(),
                tenant_id: self.tenant_id@,
                timeline_id: self.timeline_id@,
            }),
    {
        pool.install(slot, file);
        pool.unlock(slot.index);
        VirtualFile {
            handle: slot,
            reopening: false,
            pos: 0,
            path: self.path,
            open_options: self.open_options.reopen(),
            tenant_id: self.tenant_id,
            timeline_id: self.timeline_id,
        }
    }

    /// Records that the open failed: unlocks the slot that was taken, which
    /// stays empty.
    pub fn fail<F>(self, pool: &mut OpenFiles<F>, slot: SlotHandle)
        requires
            old(pool)@.wf(),
            old(pool)@.is_claimed(slot),
        ensures
            final(pool)@.wf(),
            final(pool)@.follows(old(pool)@),
            final(pool)@.differs_at(
                old(pool)@,
                slot.index as int,
                (Slot { lock: LockState::Free, ..old(pool)@.slots[slot.index as int] }),
            ),
    {
        pool.unlock(slot.index);
    }
}

impl VirtualFileView {
    /// `lock_file` has left the file and the pool in the state `self`,
    /// `pool` and returned `resolution`, coming from `before`, `pool_before`.
    pub open spec fn resolved<F>(
        self,
        pool: PoolView<F>,
        before: VirtualFileView,
        pool_before: PoolView<F>,
        resolution: Resolution<F>,
    ) -> bool {
        let handle = before.handle;
        let index = handle.index as int;
        let in_range = handle.index < pool_before.slots.len();
        let can_share = in_range && pool_before.slots[index].lock.can_share();
        match resolution {
            Resolution::Reopening => {
                &&& before.reopening
                &&& self == before
                &&& pool == pool_before
            },
            Resolution::Busy { index: busy } => {
                &&& !before.reopening
                &&& in_range && !can_share
                &&& busy == handle.index
                &&& self == before
                &&& pool == pool_before
            },
            Resolution::Ready { index: ready } => {
                &&& !before.reopening
                &&& pool_before.is_valid(handle) && can_share
                &&& ready == handle.index
                &&& self == before
                &&& pool.differs_at(
                    pool_before,
                    index,
                    (Slot {
                        recently_used: true,
                        lock: pool_before.slots[index].lock.joined(),
                        ..pool_before.slots[index]
                    }),
                )
            },
            Resolution::Reopen { slot, evicted } => {
                &&& !before.reopening
                &&& !pool_before.is_valid(handle) && (in_range ==> can_share)
                &&& self == (VirtualFileView { reopening: true, ..before })
                &&& pool.victim_found(pool_before, Victim::Claimed { handle: slot, evicted })
                &&& pool.is_claimed(slot)
            },
            Resolution::Contended { index: contended } => {
                &&& !before.reopening
                &&& !pool_before.is_valid(handle) && (in_range ==> can_share)
                &&& self == (VirtualFileView { reopening: true, ..before })
                &&& pool.victim_found(pool_before, Victim::Contended { index: contended })
                &&& pool_before.all_locked()
            },
        }
    }

}

/// A file is opened again by one caller at a time.  Whoever asks for the
/// descriptor while another caller opens the file again is told to wait,
/// and nothing changes; whoever is told to open the file again has found
/// it stale and not yet being opened, and has marked it as being opened.
pub proof fn lemma_one_reopen_at_a_time<F>(
    before: VirtualFileView,
    pool_before: PoolView<F>,
    after: VirtualFileView,
    pool_after: PoolView<F>,
    resolution: Resolution<F>,
)
    requires
        after.resolved(pool_after, before, pool_before, resolution),
    ensures
        before.reopening <==> resolution is Reopening,
        before.reopening ==> after == before && pool_after == pool_before,
        resolution is Reopen || resolution is Contended ==> {
            &&& !before.reopening
            &&& after.reopening
            &&& !pool_before.is_valid(before.handle)
        },
        after.handle == before.handle,
        after.pos == before.pos,
        after.open_options == before.open_options,
        after.path == before.path,
{
}

impl VirtualFile {
    /// Begins to open a file for reading.
    pub fn open<F>(pool: &mut OpenFiles<F>, path: &str) -> (opening: (PendingOpen, Victim<F>))
        requires
            old(pool)@.wf(),
            old(pool)@.slots.len() > 0,
            old(pool)@.has_tag_headroom(),
        ensures
            final(pool)@.wf(),
            final(pool)@.follows(old(pool)@),
            final(pool)@.victim_found(old(pool)@, opening.1),
            opening.0.path@ == path@,
            opening.0.open_options == (OpenOptions { read: true, ..OpenOptions::none() }),
            (opening.0.tenant_id@, opening.0.timeline_id@) == labels_of(path@),
    {
        Self::open_with_options(pool, path, &OpenOptions::new().read(true))
    }

    /// Begins to create a file for writing; if it is there, it is
    /// truncated.
    pub fn create<F>(pool: &mut OpenFiles<F>, path: &str) -> (opening: (PendingOpen, Victim<F>))
        requires
            old(pool)@.wf(),
            old(pool)@.slots.len() > 0,
            old(pool)@.has_tag_headroom(),
        ensures
            final(pool)@.wf(),
            final(pool)@.follows(old(pool)@),
            final(pool)@.victim_found(old(pool)@, opening.1),
            opening.0.path@ == path@,
            opening.0.open_options == (OpenOptions {
                write: true,
                create: true,
                truncate: true,
                ..OpenOptions::none()
            }),
            (opening.0.tenant_id@, opening.0.timeline_id@) == labels_of(path@),
    {
        Self::open_with_options(
            pool,
            path,
            &OpenOptions::new().write(true).create(true).truncate(true),
        )
    }

    /// Begins to open a file with the given options: finds the slot for
    /// its descriptor.
    ///
    /// The caller closes the descriptor that the slot gave up, or first
    /// waits for the slot if the sweep says so.  Then it opens the file with
    /// the options given here and reports with `PendingOpen::finish` or
    /// `PendingOpen::fail`.
    pub fn open_with_options<F>(
        pool: &mut OpenFiles<F>,
        path: &str,
        open_options: &OpenOptions,
    ) -> (opening: (PendingOpen, Victim<F>))
        requires
            old(pool)@.wf(),
            old(pool)@.slots.len() > 0,
            old(pool)@.has_tag_headroom(),
        ensures
            final(pool)@.wf(),
            final(pool)@.follows(old(pool)@),
            final(pool)@.victim_found(old(pool)@, opening.1),
            opening.0.path@ == path@,
            opening.0.open_options == *open_options,
            (opening.0.tenant_id@, opening.0.timeline_id@) == labels_of(path@),
    {
        let (tenant_id, timeline_id) = metric_labels(path);
        let victim = pool.find_victim_slot();
        (
            PendingOpen {
                path: path.to_owned(),
                open_options: *open_options,
                tenant_id,
                timeline_id,
            },
            victim,
        )
    }

    /// The position of sequential reads and writes.
    pub fn pos(&self) -> (pos: u64)
        ensures
            pos == self@.pos,
    {
        self.pos
    }

    /// The cached reference to the slot.
    pub fn handle(&self) -> (handle: SlotHandle)
        ensures
            handle == self@.handle,
    {
        self.handle
    }

    /// The options to open the file again.
    pub fn open_options(&self) -> (options: OpenOptions)
        ensures
            options == self@.open_options,
    {
        self.open_options
    }

    /// The label of the file's tenant.
    pub fn tenant_id(&self) -> (label: &str)
        ensures
            label@ == self@.tenant_id,
    {
        self.tenant_id.as_str()
    }

    /// The label of the file's timeline.
    pub fn timeline_id(&self) -> (label: &str)
        ensures
            label@ == self@.timeline_id,
    {
        self.timeline_id.as_str()
    }

    /// Whether a caller is opening the file again.
    pub fn is_reopening(&self) -> (reopening: bool)
        ensures
            reopening == self@.reopening,
    {
        self.reopening
    }

    /// Finds the descriptor of the file, taking a slot for a new one if the
    /// cached one is gone.
    ///
    /// While somebody is opening the file again, nobody else starts to.
    /// Otherwise the cached handle is looked up.  If its slot still has the
    /// handle's tag and a descriptor, the slot is locked shared, marked as
    /// recently used, and that is all.  If the slot's lock cannot be shared,
    /// the caller waits.  If the handle is stale, the file is marked as
    /// being opened again and the clock sweep picks a slot.
    pub fn lock_file<F>(&mut self, pool: &mut OpenFiles<F>) -> (resolution: Resolution<F>)
        requires
            old(pool)@.wf(),
            old(pool)@.slots.len() > 0,
            old(pool)@.has_tag_headroom(),
        ensures
            final(pool)@.wf(),
            final(pool)@.follows(old(pool)@),
            final(self)@.resolved(final(pool)@, old(self)@, old(pool)@, resolution),
    {
        if self.reopening {
            return Resolution::Reopening;
        }
        match pool.lookup(self.handle) {
            Lookup::Hit => Resolution::Ready { index: self.handle.index },
            Lookup::Busy => Resolution::Busy { index: self.handle.index },
            Lookup::Stale => {
                self.reopening = true;
                match pool.find_victim_slot() {
                    Victim::Claimed { handle, evicted } => Resolution::Reopen {
                        slot: handle,
                        evicted,
                    },
                    Victim::Contended { index } => Resolution::Contended { index },
                }
            },
        }
    }

    /// Asks for the descriptor on behalf of an operation of kind `op`.
    fn with_file<F>(&mut self, pool: &mut OpenFiles<F>, op: StorageIoOperation) -> (access: Access<
        F,
    >)
        requires
            old(pool)@.wf(),
            old(pool)@.slots.len() > 0,
            old(pool)@.has_tag_headroom(),
        ensures
            final(pool)@.wf(),
            final(pool)@.follows(old(pool)@),
            access.op == op,
            final(self)@.resolved(final(pool)@, old(self)@, old(pool)@, access.resolution),
    {
        let resolution = self.lock_file(pool);
        Access { op, resolution }
    }

    /// Asks for the descriptor in order to read at an offset.
    pub fn read_at<F>(&mut self, pool: &mut OpenFiles<F>) -> (access: Access<F>)
        requires
            old(pool)@.wf(),
            old(pool)@.slots.len() > 0,
            old(pool)@.has_tag_headroom(),
        ensures
            final(pool)@.wf(),
            final(pool)@.follows(old(pool)@),
            access.op == StorageIoOperation::Read,
            final(self)@.resolved(final(pool)@, old(self)@, old(pool)@, access.resolution),
    {
        self.with_file(pool, StorageIoOperation::Read)
    }

    /// Asks for the descriptor in order to write at an offset.
    pub fn write_at<F>(&mut self, pool: &mut OpenFiles<F>) -> (access: Access<F>)
        requires
            old(pool)@.wf(),
            old(pool)@.slots.len() > 0,
            old(pool)@.has_tag_headroom(),
        ensures
            final(pool)@.wf(),
            final(pool)@.follows(old(pool)@),
            access.op == StorageIoOperation::Write,
            final(self)@.resolved(final(pool)@, old(self)@, old(pool)@, access.resolution),
    {
        self.with_file(pool, StorageIoOperation::Write)
    }

    /// Asks for the descriptor in order to flush the file to the device.
    pub fn sync_all<F>(&mut self, pool: &mut OpenFiles<F>) -> (access: Access<F>)
        requires
            old(pool)@.wf(),
            old(pool)@.slots.len() > 0,
            old(pool)@.has_tag_headroom(),
        ensures
            final(pool)@.wf(),
            final(pool)@.follows(old(pool)@),
            access.op == StorageIoOperation::Fsync,
            final(self)@.resolved(final(pool)@, old(self)@, old(pool)@, access.resolution),
    {
        self.with_file(pool, StorageIoOperation::Fsync)
    }

    /// Asks for the descriptor in order to query the file's metadata.
    pub fn metadata<F>(&mut self, pool: &mut OpenFiles<F>) -> (access: Access<F>)
        requires
            old(pool)@.wf(),
            old(pool)@.slots.len() > 0,
            old(pool)@.has_tag_headroom(),
        ensures
            final(pool)@.wf(),
            final(pool)@.follows(old(pool)@),
            access.op == StorageIoOperation::Metadata,
            final(self)@.resolved(final(pool)@, old(self)@, old(pool)@, access.resolution),
    {
        self.with_file(pool, StorageIoOperation::Metadata)
    }

    /// Records that the file was opened again: stores the descriptor in the
    /// slot that was taken for it, keeps the slot locked shared for the
    /// caller, and points the cached handle at it.
    pub fn finish_reopen<F>(&mut self, pool: &mut OpenFiles<F>, slot: SlotHandle, file: F)
        requires
            old(self)@.reopening,
            old(pool)@.wf(),
            old(pool)@.is_claimed(slot),
        ensures
            final(pool)@.wf(),
            final(pool)@.follows(old(pool)@),
            final(pool)@.differs_at(
                old(pool)@,
                slot.index as int,
                (Slot {
                    file: Some(file),
                    lock: LockState::Shared(1),
                    ..old(pool)@.slots[slot.index as int]
                }),
            ),
            final(pool)@.is_valid(slot),
            final(self)@ == (VirtualFileView { handle: slot, reopening: false, ..old(self)@ }),
    {
        pool.install(slot, file);
        pool.downgrade(slot.index);
        self.handle = slot;
        self.reopening = false;
    }

    /// Records that opening the file again failed: unlocks the slot that was
    /// taken, which stays empty, and leaves the cached handle stale.
    pub fn fail_reopen<F>(&mut self, pool: &mut OpenFiles<F>, slot: SlotHandle)
        requires
            old(self)@.reopening,
            old(pool)@.wf(),
            old(pool)@.is_claimed(slot),
        ensures
            final(pool)@.wf(),
            final(pool)@.follows(old(pool)@),
            final(pool)@.differs_at(
                old(pool)@,
                slot.index as int,
                (Slot { lock: LockState::Free, ..old(pool)@.slots[slot.index as int] }),
            ),
            final(self)@ == (VirtualFileView { reopening: false, ..old(self)@ }),
    {
        pool.unlock(slot.index);
        self.reopening = false;
    }

    /// Moves the position.
    ///
    /// From the start and from the current position this is arithmetic on
    /// the stored position, and a position that would be negative or too
    /// large is refused.  From the end, the descriptor is asked for, so that
    /// the caller can find the end of the file, and nothing changes yet.
    pub fn seek<F>(&mut self, pool: &mut OpenFiles<F>, pos: SeekFrom) -> (sought: Result<
        Seek<F>,
        Error,
    >)
        requires
            pos is End ==> old(pool)@.wf() && old(pool)@.slots.len() > 0 && old(
                pool,
            )@.has_tag_headroom(),
        ensures
            match pos {
                SeekFrom::Start(offset) => {
                    &&& sought == Ok::<Seek<F>, Error>(Seek::At(offset))
                    &&& final(self)@ == (VirtualFileView { pos: offset, ..old(self)@ })
                    &&& final(pool)@ == old(pool)@
                },
                SeekFrom::Current(offset) => {
                    &&& final(pool)@ == old(pool)@
                    &&& match seek_target(old(self)@.pos, offset) {
                        Ok(target) => {
                            &&& sought == Ok::<Seek<F>, Error>(Seek::At(target))
                            &&& final(self)@ == (VirtualFileView { pos: target, ..old(self)@ })
                        },
                        Err(e) => sought == Err::<Seek<F>, Error>(e) && final(self)@ == old(self)@,
                    }
                },
                SeekFrom::End(offset) => {
                    &&& sought matches Ok(Seek::FromEnd { offset: o, access })
                    &&& o == offset
                    &&& access.op == StorageIoOperation::Seek
                    &&& final(pool)@.wf()
                    &&& final(pool)@.follows(old(pool)@)
                    &&& final(self)@.resolved(
                        final(pool)@,
                        old(self)@,
                        old(pool)@,
                        access.resolution,
                    )
                },
            },
    {
        match pos {
            SeekFrom::Start(offset) => {
                self.pos = offset;
                Ok(Seek::At(offset))
            },
            SeekFrom::End(offset) => {
                let access = self.with_file(pool, StorageIoOperation::Seek);
                Ok(Seek::FromEnd { offset, access })
            },
            SeekFrom::Current(offset) => {
                match offset_from(self.pos, offset) {
                    Ok(target) => {
                        self.pos = target;
                        Ok(Seek::At(target))
                    },
                    Err(e) => Err(e),
                }
            },
        }
    }

    /// Ends a seek that is measured from the end of the file, which is at
    /// `end`.
    pub fn seek_from_end(&mut self, offset: i64, end: u64) -> (sought: Result<u64, Error>)
        ensures
            sought == seek_target(end, offset),
            final(self)@ == (VirtualFileView {
                pos: match sought {
                    Ok(target) => target,
                    Err(_) => old(self)@.pos,
                },
                ..old(self)@
            }),
    {
        match offset_from(end, offset) {
            Ok(target) => {
                self.pos = target;
                Ok(target)
            },
            Err(e) => Err(e),
        }
    }

    /// Records the outcome of a write at the current position: the
    /// position moves on by the number of bytes written.
    pub fn write(&mut self, result: Result<usize, Error>) -> (written: Result<usize, Error>)
        requires
            result matches Ok(n) ==> old(self)@.pos + n <= u64::MAX,
        ensures
            written == result,
            final(self)@ == (VirtualFileView {
                pos: match result {
                    Ok(n) => (old(self)@.pos + n) as u64,
                    Err(_) => old(self)@.pos,
                },
                ..old(self)@
            }),
    {
        match result {
            Ok(n) => {
                self.pos = self.pos + n as u64;
                Ok(n)
            },
            Err(e) => Err(e),
        }
    }

    /// One turn of the loop that fills a whole buffer from a given offset,
    /// after a read.  A read that finds the file at its end fails the loop
    /// with `UnexpectedEof`.
    pub fn read_exact_at(transfer: &mut Transfer, result: Result<usize, Error>) -> (went: Result<
        (),
        Error,
    >)
        requires
            old(transfer).wf(),
            result matches Ok(n) ==> n <= old(transfer).len - old(transfer).done,
        ensures
            (*final(transfer), went) == old(transfer).turn_spec(result, Error::UnexpectedEof),
            final(transfer).wf(),
            final(transfer).len == old(transfer).len,
            final(transfer).offset - final(transfer).done == old(transfer).offset - old(
                transfer,
            ).done,
    {
        transfer.turn(result, Error::UnexpectedEof)
    }

    /// One turn of the loop that writes a whole buffer at a given offset,
    /// after a write.  A write that writes nothing fails the loop with
    /// `WriteZero`.
    pub fn write_all_at(transfer: &mut Transfer, result: Result<usize, Error>) -> (went: Result<
        (),
        Error,
    >)
        requires
            old(transfer).wf(),
            result matches Ok(n) ==> n <= old(transfer).len - old(transfer).done,
        ensures
            (*final(transfer), went) == old(transfer).turn_spec(result, Error::WriteZero),
            final(transfer).wf(),
            final(transfer).len == old(transfer).len,
            final(transfer).offset - final(transfer).done == old(transfer).offset - old(
                transfer,
            ).done,
    {
        transfer.turn(result, Error::WriteZero)
    }

    /// One turn of the loop that writes a whole buffer at the current
    /// position, after a write.  The position follows the transfer.
    pub fn write_all(&mut self, transfer: &mut Transfer, result: Result<usize, Error>) -> (went:
        Result<(), Error>)
        requires
            old(transfer).wf(),
            old(transfer).offset == old(self)@.pos,
            result matches Ok(n) ==> n <= old(transfer).len - old(transfer).done,
        ensures
            (*final(transfer), went) == old(transfer).turn_spec(result, Error::WriteZero),
            final(transfer).wf(),
            final(transfer).len == old(transfer).len,
            final(self)@ == (VirtualFileView { pos: final(transfer).offset, ..old(self)@ }),
    {
        let written = self.write(result);
        transfer.turn(written, Error::WriteZero)
    }

    /// One turn of the loop that reads from the current position to the end
    /// of the file, after a read.  The answer is whether to read on: a read
    /// of no bytes ends the loop, any other moves the position, and an
    /// interrupted one is made again.
    pub fn read_to_end(&mut self, result: Result<usize, Error>) -> (more: Result<bool, Error>)
        requires
            result matches Ok(n) ==> old(self)@.pos + n <= u64::MAX,
        ensures
            more == match result {
                Ok(n) => Ok(n != 0),
                Err(e) => if e.kind() == ErrorKind::Interrupted {
                    Ok(true)
                } else {
                    Err(e)
                },
            },
            final(self)@ == (VirtualFileView {
                pos: match result {
                    Ok(n) => (old(self)@.pos + n) as u64,
                    Err(_) => old(self)@.pos,
                },
                ..old(self)@
            }),
    {
        match result {
            Ok(n) => {
                self.pos = self.pos + n as u64;
                Ok(n != 0)
            },
            Err(e) => {
                if e.kind().is(ErrorKind::Interrupted) {
                    Ok(true)
                } else {
                    Err(e)
                }
            },
        }
    }

    /// Gives up the file in order to delete it: closes the way to its
    /// descriptor as `close` does, and hands out the path to unlink.
    pub fn remove<F>(self, pool: &mut OpenFiles<F>) -> (removal: (String, SlotHandle, Closing<F>))
        requires
            old(pool)@.wf(),
        ensures
            final(pool)@.wf(),
            final(pool)@.follows(old(pool)@),
            removal.0@ == self@.path,
            removal.1 == self@.handle,
            final(pool)@.slot_cleaned(old(pool)@, self@.handle, removal.2),
    {
        let closing = pool.clean_slot(self.handle);
        (self.path, self.handle, closing)
    }

    /// Gives up the file: closes the way to its descriptor, if the slot is
    /// unlocked and still the file's own.
    ///
    /// If the slot is locked, the caller waits for it and asks the pool
    /// again, with `OpenFiles::clean_slot` and the handle that comes back.
    pub fn close<F>(self, pool: &mut OpenFiles<F>) -> (closing: (SlotHandle, Closing<F>))
        requires
            old(pool)@.wf(),
        ensures
            final(pool)@.wf(),
            final(pool)@.follows(old(pool)@),
            closing.0 == self@.handle,
            final(pool)@.slot_cleaned(old(pool)@, self@.handle, closing.1),
    {
        let closing = pool.clean_slot(self.handle);
        (self.handle, closing)
    }
}

} // verus!
