//! Replacing a file so that a crash leaves either the old content or the
//! new, never a part of it.
//!
//! The new content goes to a temporary file, which is flushed and closed
//! and then renamed over the final path; the directory is flushed last, so
//! that the rename itself survives.  This module holds the order of those
//! steps and what follows a failure.  The caller performs each step and
//! reports how it went.

use crate::io_error::{Error, ErrorKind};
use crate::labels::labels_of;
use crate::open_options::OpenOptions;
use crate::slot_pool::{OpenFiles, Victim};
use crate::virtual_file::{PendingOpen, VirtualFile};
use vstd::prelude::*;

verus! {

/// A step of the replacement, for the caller to perform.
#[derive(Clone, Copy, Debug, PartialEq, Eq, Structural)]
pub enum OverwriteAction {
    /// Delete the temporary file.  That there is none is no failure.
    RemoveTmp,
    /// Open the temporary file, as `CrashsafeOverwrite::open_tmp` says.
    CreateTmp,
    /// Write the whole content to the temporary file.
    WriteContent,
    /// Flush the temporary file to the device.
    SyncTmp,
    /// Give up the temporary file's handle.
    CloseTmp,
    /// Rename the temporary file to the final path.
    Rename,
    /// Open the directory of the final path, as
    /// `CrashsafeOverwrite::open_parent` says.
    OpenParent,
    /// Flush the directory to the device.
    SyncParent,
    /// Give up the directory's handle.
    CloseParent,
    /// Nothing is left to do: `CrashsafeOverwrite::result` has the outcome.
    Finished,
}

impl OverwriteAction {
    /// The steps of a replacement in which nothing fails, in order.
    pub open spec fn sequence() -> Seq<OverwriteAction> {
        seq![
            OverwriteAction::RemoveTmp,
            OverwriteAction::CreateTmp,
            OverwriteAction::WriteContent,
            OverwriteAction::SyncTmp,
            OverwriteAction::CloseTmp,
            OverwriteAction::Rename,
            OverwriteAction::OpenParent,
            OverwriteAction::SyncParent,
            OverwriteAction::CloseParent,
        ]
    }

    /// The place of a step in the sequence; the place after the last for
    /// `Finished`.
    pub open spec fn rank(self) -> int {
        match self {
            OverwriteAction::RemoveTmp => 0,
            OverwriteAction::CreateTmp => 1,
            OverwriteAction::WriteContent => 2,
            OverwriteAction::SyncTmp => 3,
            OverwriteAction::CloseTmp => 4,
            OverwriteAction::Rename => 5,
            OverwriteAction::OpenParent => 6,
            OverwriteAction::SyncParent => 7,
            OverwriteAction::CloseParent => 8,
            OverwriteAction::Finished => 9,
        }
    }

    /// The step that follows this one when it went well: the next of the
    /// sequence, and `Finished` after the last.
    pub open spec fn after_success(self) -> OverwriteAction {
        if self.rank() + 1 < Self::sequence().len() {
            Self::sequence()[self.rank() + 1]
        } else {
            OverwriteAction::Finished
        }
    }

    /// The step that follows this one when it failed: the handle that is
    /// open at that time is given up, and nothing else is done.
    pub open spec fn after_failure(self) -> OverwriteAction {
        match self {
            OverwriteAction::WriteContent | OverwriteAction::SyncTmp => OverwriteAction::CloseTmp,
            OverwriteAction::SyncParent => OverwriteAction::CloseParent,
            _ => OverwriteAction::Finished,
        }
    }

    /// Computes `after_success`.
    fn next(self) -> (next: OverwriteAction)
        ensures
            next == self.after_success(),
    {
        match self {
            OverwriteAction::RemoveTmp => OverwriteAction::CreateTmp,
            OverwriteAction::CreateTmp => OverwriteAction::WriteContent,
            OverwriteAction::WriteContent => OverwriteAction::SyncTmp,
            OverwriteAction::SyncTmp => OverwriteAction::CloseTmp,
            OverwriteAction::CloseTmp => OverwriteAction::Rename,
            OverwriteAction::Rename => OverwriteAction::OpenParent,
            OverwriteAction::OpenParent => OverwriteAction::SyncParent,
            OverwriteAction::SyncParent => OverwriteAction::CloseParent,
            OverwriteAction::CloseParent => OverwriteAction::Finished,
            OverwriteAction::Finished => OverwriteAction::Finished,
        }
    }

    /// Computes `after_failure`.
    fn bail(self) -> (next: OverwriteAction)
        ensures
            next == self.after_failure(),
    {
        match self {
            OverwriteAction::WriteContent | OverwriteAction::SyncTmp => OverwriteAction::CloseTmp,
            OverwriteAction::SyncParent => OverwriteAction::CloseParent,
            _ => OverwriteAction::Finished,
        }
    }
}

/// A replacement under way.
#[derive(Debug)]
pub struct CrashsafeOverwrite {
    /// The path that gets the new content.
    pub final_path: String,
    /// The path of the temporary file.
    pub tmp_path: String,
    /// The directory of the final path.
    pub parent: String,
    /// The step that is due.
    action: OverwriteAction,
    /// The failure that ended the replacement, if one did.
    error: Option<Error>,
}

/// A replacement as contracts see it.
pub struct OverwriteView {
    pub final_path: Seq<char>,
    pub tmp_path: Seq<char>,
    pub parent: Seq<char>,
    pub action: OverwriteAction,
    pub error: Option<Error>,
}

impl View for CrashsafeOverwrite {
    type V = OverwriteView;

    closed spec fn view(&self) -> OverwriteView {
        OverwriteView {
            final_path: self.final_path@,
            tmp_path: self.tmp_path@,
            parent: self.parent@,
            action: self.action,
            error: self.error,
        }
    }
}

impl OverwriteView {
    /// The outcome of the step that was due counts as a failure: it is an
    /// error, and not merely that there was no temporary file to delete.
    pub open spec fn fails_on(self, outcome: Result<(), Error>) -> bool {
        outcome matches Err(e) && !(self.action is RemoveTmp && e.kind() == ErrorKind::NotFound)
    }

    /// The replacement after the step that was due went as `outcome` says.
    ///
    /// Once a step has failed, its error is the outcome of the whole, and
    /// what is left is to give up the open handle.
    pub open spec fn advanced(self, outcome: Result<(), Error>) -> OverwriteView {
        if self.action is Finished {
            self
        } else if self.error is Some {
            OverwriteView { action: OverwriteAction::Finished, ..self }
        } else if self.fails_on(outcome) {
            OverwriteView { action: self.action.after_failure(), error: outcome.err(), ..self }
        } else {
            OverwriteView { action: self.action.after_success(), ..self }
        }
    }
}

/// The path without its last component, as `camino::Utf8Path::parent` finds
/// it; none for a path that ends in a root or is empty.
pub uninterp spec fn utf8_path_parent(path: Seq<char>) -> Option<Seq<char>>;

/// The characters of a string that may be missing.
pub open spec fn chars_of(s: Option<String>) -> Option<Seq<char>> {
    match s {
        Some(s) => Some(s@),
        None => None,
    }
}

/// The directory that a path lies in.
///
/// Calls `camino::Utf8Path::parent` on the path and copies what it returns.
#[verifier::external_body]
fn path_parent(path: &str) -> (parent: Option<String>)
    ensures
        chars_of(parent) == utf8_path_parent(path@),
{
    match camino::Utf8Path::new(path).parent() {
        Some(parent) => Some(parent.as_str().to_owned()),
        None => None,
    }
}

impl CrashsafeOverwrite {
    /// The replacement of `final_path` by way of `tmp_path`, given the
    /// directory of the final path.  A final path without a directory is an
    /// invalid argument.
    pub fn new(final_path: &str, tmp_path: &str, parent: Option<String>) -> (plan: Result<
        CrashsafeOverwrite,
        Error,
    >)
        ensures
            match parent {
                Some(dir) => plan matches Ok(p) && p@ == (OverwriteView {
                    final_path: final_path@,
                    tmp_path: tmp_path@,
                    parent: dir@,
                    action: OverwriteAction::RemoveTmp,
                    error: None,
                }),
                None => plan matches Err(e) && e.kind() == ErrorKind::InvalidInput && !e.is_fatal(),
            },
    {
        match parent {
            Some(dir) => Ok(
                CrashsafeOverwrite {
                    final_path: final_path.to_owned(),
                    tmp_path: tmp_path.to_owned(),
                    parent: dir,
                    action: OverwriteAction::RemoveTmp,
                    error: None,
                },
            ),
            None => Err(Error::invalid_argument()),
        }
    }

    /// The step that is due.
    pub fn action(&self) -> (action: OverwriteAction)
        ensures
            action == self@.action,
    {
        self.action
    }

    /// Begins to open the temporary file: for writing, and only if it is
    /// not there, so that two writers that race do no damage.
    pub fn open_tmp<F>(&self, pool: &mut OpenFiles<F>) -> (opening: (PendingOpen, Victim<F>))
        requires
            old(pool)@.wf(),
            old(pool)@.slots.len() > 0,
            old(pool)@.has_tag_headroom(),
        ensures
            final(pool)@.wf(),
            final(pool)@.follows(old(pool)@),
            final(pool)@.victim_found(old(pool)@, opening.1),
            opening.0.path@ == self@.tmp_path,
            opening.0.open_options == (OpenOptions {
                write: true,
                create_new: true,
                ..OpenOptions::none()
            }),
            (opening.0.tenant_id@, opening.0.timeline_id@) == labels_of(self@.tmp_path),
    {
        VirtualFile::open_with_options(
            pool,
            self.tmp_path.as_str(),
            &OpenOptions::new().write(true).create_new(true),
        )
    }

    /// Begins to open the directory of the final path: for reading.
    pub fn open_parent<F>(&self, pool: &mut OpenFiles<F>) -> (opening: (PendingOpen, Victim<F>))
        requires
            old(pool)@.wf(),
            old(pool)@.slots.len() > 0,
            old(pool)@.has_tag_headroom(),
        ensures
            final(pool)@.wf(),
            final(pool)@.follows(old(pool)@),
            final(pool)@.victim_found(old(pool)@, opening.1),
            opening.0.path@ == self@.parent,
            opening.0.open_options == (OpenOptions { read: true, ..OpenOptions::none() }),
            (opening.0.tenant_id@, opening.0.timeline_id@) == labels_of(self@.parent),
    {
        VirtualFile::open_with_options(pool, self.parent.as_str(), &OpenOptions::new().read(true))
    }

    /// Takes the outcome of the step that was due into account.
    pub fn advance(&mut self, outcome: Result<(), Error>)
        ensures
            final(self)@ == old(self)@.advanced(outcome),
    {
        match self.action {
            OverwriteAction::Finished => {
                return ;
            },
            _ => {},
        }
        if self.error.is_some() {
            self.action = OverwriteAction::Finished;
            return ;
        }
        match outcome {
            Err(e) => {
                let no_tmp = match self.action {
                    OverwriteAction::RemoveTmp => e.kind().is(ErrorKind::NotFound),
                    _ => false,
                };
                if no_tmp {
                    self.action = self.action.next();
                } else {
                    self.action = self.action.bail();
                    self.error = Some(e);
                }
            },
            Ok(()) => {
                self.action = self.action.next();
            },
        }
    }

    /// The outcome of the replacement, once nothing is left to do.
    pub fn result(&self) -> (result: Option<Result<(), Error>>)
        ensures
            result == if self@.action is Finished {
                Some(
                    match self@.error {
                        Some(e) => Err(e),
                        None => Ok(()),
                    },
                )
            } else {
                None
            },
    {
        match self.action {
            OverwriteAction::Finished => match self.error {
                Some(e) => Some(Err(e)),
                None => Some(Ok(())),
            },
            _ => None,
        }
    }
}

impl VirtualFile {
    /// Begins the replacement of the file at `final_path`, by way of a
    /// temporary file at `tmp_path`.
    ///
    /// The first step is due when the final path has a directory.  When it
    /// has none, the replacement is refused as an invalid argument.
    pub fn crashsafe_overwrite(final_path: &str, tmp_path: &str) -> (plan: Result<
        CrashsafeOverwrite,
        Error,
    >)
        ensures
            match utf8_path_parent(final_path@) {
                Some(dir) => plan matches Ok(p) && p@ == (OverwriteView {
                    final_path: final_path@,
                    tmp_path: tmp_path@,
                    parent: dir,
                    action: OverwriteAction::RemoveTmp,
                    error: None,
                }),
                None => plan matches Err(e) && e.kind() == ErrorKind::InvalidInput && !e.is_fatal(),
            },
    {
        CrashsafeOverwrite::new(final_path, tmp_path, path_parent(final_path))
    }
}

/// The new content is flushed and its handle given up before the rename,
/// and the directory is flushed after it.
pub proof fn lemma_rename_is_ordered()
    ensures
        OverwriteAction::WriteContent.rank() < OverwriteAction::SyncTmp.rank()
            < OverwriteAction::CloseTmp.rank() < OverwriteAction::Rename.rank()
            < OverwriteAction::SyncParent.rank(),
        forall|a: OverwriteAction|
            !(a is Finished) ==> #[trigger] OverwriteAction::sequence()[a.rank()] == a,
{
}

/// Steps that go well are taken in the order of the sequence; a step that
/// fails is never followed by the rename, nor by any step before it.
pub proof fn lemma_advance_keeps_order(plan: OverwriteView, outcome: Result<(), Error>)
    ensures
        plan.advanced(outcome).action.rank() >= plan.action.rank(),
        plan.error is None && !plan.fails_on(outcome) && !(plan.action is Finished)
            ==> plan.advanced(outcome).action.rank() == plan.action.rank() + 1,
        plan.error is Some || plan.fails_on(outcome) ==> !(plan.advanced(outcome).action is Rename),
        plan.error is Some ==> plan.advanced(outcome).error == plan.error,
{
}

} // verus!
