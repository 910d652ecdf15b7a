//! How a file is opened, and how it is opened again.

use vstd::prelude::*;

verus! {

/// The options of an open call.
#[derive(Clone, Copy, Debug, PartialEq, Eq, Structural)]
pub struct OpenOptions {
    /// Open for reading.
    pub read: bool,
    /// Open for writing.
    pub write: bool,
    /// Create the file if it is missing.
    pub create: bool,
    /// Create the file and fail if it is there.
    pub create_new: bool,
    /// Cut the file to length zero.
    pub truncate: bool,
}

impl OpenOptions {
    /// The options with every flag switched off.
    pub open spec fn none() -> Self {
        OpenOptions { read: false, write: false, create: false, create_new: false, truncate: false }
    }

    /// The options that open the same file again without creating it or
    /// cutting it short: the access flags stay, the others are off.
    pub open spec fn reopen_spec(self) -> Self {
        OpenOptions { create: false, create_new: false, truncate: false, ..self }
    }

    /// No flag set.
    pub fn new() -> (options: Self)
        ensures
            options == Self::none(),
    {
        OpenOptions { read: false, write: false, create: false, create_new: false, truncate: false }
    }

    /// Sets whether the file is opened for reading.
    pub fn read(self, read: bool) -> (options: Self)
        ensures
            options == (OpenOptions { read, ..self }),
    {
        OpenOptions { read, ..self }
    }

    /// Sets whether the file is opened for writing.
    pub fn write(self, write: bool) -> (options: Self)
        ensures
            options == (OpenOptions { write, ..self }),
    {
        OpenOptions { write, ..self }
    }

    /// Sets whether a missing file is created.
    pub fn create(self, create: bool) -> (options: Self)
        ensures
            options == (OpenOptions { create, ..self }),
    {
        OpenOptions { create, ..self }
    }

    /// Sets whether the file is created and must not exist yet.
    pub fn create_new(self, create_new: bool) -> (options: Self)
        ensures
            options == (OpenOptions { create_new, ..self }),
    {
        OpenOptions { create_new, ..self }
    }

    /// Sets whether the file is cut to length zero.
    pub fn truncate(self, truncate: bool) -> (options: Self)
        ensures
            options == (OpenOptions { truncate, ..self }),
    {
        OpenOptions { truncate, ..self }
    }

    /// The options for opening the file again later.
    #[verifier::when_used_as_spec(reopen_spec)]
    pub fn reopen(self) -> (options: Self)
        ensures
            options == self.reopen_spec(),
    {
        self.create(false).create_new(false).truncate(false)
    }
}

/// Opening again never creates and never truncates, and asks for the same
/// access; to strip the options twice is to strip them once.
pub proof fn lemma_reopen_is_harmless(options: OpenOptions)
    ensures
        !options.reopen().create,
        !options.reopen().create_new,
        !options.reopen().truncate,
        options.reopen().read == options.read,
        options.reopen().write == options.write,
        options.reopen().reopen() == options.reopen(),
{
}

} // verus!
