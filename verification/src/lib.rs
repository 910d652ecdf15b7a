//! A cache of physical file descriptors shared by many logical files.
//!
//! A process may keep far more files logically open than the operating
//! system lets it hold descriptors for.  This crate holds the decisions of
//! such a cache: a fixed pool of slots, each with room for one descriptor,
//! a clock sweep that picks the slot to recycle, and the handles that find
//! their descriptor again, or notice that it is gone.
//!
//! The crate performs no system call.  Its functions say which call is due
//! next and take the outcome back as a plain value; the embedding program
//! opens, reads, writes and waits.

pub mod io_error;
pub mod labels;
pub mod open_options;
pub mod overwrite;
pub mod slot_pool;
pub mod transfer;
pub mod virtual_file;
