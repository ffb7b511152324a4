//! Resumable bulk loading of a multi-file CSV dataset into a SQLite store.
//!
//! The store tells which input file comes next; the pending files are loaded
//! in groups, one transaction per group, so that an interruption loses at most
//! the group that was being written.

pub mod achievement;
pub mod batch;
pub mod cli;
pub mod cursor;
pub mod driver;
pub mod error;
pub mod files;
pub mod meta;
pub mod pragma;
pub mod record;
pub mod schedule;
pub mod setup;
pub mod store;
pub mod text;

pub use achievement::Achievement;
pub use cursor::next_index;
pub use driver::{process_dir, start_action, DirAction, DirEvent, Run};
pub use error::PackError;
pub use files::pending_files;
pub use meta::Cache;
pub use record::Record;
pub use schedule::{process_entries, Halt, Progress};
pub use setup::{bootstrap, connect, Options};
