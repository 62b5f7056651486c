//! Verified decision logic of a tool that reconciles a backup listing
//! ("bklist") with the `blubackup` table of an SQLite database: the checks
//! before a run, the run itself line by line, and the panel that drives
//! both. The file, database and window work is done by the caller, which
//! answers the actions that the state machines here ask for.
pub mod text;
pub mod events;
pub mod reconcile;
pub mod execrun;
pub mod press;
pub mod bklist;
pub mod progstart;
pub mod panel;
pub mod laws;
