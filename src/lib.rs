//! Session-directory watching: decoding session record files, snapshotting
//! a directory of them, and turning file changes into session events.
pub mod json;
pub mod session;
pub mod names;
pub mod event;
pub mod command;
pub mod watch;

pub use json::JsonValue;
pub use session::{decode_session, session_from_json, session_to_json, worktree_to_json, SessionState, WorktreeStatus};
pub use event::{events_for_batch, event_for_change, load_sessions, synthesize, DirEntry, FileChange, SessionEvent};
pub use names::{is_record_file, session_id_from_name};
pub use command::{cancel_args, command_outcome, forward_args, spawn_failure, ORCH_PROGRAM};
pub use watch::{watch_step, WatchAction, WatchInput, WatchPhase};
