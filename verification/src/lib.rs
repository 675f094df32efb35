//! An interactive shell that grows a container image definition from the
//! effects of the commands typed into it. Each line is run speculatively
//! in an ephemeral container; a line that changed the filesystem is kept
//! as a build instruction and a new image is committed asynchronously,
//! while a line with no effect is discarded. The accumulated instruction
//! log can be inspected, undone and replayed, and at any point serializes
//! to a valid build script for the session.
//!
//! This crate is the verified core: the instruction-log model and its
//! serialization, the session state machine that interprets each line,
//! the checkpointed state stack with its one-slot build pipeline and
//! rollback, and the scripted prompt. The containers themselves — the
//! runtime wire protocol, the interactive line editor, the terminal
//! plumbing — live outside it, behind the execution gateway and image
//! builder seams.

pub mod instructions;
pub mod prompt;
pub mod session;
pub mod state;
pub mod step;
pub mod strutil;
