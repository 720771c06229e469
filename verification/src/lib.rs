//! A minimal terminal note-taking library: an editing state machine over a
//! character buffer, and the pure helpers around it (blank detection, note
//! file naming, listing output, command parsing). All terminal, file-system
//! and clipboard I/O lives outside this crate; the logic here is verified.

pub mod cli;
pub mod editor;
pub mod notes;
pub mod text;
