//! The module evaluators, one per integration. Each is a function from the
//! shared context (plus the plain values its collaborators supply) to an
//! optional module; a module that does not apply yields nothing.

pub mod aws;
pub mod character;
pub mod cmd_duration;
pub mod directory;
pub mod elixir;
pub mod git_branch;
pub mod git_state;
pub mod git_status;
pub mod git_track;
pub mod golang;
pub mod jobs;
pub mod kube;
pub mod line_break;
pub mod plaio;
pub mod prompt;
pub mod python;
pub mod rust;
pub mod tailscale;
