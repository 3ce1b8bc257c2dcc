use vstd::prelude::*;

pub mod classify;
pub mod command;
pub mod confirm;
pub mod facts;

pub use classify::{classify, short_id, Classification, ClassifyError, DeletionCandidate};
pub use command::{delete_command_args, upstream_config_key};
pub use confirm::{branches_to_delete, confirms, prompt_text};
pub use facts::{examine, BranchFacts, BranchKind, Fault, UpstreamLookup, Verdict};
