//! A verified core for a machine-translation command-line client.
//!
//! The library models the document-translation workflow (submit or resume a
//! job, poll its status under a bounded backoff policy, fetch the result) as
//! an explicit state machine, and normalizes ad-hoc glossary entry input into
//! a canonical delimited table. Network calls, sleeping and console output are
//! left to the surrounding application, which drives the state machine.

pub mod args;
pub mod errors;
pub mod glossary;
pub mod lang;
pub mod laws;
pub mod strutil;
pub mod workflow;

pub use args::{Args, Cmd, DocOpt, Glos, GlosDel, GlosEntry, GlosGet, GlosNew, GlosSub, TxtOpt};
pub use errors::ConfigError;
pub use glossary::{EntriesFormat, EntrySource, GlossaryEntryTable, GlossaryPair, GlossaryPlan};
pub use workflow::{
    Action, DocumentHandle, DocumentWorkflow, Event, Formality, JobState, JobStatus, Note,
    PollVerdict, RetryPolicy, RunOutcome, SubmissionRequest, WorkflowState,
};
