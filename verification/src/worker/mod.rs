//! Job workers: the poller that decides when to fetch jobs, the settings of
//! the activation requests, what auto handlers extract from a job and how
//! they report its outcome.
pub mod auto_handler;
pub mod poller;
pub mod settings;

pub use auto_handler::{Data, JobExtensions, State};
pub use poller::{JobPoller, PollAction, PollMessage};
pub use settings::WorkerSettings;
