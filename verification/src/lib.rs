//! Bulk file upload: the decisions of a bounded, retrying upload pipeline.
//!
//! The library holds what the pipeline computes and decides. Reading files,
//! talking to the server and running tasks are left to the caller, which hands
//! in what it observed and carries out what comes back.

pub mod attempt;
pub mod clock;
pub mod outcome;
pub mod probe;
pub mod progress;
pub mod scheduler;
pub mod settings;
pub mod text;
pub mod uploader;

pub use outcome::ErrorKind;
pub use outcome::Outcome;
pub use outcome::UploadInfo;
pub use progress::Totals;
pub use progress::UploadProgress;
pub use attempt::AttemptResult;
pub use attempt::Verdict;
pub use probe::file_info;
pub use probe::FileStat;
pub use settings::Configuration;
pub use settings::Settings;
pub use uploader::Probing;
pub use uploader::Step;
pub use uploader::Uploading;
pub use scheduler::Batch;
pub use scheduler::Flow;
pub use scheduler::Reaction;
pub use scheduler::Scheduler;
pub use scheduler::TaskEvent;
