//! Local commits and what is known of their publication.

pub mod main_commit;
pub mod meta_data;
pub mod patch;
pub mod tracked_commit;
pub mod untracked_commit;

pub use main_commit::MainCommit;
pub use meta_data::{CommitMetadata, MetaDataError};
pub use tracked_commit::TrackedCommit;
pub use untracked_commit::UnTrackedCommit;
