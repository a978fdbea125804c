//! The repository and the commits that are tracked in it.

pub mod local_commit;
pub mod oid;
pub mod remote_command;
pub mod repo;
pub mod store;
pub mod sync_state;

pub use remote_command::{CommandOption, RemoteGitCommand};
pub use repo::GitRepo;
pub use sync_state::SyncState;
