//! Decision core of a tool that keeps remote branches merged against a target
//! reference: which advertised references are watched, and which reference
//! merges are created against.

pub mod laws;
pub mod pattern;
pub mod remote;
pub mod target;
pub mod watch;

pub use remote::RemoteHead;
pub use target::{RemoteAnswer, RemoteQuery, RepositoryConfiguration, ResolveError};
pub use watch::{ConfigError, WatchReferences};
