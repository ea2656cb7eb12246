//! Environment-variable provisioning for a deployed service.
//!
//! A [`resource::EnvVars`] descriptor captures which folder of environment
//! files a service ships and which file to load in production or locally. The
//! host runtime drives it through two phases: a declaration step that decides
//! whether the external static-folder provider must copy the folder into the
//! deployed artifact, and a materialization step that resolves the final file
//! path, parses it through the env-file parser, and installs the parsed
//! pairs into an injectable environment sink.

pub mod envfile;
pub mod output;
pub mod path;
pub mod resource;

pub use envfile::EnvError;
pub use envfile::EnvSink;
pub use envfile::RecordedEnv;
pub use envfile::all_pairs_safe;
pub use envfile::install_pairs;
pub use envfile::is_safe_env_key;
pub use envfile::is_safe_env_value;
pub use envfile::pair_is_safe;
pub use envfile::pair_views;
pub use output::ResourceOutput;
pub use resource::CopyDelegate;
pub use resource::EnvVars;
pub use resource::Environment;
pub use resource::OutputStep;
pub use resource::PendingCopy;
pub use path::is_absolute;
pub use path::is_absolute_path;
pub use path::join;
pub use path::join_path;
