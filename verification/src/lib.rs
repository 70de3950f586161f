//! Release orchestration for Python packaging projects: semantic version
//! resolution against a package registry, build backend selection, publish
//! credential management, and artifact location.

pub mod artifact;
pub mod backend;
pub mod commands;
pub mod credentials;
pub mod registry;
pub mod resolver;
pub mod strutil;
pub mod version;

pub use backend::BackendKind;
pub use commands::{BuildError, CheckError, CommandPlan, PublishError, SpawnOutcome};
pub use credentials::{PyPiConfig, TokenStore};
pub use registry::RegistryLookupResult;
pub use resolver::{BumpPlan, Resolution, ResolveError};
pub use strutil::to_snake_case;
pub use version::{BumpLevel, SemanticVersion};
