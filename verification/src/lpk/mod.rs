//! The LPK archive: the names of its entries, the policy by which the key of
//! an entry is derived, and the decisions of an extraction.
//!
//! Nothing here opens a file. The archive itself, the directories and the
//! configuration texts are the caller's; what is decided of them is decided
//! here, from plain values.

pub mod configs;
pub mod errors;
pub mod helpers;
pub mod lpk_loader;
pub mod name_map;
pub mod selection;

pub use self::configs::{LpkConfig, MLveConfig};
pub use self::errors::LpkError;
pub use self::lpk_loader::LpkLoader;
