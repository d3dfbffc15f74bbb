//! Verified core of the SoulFire client: the bootstrap pipeline that
//! makes a managed Java runtime and the server artifact present on disk,
//! verified against their published digests, and then launches and
//! supervises the server process.
//!
//! All decision logic lives here with contracts; the embedding
//! application performs the network, filesystem and process side effects
//! that the state machines in this crate command.
//!
//! - [`platform`]: host capability table and vendor identifiers.
//! - [`errors`]: the pipeline's failure taxonomy.
//! - [`checksum`]: SHA-256 digests as lowercase hex, compared
//!   case-insensitively.
//! - [`progress`]: download progress coalesced to whole percents.
//! - [`archive`]: tar.gz/zip unpacking, entry-name safety and runtime
//!   layout validation.
//! - [`metadata`]: typed views of the release metadata documents.
//! - [`install`]: the atomic promote machine and its crash-safety laws.
//! - [`acquire`]: the runtime and application acquirer machines.
//! - [`launcher`]: argument/environment building and the output
//!   supervisor.
//! - [`coordinator`]: the in-flight guard, process slot, port rule and
//!   result string.
//! - [`java`]: version-line parsing and best-installation choice.
//! - [`cast`]: the discovered-device registry.
//! - [`rave`]: shop response classification helpers.
//! - [`text`]: shared verified text utilities.

pub mod acquire;
pub mod archive;
pub mod cast;
pub mod checksum;
pub mod coordinator;
pub mod errors;
pub mod install;
pub mod java;
pub mod launcher;
pub mod metadata;
pub mod platform;
pub mod progress;
pub mod rave;
pub mod text;
