//! Resolve a crate's git revision at build time.
//!
//! The library determines the best-available revision string for the code
//! being built and produces the build-pipeline directive lines that expose it
//! as the `GIT_REVISION` compile-time constant: either from snapshot metadata
//! embedded by `cargo publish` (`.cargo_vcs_info.json`), or from the live git
//! repository enclosing the build directory.
//!
//! The library itself performs no I/O: a thin driver reads the metadata file,
//! runs the git tool, feeds the outcomes to the step functions of
//! [`resolver`], and writes the returned lines to the build pipeline.

pub mod resolver;
pub mod text;
pub mod vcs_info;
