//! Acquisition pipeline for binary package dependencies: reads dependency
//! declarations out of a project manifest's metadata, resolves registry URLs,
//! drives redirect-bounded downloads, selects payload files out of package
//! archives, and plans where they are written on disk.

pub mod archive;
pub mod errors;
pub mod extract;
pub mod fetch;
pub mod manifest;
pub mod output;
