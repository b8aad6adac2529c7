//! Logic of a shell-prompt helper that shows the current version-control
//! branch: locating the repository metadata from a working directory's path,
//! parsing the HEAD reference file, deciding dirtiness from a status query's
//! output, and formatting the one line of prompt text.
//!
//! All filesystem, environment and subprocess access stays outside this
//! library: callers hand in the working directory as path segments, the HEAD
//! file's contents, and the captured status output, and get plain values back.

pub mod branch;
pub mod locate;
pub mod prompt;
