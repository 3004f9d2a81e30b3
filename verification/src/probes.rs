use vstd::prelude::*;
use crate::program::{Manifest, Program};

verus! {

/// What a caller observed about a candidate root directory: the path it
/// asked about, whether anything exists there, and whether that thing is a
/// directory. Strategies validate these observations eagerly at
/// construction time, so misconfiguration surfaces immediately.
#[derive(Debug)]
pub struct DirectoryProbe {
    pub path: String,
    pub exists: bool,
    pub is_dir: bool,
}

impl DirectoryProbe {
    /// Record the outcome of probing a directory path.
    pub fn new(path: String, exists: bool, is_dir: bool) -> (r: DirectoryProbe)
        ensures
            r.path@ == path@,
            r.exists == exists,
            r.is_dir == is_dir,
    {
        DirectoryProbe { path, exists, is_dir }
    }
}

/// What a caller found when it looked for the manifest of a program
/// directory. The external storage service reports one of four outcomes;
/// the resolver turns each into a precise success or failure.
#[derive(Debug)]
pub enum ManifestProbe {
    /// The program directory itself does not exist.
    RootMissing,
    /// The directory exists, but no manifest file is present in it.
    Missing,
    /// A manifest file is present but could not be opened or understood;
    /// the external service's message is carried verbatim.
    Unreadable(String),
    /// The manifest was opened and carries this identifier binding.
    Found(Manifest),
}

/// What a caller found when it asked the external loading service to open
/// a program package or a single program file: either the service's
/// failure message, carried verbatim, or the loaded program.
#[derive(Debug)]
pub enum PackageProbe {
    /// Opening failed; the external service's message is carried verbatim.
    Unreadable(String),
    /// The primary program of the opened package or file.
    Opened(Program),
}

} // verus!
