use vstd::prelude::*;
use vstd::string::StringExecFns;
use crate::errors::{ErrorKind, ResolverError};
use crate::probes::{DirectoryProbe, ManifestProbe, PackageProbe};
use crate::program::{Program, ProgramId, RecordCiphertext, RecordPlaintext};

verus! {

/// The result this strategy owes for a program request, given what was
/// observed at the root and, when the manifest binding was valid, what the
/// external package-loading service produced. The checks are ordered:
/// backing root first, then manifest presence and readability, then the
/// identity binding, and only then the package itself.
pub open spec fn load_program_outcome(
    requested: Seq<char>,
    manifest: ManifestProbe,
    package: PackageProbe,
    r: Result<Program, ResolverError>,
) -> bool {
    match manifest {
        ManifestProbe::RootMissing => (r matches Err(e) && e.kind == ErrorKind::Configuration
            && e.message@ == "The program directory does not exist"@),
        ManifestProbe::Missing => (r matches Err(e) && e.kind == ErrorKind::NotFound
            && e.message@ == "The manifest file is missing from the program directory"@),
        ManifestProbe::Unreadable(m) => (r matches Err(e) && e.kind == ErrorKind::NotFound
            && e.message@ == m@),
        ManifestProbe::Found(found) => if found@ != requested {
            (r matches Err(e) && e.kind == ErrorKind::IdentityMismatch
                && e.message@
                == "The program name in the manifest file does not match the specified program name"@)
        } else {
            match package {
                PackageProbe::Unreadable(m) => (r matches Err(e) && e.kind == ErrorKind::NotFound
                    && e.message@ == m@),
                PackageProbe::Opened(p) => r matches Ok(q) && q == p,
            }
        },
    }
}

/// How many entries of an import resolution result are per-import
/// failures.
pub open spec fn failing_imports(v: Seq<(ProgramId, Result<Program, ResolverError>)>) -> nat
    decreases v.len(),
{
    if v.len() == 0 {
        0
    } else {
        failing_imports(v.drop_last()) + if v.last().1 is Err {
            1nat
        } else {
            0nat
        }
    }
}

/// How many of the observations handed to `resolve_program_imports`
/// report an import that could not be opened.
pub open spec fn absent_imports(fetched: Seq<PackageProbe>) -> nat
    decreases fetched.len(),
{
    if fetched.len() == 0 {
        0
    } else {
        absent_imports(fetched.drop_last()) + if fetched.last() is Unreadable {
            1nat
        } else {
            0nat
        }
    }
}

/// Law: when an import resolution result fails element-wise exactly where
/// an import could not be opened — as `resolve_program_imports` ensures —
/// then out of its elements exactly as many fail as there were absent
/// imports, and all the remaining elements succeed. The call never turns
/// partial failure into wholesale failure.
pub proof fn lemma_partial_failure_counts(
    fetched: Seq<PackageProbe>,
    v: Seq<(ProgramId, Result<Program, ResolverError>)>,
)
    requires
        v.len() == fetched.len(),
        forall|i: int|
            0 <= i < v.len() ==> ((#[trigger] v[i]).1 is Err <==> fetched[i] is Unreadable),
    ensures
        failing_imports(v) == absent_imports(fetched),
        failing_imports(v) <= v.len(),
    decreases v.len(),
{
    if v.len() > 0 {
        lemma_partial_failure_counts(fetched.drop_last(), v.drop_last());
        assert(v.last() == v[v.len() - 1]);
        assert(fetched.last() == fetched[fetched.len() - 1]);
    }
}

/// Resolves programs and their imports from a directory on the local file
/// system. The directory must already exist when the strategy is built;
/// construction is the only place that validates it, and every later call
/// works from fresh observations handed in by the caller.
#[derive(Debug)]
pub struct FileSystemResolver {
    pub local_config: String,
}

impl FileSystemResolver {
    /// Bind a new strategy to the probed directory. Succeeds exactly when
    /// the path exists and is a directory; each misconfiguration fails
    /// loudly, at construction time, with its own message.
    pub fn new(local_config: &DirectoryProbe) -> (r: Result<FileSystemResolver, ResolverError>)
        ensures
            local_config.exists && local_config.is_dir ==> (r matches Ok(s)
                && s.local_config@ == local_config.path@),
            !local_config.exists ==> (r matches Err(e) && e.kind == ErrorKind::Configuration
                && e.message@ == "Path does not exist"@),
            local_config.exists && !local_config.is_dir ==> (r matches Err(e)
                && e.kind == ErrorKind::Configuration
                && e.message@ == "Path is not a directory"@),
    {
        if !local_config.exists {
            Err(ResolverError::new(ErrorKind::Configuration, "Path does not exist".to_owned()))
        } else if !local_config.is_dir {
            Err(ResolverError::new(ErrorKind::Configuration, "Path is not a directory".to_owned()))
        } else {
            Ok(FileSystemResolver { local_config: local_config.path.clone() })
        }
    }

    /// The directory imports are loaded from: the `imports` subdirectory
    /// of the root. Imports are siblings stored beside the root's own
    /// package, each looked up there by identifier.
    pub fn import_directory(&self) -> (r: String)
        ensures
            r@ == self.local_config@ + "/imports"@,
    {
        self.local_config.clone().concat("/imports")
    }

    /// Return the program whose manifest binding equals `program_id`,
    /// judging the observations handed in: the root must exist, the
    /// manifest must be present and readable, its identifier must equal
    /// the requested one, and the package must have opened; the first
    /// check to fail decides the error, and a mismatched manifest is a
    /// hard failure, never a silent substitution.
    pub fn load_program(
        &self,
        program_id: &ProgramId,
        manifest: ManifestProbe,
        package: PackageProbe,
    ) -> (r: Result<Program, ResolverError>)
        ensures
            load_program_outcome(program_id@, manifest, package, r),
    {
        match manifest {
            ManifestProbe::RootMissing => Err(
                ResolverError::new(
                    ErrorKind::Configuration,
                    "The program directory does not exist".to_owned(),
                ),
            ),
            ManifestProbe::Missing => Err(
                ResolverError::new(
                    ErrorKind::NotFound,
                    "The manifest file is missing from the program directory".to_owned(),
                ),
            ),
            ManifestProbe::Unreadable(m) => Err(ResolverError::new(ErrorKind::NotFound, m)),
            ManifestProbe::Found(found) => {
                if !found.program_id.matches(program_id) {
                    Err(
                        ResolverError::new(
                            ErrorKind::IdentityMismatch,
                            "The program name in the manifest file does not match the specified program name".to_owned(),
                        ),
                    )
                } else {
                    match package {
                        PackageProbe::Unreadable(m) => Err(
                            ResolverError::new(ErrorKind::NotFound, m),
                        ),
                        PackageProbe::Opened(p) => Ok(p),
                    }
                }
            },
        }
    }

    /// Report, per import key of `program` and in that key order, either
    /// the loaded import or a failure for that key alone. `fetched[i]` is
    /// what the external file-loading service found in the imports
    /// directory for the i-th import key. One import failing never fails
    /// the call, and never hides the results of the others.
    pub fn resolve_program_imports(
        &self,
        program: &Program,
        fetched: &Vec<PackageProbe>,
    ) -> (r: Result<Vec<(ProgramId, Result<Program, ResolverError>)>, ResolverError>)
        requires
            fetched@.len() == program@.imports.len(),
        ensures
            r matches Ok(v) && v@.len() == program@.imports.len(),
            r matches Ok(v) ==> forall|i: int|
                0 <= i < v@.len() ==> (#[trigger] v@[i]).0@ == program@.imports[i],
            r matches Ok(v) ==> forall|i: int|
                0 <= i < v@.len() ==> match fetched@[i] {
                    PackageProbe::Unreadable(m) => (#[trigger] v@[i]).1 matches Err(e)
                        && e.kind == ErrorKind::NotFound && e.message@ == m@,
                    PackageProbe::Opened(p) => v@[i].1 matches Ok(q) && q@ == p@,
                },
    {
        let imports = program.imports();
        let mut results: Vec<(ProgramId, Result<Program, ResolverError>)> = Vec::new();
        let mut i: usize = 0;
        while i < imports.len()
            invariant
                i <= imports.len(),
                imports@.len() == program@.imports.len(),
                forall|j: int| 0 <= j < imports@.len() ==> imports@[j]@ == program@.imports[j],
                fetched@.len() == program@.imports.len(),
                results@.len() == i,
                forall|j: int|
                    0 <= j < i ==> (#[trigger] results@[j]).0@ == program@.imports[j],
                forall|j: int|
                    0 <= j < i ==> match fetched@[j] {
                        PackageProbe::Unreadable(m) => (#[trigger] results@[j]).1 matches Err(e)
                            && e.kind == ErrorKind::NotFound && e.message@ == m@,
                        PackageProbe::Opened(p) => results@[j].1 matches Ok(q) && q@ == p@,
                    },
            decreases imports.len() - i,
        {
            let key = imports[i].clone();
            let outcome: Result<Program, ResolverError> = match &fetched[i] {
                PackageProbe::Unreadable(m) => Err(
                    ResolverError::new(ErrorKind::NotFound, m.clone()),
                ),
                PackageProbe::Opened(p) => Ok(p.clone()),
            };
            results.push((key, outcome));
            i = i + 1;
        }
        Ok(results)
    }

    /// Enumerate the encrypted records known to this strategy. It keeps no
    /// wallet or state store, so the answer is, by design, successfully
    /// empty rather than a failure.
    pub fn find_records(&self) -> (r: Result<Vec<RecordCiphertext>, ResolverError>)
        ensures
            r matches Ok(v) && v@.len() == 0,
    {
        Ok(Vec::new())
    }

    /// Enumerate the decrypted, spendable records known to this strategy.
    /// As with the encrypted ones, there is no state store to consult, so
    /// the answer is successfully empty.
    pub fn find_unspent_records(&self) -> (r: Result<Vec<RecordPlaintext>, ResolverError>)
        ensures
            r matches Ok(v) && v@.len() == 0,
    {
        Ok(Vec::new())
    }
}

} // verus!
