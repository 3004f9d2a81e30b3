use vstd::prelude::*;
use vstd::string::StringExecFns;
use crate::errors::{ErrorKind, ResolverError};
use crate::probes::DirectoryProbe;
use crate::program::{Program, ProgramId, RecordCiphertext, RecordPlaintext};

verus! {

/// The opaque configuration handed to a network-capable backing resolver:
/// this layer stores and passes it along, and never interprets it.
#[derive(Debug)]
pub struct NetworkConfig {
    pub endpoint: String,
}

impl NetworkConfig {
    /// Wrap a network configuration value.
    pub fn new(endpoint: String) -> (r: NetworkConfig)
        ensures
            r.endpoint@ == endpoint@,
    {
        NetworkConfig { endpoint }
    }
}

impl Clone for NetworkConfig {
    fn clone(&self) -> (r: Self)
        ensures
            r.endpoint@ == self.endpoint@,
    {
        NetworkConfig { endpoint: self.endpoint.clone() }
    }
}

/// A strategy meant to try local file system resolution first and fall
/// back to programs stored on the network. This form carries its root and
/// network configuration but has no functional backing resolver attached,
/// so every operation fails loudly with a configuration error: a caller
/// can always tell "not configured to answer" from "no answer".
#[derive(Debug)]
pub struct HybridResolver {
    pub network_config: NetworkConfig,
    pub local_config: String,
}

impl HybridResolver {
    /// Bind a new strategy to the probed directory and the given network
    /// configuration. As with the file system strategy, the root is
    /// validated here, eagerly, and each misconfiguration fails with its
    /// own message.
    pub fn new(network_config: &NetworkConfig, local_config: &DirectoryProbe) -> (r: Result<
        HybridResolver,
        ResolverError,
    >)
        ensures
            local_config.exists && local_config.is_dir ==> (r matches Ok(s)
                && s.local_config@ == local_config.path@
                && s.network_config.endpoint@ == network_config.endpoint@),
            !local_config.exists ==> (r matches Err(e) && e.kind == ErrorKind::Configuration
                && e.message@ == "Path does not exist"@),
            local_config.exists && !local_config.is_dir ==> (r matches Err(e)
                && e.kind == ErrorKind::Configuration
                && e.message@ == "Path is not a directory"@),
    {
        if !local_config.exists {
            Err(ResolverError::new(ErrorKind::Configuration, "Path does not exist".to_owned()))
        } else if !local_config.is_dir {
            Err(ResolverError::new(ErrorKind::Configuration, "Path is not a directory".to_owned()))
        } else {
            Ok(
                HybridResolver {
                    network_config: network_config.clone(),
                    local_config: local_config.path.clone(),
                },
            )
        }
    }

    /// The directory local imports would be loaded from: the `imports`
    /// subdirectory of the root.
    pub fn import_directory(&self) -> (r: String)
        ensures
            r@ == self.local_config@ + "/imports"@,
    {
        self.local_config.clone().concat("/imports")
    }

    /// Without a functional backing resolver there is nothing to load
    /// from, so the request is refused outright rather than answered with
    /// made-up data.
    pub fn load_program(&self, _program_id: &ProgramId) -> (r: Result<Program, ResolverError>)
        ensures
            r matches Err(e) && e.kind == ErrorKind::Configuration
                && e.message@
                == "A functional resolver is required to load programs, please configure one"@,
    {
        Err(
            ResolverError::new(
                ErrorKind::Configuration,
                "A functional resolver is required to load programs, please configure one".to_owned(),
            ),
        )
    }

    /// Refused for the same reason as `load_program`: no backing resolver
    /// is attached to answer for the imports.
    pub fn resolve_program_imports(&self, _program: &Program) -> (r: Result<
        Vec<(ProgramId, Result<Program, ResolverError>)>,
        ResolverError,
    >)
        ensures
            r matches Err(e) && e.kind == ErrorKind::Configuration
                && e.message@
                == "A functional resolver is required to resolve imports, please configure one"@,
    {
        Err(
            ResolverError::new(
                ErrorKind::Configuration,
                "A functional resolver is required to resolve imports, please configure one".to_owned(),
            ),
        )
    }

    /// Refused: an unconfigured strategy never reports an empty record set
    /// as if it had looked one up.
    pub fn find_records(&self) -> (r: Result<Vec<RecordCiphertext>, ResolverError>)
        ensures
            r matches Err(e) && e.kind == ErrorKind::Configuration
                && e.message@
                == "A functional resolver is required to find records, please configure one"@,
    {
        Err(
            ResolverError::new(
                ErrorKind::Configuration,
                "A functional resolver is required to find records, please configure one".to_owned(),
            ),
        )
    }

    /// Refused, exactly as `find_records` is.
    pub fn find_unspent_records(&self) -> (r: Result<Vec<RecordPlaintext>, ResolverError>)
        ensures
            r matches Err(e) && e.kind == ErrorKind::Configuration
                && e.message@
                == "A functional resolver is required to find records, please configure one"@,
    {
        Err(
            ResolverError::new(
                ErrorKind::Configuration,
                "A functional resolver is required to find records, please configure one".to_owned(),
            ),
        )
    }
}

/// The fallback rule a fully configured hybrid strategy follows for each
/// of its operations: attempt local resolution first; if and only if the
/// local attempt failed, the network outcome — success or failure — is
/// returned verbatim. The caller performs the two attempts against their
/// backing stores and hands the outcomes in.
pub fn resolve_with_fallback<T>(
    local: Result<T, ResolverError>,
    network: Result<T, ResolverError>,
) -> (r: Result<T, ResolverError>)
    ensures
        local matches Ok(v) ==> r matches Ok(w) && w == v,
        local matches Err(_) ==> r == network,
{
    match local {
        Ok(v) => Ok(v),
        Err(_) => network,
    }
}

} // verus!
