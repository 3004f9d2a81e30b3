use aleo_resolver::errors::{ErrorKind, ResolverError};
use aleo_resolver::hybrid::{resolve_with_fallback, HybridResolver, NetworkConfig};
use aleo_resolver::probes::DirectoryProbe;
use aleo_resolver::program::{Program, ProgramId};

fn network() -> NetworkConfig {
    NetworkConfig::new("https://api.example.net/v1".to_string())
}

fn hybrid_at(path: &str) -> HybridResolver {
    let probe = DirectoryProbe::new(path.to_string(), true, true);
    HybridResolver::new(&network(), &probe).expect("an existing directory must be accepted")
}

#[test]
fn hybrid_construction_rejects_missing_root() {
    let probe = DirectoryProbe::new("/tmp/no_such_dir".to_string(), false, false);
    let err = HybridResolver::new(&network(), &probe).unwrap_err();
    assert_eq!(err.kind, ErrorKind::Configuration);
    assert_eq!(err.message, "Path does not exist");
}

#[test]
fn hybrid_construction_rejects_non_directory() {
    let probe = DirectoryProbe::new("/tmp/some_file".to_string(), true, false);
    let err = HybridResolver::new(&network(), &probe).unwrap_err();
    assert_eq!(err.kind, ErrorKind::Configuration);
    assert_eq!(err.message, "Path is not a directory");
}

#[test]
fn hybrid_construction_keeps_root_and_network_config() {
    let resolver = hybrid_at("/tmp/pkg");
    assert_eq!(resolver.local_config, "/tmp/pkg");
    assert_eq!(resolver.network_config.endpoint, "https://api.example.net/v1");
    assert_eq!(resolver.import_directory(), "/tmp/pkg/imports");
}

#[test]
fn unconfigured_hybrid_refuses_every_operation() {
    let resolver = hybrid_at("/tmp/pkg");
    let id = ProgramId::new("token.aleo".to_string());
    let parent = Program::new(ProgramId::new("app.aleo".to_string()), Vec::new());

    let err = resolver.load_program(&id).unwrap_err();
    assert_eq!(err.kind, ErrorKind::Configuration);
    assert_eq!(
        err.message,
        "A functional resolver is required to load programs, please configure one"
    );

    let err = resolver.resolve_program_imports(&parent).unwrap_err();
    assert_eq!(err.kind, ErrorKind::Configuration);
    assert_eq!(
        err.message,
        "A functional resolver is required to resolve imports, please configure one"
    );

    let err = resolver.find_records().unwrap_err();
    assert_eq!(err.kind, ErrorKind::Configuration);
    assert_eq!(
        err.message,
        "A functional resolver is required to find records, please configure one"
    );

    let err = resolver.find_unspent_records().unwrap_err();
    assert_eq!(err.kind, ErrorKind::Configuration);
    assert_eq!(
        err.message,
        "A functional resolver is required to find records, please configure one"
    );
}

#[test]
fn fallback_keeps_a_local_success() {
    let local: Result<u64, ResolverError> = Ok(11);
    let network: Result<u64, ResolverError> = Ok(22);
    assert_eq!(resolve_with_fallback(local, network).unwrap(), 11);
}

#[test]
fn fallback_returns_network_success_verbatim() {
    let local: Result<u64, ResolverError> =
        Err(ResolverError::new(ErrorKind::NotFound, "not on disk".to_string()));
    let network: Result<u64, ResolverError> = Ok(22);
    assert_eq!(resolve_with_fallback(local, network).unwrap(), 22);
}

#[test]
fn fallback_returns_network_failure_verbatim() {
    let local: Result<u64, ResolverError> =
        Err(ResolverError::new(ErrorKind::NotFound, "not on disk".to_string()));
    let network: Result<u64, ResolverError> =
        Err(ResolverError::new(ErrorKind::NotFound, "not on the network either".to_string()));
    let err = resolve_with_fallback(local, network).unwrap_err();
    assert_eq!(err.kind, ErrorKind::NotFound);
    assert_eq!(err.message, "not on the network either");
}
