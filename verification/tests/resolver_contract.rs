//! Contract tests for the RuntimeResolver interface.

use repro::builder::resolver::resolution_from;
use repro::builder::{MockResolver, RuntimeResolver, WhichResolver};
use std::path::Path;

#[test]
fn c2_1_mock_resolver_returns_requested_name() {
    let resolver = MockResolver::new("/usr/bin/docker".into());
    let result = resolver.resolve("docker").unwrap();
    assert_eq!(result.name, "docker");
}

#[test]
fn c2_1_mock_resolver_returns_any_name_requested() {
    let resolver = MockResolver::new("/usr/bin/podman".into());
    let result = resolver.resolve("podman").unwrap();
    assert_eq!(result.name, "podman");
}

#[test]
fn c2_2_mock_resolver_returns_absolute_path() {
    let resolver = MockResolver::new("/usr/bin/docker".into());
    let result = resolver.resolve("docker").unwrap();
    assert!(Path::new(&result.path).is_absolute());
}

#[test]
fn mock_resolver_returns_its_path() {
    let resolver = MockResolver::new("/opt/bin/tool".into());
    let result = resolver.resolve("anything").unwrap();
    assert_eq!(result.name, "anything");
    assert_eq!(result.path, "/opt/bin/tool");
}

#[test]
fn c2_1_which_resolver_returns_matching_name() {
    // `true` exists on all unix systems
    let resolver = WhichResolver;
    let result = resolver.resolve("true").unwrap();
    assert_eq!(result.name, "true");
}

#[test]
fn c2_2_which_resolver_returns_absolute_path() {
    let resolver = WhichResolver;
    let result = resolver.resolve("true").unwrap();
    assert!(
        Path::new(&result.path).is_absolute(),
        "WhichResolver should return absolute path, got: {:?}",
        result.path
    );
}

#[test]
fn c2_3_which_resolver_errors_on_nonexistent() {
    let resolver = WhichResolver;
    let result = resolver.resolve("nonexistent-binary-xyz-12345");
    assert!(result.is_err());
}

#[test]
fn which_resolver_error_names_the_runtime() {
    let err = WhichResolver.resolve("nonexistent-binary-xyz-12345").err().unwrap();
    assert_eq!(err.message, "nonexistent-binary-xyz-12345 not found on PATH");
}

#[test]
fn resolution_from_lookup_answers() {
    let rt = resolution_from("docker", Ok("/usr/bin/docker".into())).unwrap();
    assert_eq!(rt.name, "docker");
    assert_eq!(rt.path, "/usr/bin/docker");
    let err = resolution_from("podman", Err(())).err().unwrap();
    assert_eq!(err.message, "podman not found on PATH");
}
