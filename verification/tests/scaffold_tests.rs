//! Tests of the project scaffolding texts: dependency lines, patch
//! sections, and the generated manifests.

use cargo_casper::clean;
use cargo_casper::new::{
    config_toml_contents, contract_cargo_toml_contents, patch_section, travis_yml_contents,
    CasperOverrides, Dependency, Error, Options,
};
use cargo_casper::show;

fn plain_options() -> Options {
    Options { root_path: "proj".to_string(), casper_overrides: None }
}

fn workspace_options() -> Options {
    Options {
        root_path: "proj".to_string(),
        casper_overrides: Some(CasperOverrides::WorkspacePath("/repo".to_string())),
    }
}

#[test]
fn dependency_line_plain() {
    let dep = Dependency::new("casper-contract", "3.0.0");
    assert_eq!(dep.name(), "casper-contract");
    assert_eq!(dep.version(), "3.0.0");
    let line = dep.display_with_features(&plain_options(), true, vec![]);
    assert_eq!(line, "casper-contract = \"3.0.0\"\n");
}

#[test]
fn dependency_line_with_features() {
    let dep = Dependency::new("casper-engine-test-support", "5.0.0");
    let line = dep.display_with_features(&plain_options(), true, vec!["test-support"]);
    assert_eq!(
        line,
        "casper-engine-test-support = { version = \"5.0.0\", features = [\"test-support\"] }\n"
    );
}

#[test]
fn dependency_line_without_default_features() {
    let dep = Dependency::new("casper-contract", "3.0.0");
    let line = dep.display_with_features(&plain_options(), false, vec!["test-support"]);
    assert_eq!(
        line,
        "casper-contract = { version = \"3.0.0\", default-features = false, features = [\"test-support\"] }\n"
    );
}

#[test]
fn dependency_line_with_two_features() {
    let dep = Dependency::new("demo", "1.0.0");
    let line = dep.display_with_features(&plain_options(), true, vec!["one", "two"]);
    assert_eq!(line, "demo = { version = \"1.0.0\", features = [\"one\", \"two\"] }\n");
}

#[test]
fn dependency_line_under_overrides_leaves_version_open() {
    let dep = Dependency::new("casper-types", "3.0.0");
    let line = dep.display_with_features(&workspace_options(), true, vec![]);
    assert_eq!(line, "casper-types = \"*\"\n");
}

#[test]
fn patch_section_empty_without_overrides() {
    assert_eq!(patch_section(&plain_options()), "");
}

#[test]
fn patch_section_for_workspace_path() {
    let section = patch_section(&workspace_options());
    let expected = "[patch.crates-io]\n\
        casper-contract = { path = \"/repo/smart_contracts/contract\" }\n\
        casper-engine-test-support = { path = \"/repo/execution_engine_testing/test_support\" }\n\
        casper-execution-engine = { path = \"/repo/execution_engine\" }\n\
        casper-types = { path = \"/repo/types\" }\n";
    assert_eq!(section, expected);
}

#[test]
fn patch_section_for_git_repo() {
    let options = Options {
        root_path: "proj".to_string(),
        casper_overrides: Some(CasperOverrides::GitRepo {
            url: "https://example.invalid/node".to_string(),
            branch: "dev".to_string(),
        }),
    };
    let section = patch_section(&options);
    let expected = "[patch.crates-io]\n\
        casper-contract = { git = \"https://example.invalid/node\", branch = \"dev\" }\n\
        casper-engine-test-support = { git = \"https://example.invalid/node\", branch = \"dev\" }\n\
        casper-execution-engine = { git = \"https://example.invalid/node\", branch = \"dev\" }\n\
        casper-types = { git = \"https://example.invalid/node\", branch = \"dev\" }\n";
    assert_eq!(section, expected);
}

#[test]
fn contract_manifest_lists_package_dependencies_and_profile() {
    let contents = contract_cargo_toml_contents(&plain_options());
    let expected = "[package]\nname = \"contract\"\nversion = \"0.1.0\"\nedition = \"2018\"\n\n\
        [dependencies]\n\
        casper-contract = \"3.0.0\"\n\
        casper-types = \"3.0.0\"\n\n\
        [[bin]]\nname = \"contract\"\npath = \"src/main.rs\"\nbench = false\ndoctest = false\ntest = false\n\n\
        [profile.release]\ncodegen-units = 1\nlto = true\n\n";
    assert_eq!(contents, expected);
}

#[test]
fn tests_manifest_lists_dev_dependencies() {
    let contents = cargo_casper::new::tests_cargo_toml_contents(&plain_options());
    let expected = "[package]\nname = \"tests\"\nversion = \"0.1.0\"\nedition = \"2018\"\n\n\
        [dev-dependencies]\n\
        casper-contract = { version = \"3.0.0\", default-features = false, features = [\"test-support\"] }\n\
        casper-engine-test-support = { version = \"5.0.0\", features = [\"test-support\"] }\n\
        casper-execution-engine = \"5.0.0\"\n\
        casper-types = \"3.0.0\"\n\n\
        [[bin]]\nname = \"integration-tests\"\npath = \"src/integration_tests.rs\"\nbench = false\ndoctest = false\n\n";
    assert_eq!(contents, expected);
}

#[test]
fn build_configuration_targets_wasm() {
    assert_eq!(
        config_toml_contents(),
        "[build]\ntarget = \"wasm32-unknown-unknown\"\n"
    );
}

#[test]
fn continuous_integration_file_runs_make() {
    assert_eq!(
        travis_yml_contents(),
        "language: rust\nscript:\n  - make prepare\n  - make check-lint\n  - make test\n"
    );
}

#[test]
fn new_error_messages_are_exact() {
    let exists = Error::DestinationExists { path: "proj".to_string() };
    assert_eq!(exists.message(), "destination `proj` already exists");
    let dir = Error::FailedToCreateDir { cause: "denied".to_string(), path: "proj/src".to_string() };
    assert_eq!(dir.message(), "failed to create dir `proj/src`: denied");
    let file = Error::FailedToWriteFile { cause: "full".to_string(), path: "proj/Cargo.toml".to_string() };
    assert_eq!(file.message(), "failed to write file `proj/Cargo.toml`: full");
}

#[test]
fn clean_error_names_the_config_path() {
    let missing = clean::Error::MissingCachedConfig;
    assert_eq!(
        missing.message("/cfg/config.toml"),
        "expected a cached config to exist at `/cfg/config.toml` from a previous \"exec\" run"
    );
    let remove = clean::Error::RemoveDir { cause: "busy".to_string(), path: "/data".to_string() };
    assert_eq!(
        remove.message("/cfg/config.toml"),
        "failed to remove stored global state directory at `/data`: busy"
    );
}

#[test]
fn clean_resolves_the_cached_storage_dir() {
    let config = cargo_casper::cached_config::CachedConfig {
        storage_dir: "/data/global-state".to_string(),
        chain_name: "net".to_string(),
        node_address: "http://localhost:11101".to_string(),
        state_hash: cargo_casper::ledger::Digest::zero(),
    };
    let dir = clean::storage_dir_to_remove(Some(config)).unwrap();
    assert_eq!(dir, "/data/global-state");
    assert!(matches!(
        clean::storage_dir_to_remove(None),
        Err(clean::Error::MissingCachedConfig)
    ));
}

#[test]
fn show_error_delegates_messages() {
    let missing = show::Error::MissingCachedConfig;
    assert_eq!(
        missing.message("/cfg/config.toml"),
        "expected a cached config to exist at `/cfg/config.toml` from a previous \"exec\" run"
    );
    let storage = show::Error::Storage(cargo_casper::store::StorageError::MissingFile {
        path: "p".to_string(),
    });
    assert_eq!(storage.message("x"), "no global state found at `p`");
}
