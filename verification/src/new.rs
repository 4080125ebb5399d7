//! The contents of a freshly scaffolded contract project: the dependency
//! lines, the patch section for overridden network crates, and the
//! generated manifest and configuration files.  Every content builder
//! states the exact text it produces; writing the files is the shell's
//! work.

use vstd::prelude::*;
use vstd::string::StringExecFns;

verus! {

/// Overrides for the network crates in the generated manifests: a local
/// working copy, or a git repository and branch.
pub enum CasperOverrides {
    /// The path to a local copy of the network node repository.
    WorkspacePath(String),
    /// The details of an online copy of the network node repository.
    GitRepo {
        /// The URL of the repository.
        url: String,
        /// The branch of the repository.
        branch: String,
    },
}

/// Options for creating a new contract project.
pub struct Options {
    /// The path at which the new project should be created.
    pub root_path: String,
    /// Optional overrides to be applied to the generated manifests.
    pub casper_overrides: Option<CasperOverrides>,
}

/// Error while creating a new contract project.
#[derive(Debug)]
pub enum Error {
    /// Chosen destination of the new project already exists.
    DestinationExists {
        /// The existing path.
        path: String,
    },
    /// Failed to create a directory at the given path.
    FailedToCreateDir {
        /// The underlying cause.
        cause: String,
        /// The directory path.
        path: String,
    },
    /// Failed to write a file at the given path.
    FailedToWriteFile {
        /// The underlying cause.
        cause: String,
        /// The file path.
        path: String,
    },
}

impl Error {
    /// The rendered message.
    pub open spec fn message_view(&self) -> Seq<char> {
        match self {
            Error::DestinationExists { path } => "destination `"@ + path@
                + "` already exists"@,
            Error::FailedToCreateDir { cause, path } => "failed to create dir `"@ + path@
                + "`: "@ + cause@,
            Error::FailedToWriteFile { cause, path } => "failed to write file `"@ + path@
                + "`: "@ + cause@,
        }
    }

    /// Renders the message.
    pub fn message(&self) -> (r: String)
        ensures
            r@ == self.message_view(),
    {
        match self {
            Error::DestinationExists { path } => String::from_str("destination `").concat(
                path.as_str(),
            ).concat("` already exists"),
            Error::FailedToCreateDir { cause, path } => String::from_str(
                "failed to create dir `",
            ).concat(path.as_str()).concat("`: ").concat(cause.as_str()),
            Error::FailedToWriteFile { cause, path } => String::from_str(
                "failed to write file `",
            ).concat(path.as_str()).concat("`: ").concat(cause.as_str()),
        }
    }
}

/// One network crate the generated manifests depend on, with the version
/// the tool pins.
pub struct Dependency {
    name: &'static str,
    version: &'static str,
}

/// A feature name wrapped in double quotes.
pub open spec fn quoted(f: Seq<char>) -> Seq<char> {
    "\""@ + f + "\""@
}

/// Feature names joined with commas, each quoted.
pub open spec fn features_join(fs: Seq<Seq<char>>) -> Seq<char>
    decreases fs.len(),
{
    if fs.len() == 0 {
        Seq::empty()
    } else if fs.len() == 1 {
        quoted(fs.first())
    } else {
        quoted(fs.first()) + ", "@ + features_join(fs.drop_first())
    }
}

/// The list form a feature sequence prints as: the joined names in square
/// brackets.
pub open spec fn features_list(fs: Seq<Seq<char>>) -> Seq<char> {
    "["@ + features_join(fs) + "]"@
}

/// The views of a borrowed string sequence.
pub open spec fn strs_views(s: Seq<&str>) -> Seq<Seq<char>> {
    s.map(|i: int, f: &str| f@)
}

/// Appending one name extends the joined form with a separator, except at
/// the front.
proof fn lemma_features_join_push(fs: Seq<Seq<char>>, f: Seq<char>)
    ensures
        fs.len() == 0 ==> features_join(fs.push(f)) == quoted(f),
        fs.len() > 0 ==> features_join(fs.push(f)) == features_join(fs) + ", "@ + quoted(f),
    decreases fs.len(),
{
    let pushed = fs.push(f);
    if fs.len() == 0 {
        assert(pushed.len() == 1);
        assert(pushed.first() == f);
    } else {
        assert(pushed.first() == fs.first());
        assert(pushed.drop_first() =~= fs.drop_first().push(f));
        lemma_features_join_push(fs.drop_first(), f);
        if fs.len() == 1 {
            assert(fs.drop_first().len() == 0);
            assert(features_join(pushed) =~= features_join(fs) + ", "@ + quoted(f));
        } else {
            assert(features_join(pushed) =~= features_join(fs) + ", "@ + quoted(f));
        }
    }
}

/// Renders a feature sequence as its bracketed, quoted, comma-joined list.
fn features_list_str(features: &Vec<&str>) -> (r: String)
    ensures
        r@ == features_list(strs_views(features@)),
{
    let ghost views = strs_views(features@);
    let mut out = String::from_str("[");
    let mut i: usize = 0;
    while i < features.len()
        invariant
            i <= features@.len(),
            views == strs_views(features@),
            views.len() == features@.len(),
            out@ == "["@ + features_join(views.take(i as int)),
        decreases features@.len() - i,
    {
        if i > 0 {
            out.append(", ");
        }
        out.append("\"");
        out.append(features[i]);
        out.append("\"");
        proof {
            lemma_features_join_push(views.take(i as int), views[i as int]);
            assert(views.take(i as int).push(views[i as int]) =~= views.take(i + 1));
            assert(out@ =~= "["@ + features_join(views.take(i + 1)));
        }
        i = i + 1;
    }
    out.append("]");
    proof {
        assert(views.take(features@.len() as int) =~= views);
        assert(out@ =~= features_list(views));
    }
    out
}

/// The manifest line (or inline table) a dependency prints as.
pub open spec fn spec_dependency_line(
    name: Seq<char>,
    version: Seq<char>,
    overridden: bool,
    default_features: bool,
    features: Seq<Seq<char>>,
) -> Seq<char> {
    let v = if overridden {
        "*"@
    } else {
        version
    };
    if default_features && features.len() == 0 {
        name + " = \""@ + v + "\"\n"@
    } else {
        let opened = name + " = { version = \""@ + v + "\""@;
        let with_defaults = if !default_features {
            opened + ", default-features = false"@
        } else {
            opened
        };
        let with_features = if features.len() > 0 {
            with_defaults + ", features = "@ + features_list(features)
        } else {
            with_defaults
        };
        with_features + " }\n"@
    }
}

impl Dependency {
    /// The crate name.
    pub closed spec fn spec_name(&self) -> Seq<char> {
        self.name@
    }

    /// The pinned version.
    pub closed spec fn spec_version(&self) -> Seq<char> {
        self.version@
    }

    /// A dependency on `name` at `version`.
    pub fn new(name: &'static str, version: &'static str) -> (r: Self)
        ensures
            r.spec_name() == name@,
            r.spec_version() == version@,
    {
        Dependency { name, version }
    }

    /// The crate name.
    pub fn name(&self) -> (r: &str)
        ensures
            r@ == self.spec_name(),
    {
        self.name
    }

    /// The pinned version.
    pub fn version(&self) -> (r: &str)
        ensures
            r@ == self.spec_version(),
    {
        self.version
    }

    /// Renders the dependency's manifest line.  With overrides in play the
    /// version is left open as `*`; otherwise the pinned version stands.
    /// Default features switched off and named features each extend the
    /// inline-table form.
    pub fn display_with_features(
        &self,
        options: &Options,
        default_features: bool,
        features: Vec<&str>,
    ) -> (r: String)
        ensures
            r@ == spec_dependency_line(
                self.spec_name(),
                self.spec_version(),
                options.casper_overrides is Some,
                default_features,
                strs_views(features@),
            ),
    {
        let version: &str = if options.casper_overrides.is_some() {
            "*"
        } else {
            self.version
        };
        if default_features && features.len() == 0 {
            let mut out = self.name.to_owned();
            out.append(" = \"");
            out.append(version);
            out.append("\"\n");
            proof {
                assert(out@ =~= spec_dependency_line(
                    self.spec_name(),
                    self.spec_version(),
                    options.casper_overrides is Some,
                    default_features,
                    strs_views(features@),
                ));
            }
            return out;
        }
        let mut out = self.name.to_owned();
        out.append(" = { version = \"");
        out.append(version);
        out.append("\"");
        if !default_features {
            out.append(", default-features = false");
        }
        if features.len() > 0 {
            out.append(", features = ");
            let list = features_list_str(&features);
            out.append(list.as_str());
        }
        out.append(" }\n");
        proof {
            assert(out@ =~= spec_dependency_line(
                self.spec_name(),
                self.spec_version(),
                options.casper_overrides is Some,
                default_features,
                strs_views(features@),
            ));
        }
        out
    }
}

/// The patch section the generated manifests carry when the network
/// crates are overridden: one patch line per crate, pointing at the local
/// working copy or at the git repository and branch.  Without overrides
/// the section is empty.
pub open spec fn spec_patch_section(overrides: Option<CasperOverrides>) -> Seq<char> {
    match overrides {
        Some(CasperOverrides::WorkspacePath(path)) => "[patch.crates-io]\ncasper-contract = { path = \""@
            + path@ + "/smart_contracts/contract\" }\ncasper-engine-test-support = { path = \""@
            + path@ + "/execution_engine_testing/test_support\" }\ncasper-execution-engine = { path = \""@
            + path@ + "/execution_engine\" }\ncasper-types = { path = \""@ + path@
            + "/types\" }\n"@,
        Some(CasperOverrides::GitRepo { url, branch }) => "[patch.crates-io]\ncasper-contract = { git = \""@
            + url@ + "\", branch = \""@ + branch@
            + "\" }\ncasper-engine-test-support = { git = \""@ + url@ + "\", branch = \""@
            + branch@ + "\" }\ncasper-execution-engine = { git = \""@ + url@
            + "\", branch = \""@ + branch@ + "\" }\ncasper-types = { git = \""@ + url@
            + "\", branch = \""@ + branch@ + "\" }\n"@,
        None => Seq::empty(),
    }
}

/// Renders the patch section for the given options.
pub fn patch_section(options: &Options) -> (r: String)
    ensures
        r@ == spec_patch_section(options.casper_overrides),
{
    match &options.casper_overrides {
        Some(CasperOverrides::WorkspacePath(path)) => {
            let mut out = String::from_str("[patch.crates-io]\ncasper-contract = { path = \"");
            out.append(path.as_str());
            out.append("/smart_contracts/contract\" }\ncasper-engine-test-support = { path = \"");
            out.append(path.as_str());
            out.append(
                "/execution_engine_testing/test_support\" }\ncasper-execution-engine = { path = \"",
            );
            out.append(path.as_str());
            out.append("/execution_engine\" }\ncasper-types = { path = \"");
            out.append(path.as_str());
            out.append("/types\" }\n");
            out
        },
        Some(CasperOverrides::GitRepo { url, branch }) => {
            let mut out = String::from_str("[patch.crates-io]\ncasper-contract = { git = \"");
            out.append(url.as_str());
            out.append("\", branch = \"");
            out.append(branch.as_str());
            out.append("\" }\ncasper-engine-test-support = { git = \"");
            out.append(url.as_str());
            out.append("\", branch = \"");
            out.append(branch.as_str());
            out.append("\" }\ncasper-execution-engine = { git = \"");
            out.append(url.as_str());
            out.append("\", branch = \"");
            out.append(branch.as_str());
            out.append("\" }\ncasper-types = { git = \"");
            out.append(url.as_str());
            out.append("\", branch = \"");
            out.append(branch.as_str());
            out.append("\" }\n");
            proof {
                assert(out@ =~= spec_patch_section(options.casper_overrides));
            }
            out
        },
        None => {
            let out = String::new();
            proof {
                assert(out@ =~= spec_patch_section(options.casper_overrides));
            }
            out
        },
    }
}

/// The contract crate the generated project depends on.
pub fn cl_contract() -> (r: Dependency)
    ensures
        r.spec_name() == "casper-contract"@,
        r.spec_version() == "3.0.0"@,
{
    Dependency::new("casper-contract", "3.0.0")
}

/// The types crate the generated project depends on.
pub fn cl_types() -> (r: Dependency)
    ensures
        r.spec_name() == "casper-types"@,
        r.spec_version() == "3.0.0"@,
{
    Dependency::new("casper-types", "3.0.0")
}

/// The engine test-support crate the generated test suite depends on.
pub fn cl_engine_test_support() -> (r: Dependency)
    ensures
        r.spec_name() == "casper-engine-test-support"@,
        r.spec_version() == "5.0.0"@,
{
    Dependency::new("casper-engine-test-support", "5.0.0")
}

/// The execution-engine crate the generated test suite depends on.
pub fn cl_execution_engine() -> (r: Dependency)
    ensures
        r.spec_name() == "casper-execution-engine"@,
        r.spec_version() == "5.0.0"@,
{
    Dependency::new("casper-execution-engine", "5.0.0")
}

/// The dependency lines of the generated contract manifest.
pub open spec fn spec_contract_dependencies(overridden: bool) -> Seq<char> {
    spec_dependency_line("casper-contract"@, "3.0.0"@, overridden, true, Seq::empty())
        + spec_dependency_line("casper-types"@, "3.0.0"@, overridden, true, Seq::empty())
}

/// Renders the dependency lines of the generated contract manifest.
pub fn contract_dependencies(options: &Options) -> (r: String)
    ensures
        r@ == spec_contract_dependencies(options.casper_overrides is Some),
{
    let contract = cl_contract();
    let types = cl_types();
    let mut out = contract.display_with_features(options, true, Vec::new());
    let types_line = types.display_with_features(options, true, Vec::new());
    out.append(types_line.as_str());
    proof {
        assert(strs_views(Seq::<&str>::empty()) =~= Seq::<Seq<char>>::empty());
        assert(out@ =~= spec_contract_dependencies(options.casper_overrides is Some));
    }
    out
}

/// The dependency lines of the generated test-suite manifest.
pub open spec fn spec_test_dependencies(overridden: bool) -> Seq<char> {
    spec_dependency_line(
        "casper-contract"@,
        "3.0.0"@,
        overridden,
        false,
        seq!["test-support"@],
    ) + spec_dependency_line(
        "casper-engine-test-support"@,
        "5.0.0"@,
        overridden,
        true,
        seq!["test-support"@],
    ) + spec_dependency_line("casper-execution-engine"@, "5.0.0"@, overridden, true, Seq::empty())
        + spec_dependency_line("casper-types"@, "3.0.0"@, overridden, true, Seq::empty())
}

/// Renders the dependency lines of the generated test-suite manifest.
pub fn test_dependencies(options: &Options) -> (r: String)
    ensures
        r@ == spec_test_dependencies(options.casper_overrides is Some),
{
    let mut contract_features: Vec<&str> = Vec::new();
    contract_features.push("test-support");
    let mut support_features: Vec<&str> = Vec::new();
    support_features.push("test-support");
    proof {
        assert(strs_views(contract_features@) =~= seq!["test-support"@]);
        assert(strs_views(support_features@) =~= seq!["test-support"@]);
        assert(strs_views(Seq::<&str>::empty()) =~= Seq::<Seq<char>>::empty());
    }
    let mut out = cl_contract().display_with_features(options, false, contract_features);
    let support_line = cl_engine_test_support().display_with_features(
        options,
        true,
        support_features,
    );
    out.append(support_line.as_str());
    let engine_line = cl_execution_engine().display_with_features(options, true, Vec::new());
    out.append(engine_line.as_str());
    let types_line = cl_types().display_with_features(options, true, Vec::new());
    out.append(types_line.as_str());
    proof {
        assert(out@ =~= spec_test_dependencies(options.casper_overrides is Some));
    }
    out
}

/// The cargo configuration the generated contract crate carries, directing
/// builds at the wasm target.
pub fn config_toml_contents() -> (r: String)
    ensures
        r@ == "[build]\ntarget = \"wasm32-unknown-unknown\"\n"@,
{
    String::from_str("[build]\ntarget = \"wasm32-unknown-unknown\"\n")
}

/// The continuous-integration file the generated project carries.
pub fn travis_yml_contents() -> (r: String)
    ensures
        r@ == "language: rust\nscript:\n  - make prepare\n  - make check-lint\n  - make test\n"@,
{
    String::from_str(
        "language: rust\nscript:\n  - make prepare\n  - make check-lint\n  - make test\n",
    )
}

/// The generated contract crate's manifest.
pub open spec fn spec_contract_cargo_toml(overrides: Option<CasperOverrides>) -> Seq<char> {
    "[package]\nname = \"contract\"\nversion = \"0.1.0\"\nedition = \"2018\"\n\n[dependencies]\n"@
        + spec_contract_dependencies(overrides is Some)
        + "\n[[bin]]\nname = \"contract\"\npath = \"src/main.rs\"\nbench = false\ndoctest = false\ntest = false\n\n[profile.release]\ncodegen-units = 1\nlto = true\n\n"@
        + spec_patch_section(overrides)
}

/// Renders the generated contract crate's manifest.
pub fn contract_cargo_toml_contents(options: &Options) -> (r: String)
    ensures
        r@ == spec_contract_cargo_toml(options.casper_overrides),
{
    let mut out = String::from_str(
        "[package]\nname = \"contract\"\nversion = \"0.1.0\"\nedition = \"2018\"\n\n[dependencies]\n",
    );
    let deps = contract_dependencies(options);
    out.append(deps.as_str());
    out.append(
        "\n[[bin]]\nname = \"contract\"\npath = \"src/main.rs\"\nbench = false\ndoctest = false\ntest = false\n\n[profile.release]\ncodegen-units = 1\nlto = true\n\n",
    );
    let patch = patch_section(options);
    out.append(patch.as_str());
    out
}

/// The generated test suite's manifest.
pub open spec fn spec_tests_cargo_toml(overrides: Option<CasperOverrides>) -> Seq<char> {
    "[package]\nname = \"tests\"\nversion = \"0.1.0\"\nedition = \"2018\"\n\n[dev-dependencies]\n"@
        + spec_test_dependencies(overrides is Some)
        + "\n[[bin]]\nname = \"integration-tests\"\npath = \"src/integration_tests.rs\"\nbench = false\ndoctest = false\n\n"@
        + spec_patch_section(overrides)
}

/// Renders the generated test suite's manifest.
pub fn tests_cargo_toml_contents(options: &Options) -> (r: String)
    ensures
        r@ == spec_tests_cargo_toml(options.casper_overrides),
{
    let mut out = String::from_str(
        "[package]\nname = \"tests\"\nversion = \"0.1.0\"\nedition = \"2018\"\n\n[dev-dependencies]\n",
    );
    let deps = test_dependencies(options);
    out.append(deps.as_str());
    out.append(
        "\n[[bin]]\nname = \"integration-tests\"\npath = \"src/integration_tests.rs\"\nbench = false\ndoctest = false\n\n",
    );
    let patch = patch_section(options);
    out.append(patch.as_str());
    out
}

} // verus!
