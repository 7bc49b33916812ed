use vstd::prelude::*;

use crate::reply::{declines, is_decline, normalize_reply, normalized_reply};
use crate::template::{build_config_text, clang_tidy_config, clang_tidy_text, get_cmake_file, main_source, main_source_text};
use crate::versions::{is_supported_version, supports_version};

verus! {

/// What a project is made from: its name, the language standard it targets
/// and whether it gets a static-analysis configuration.
pub struct App {
    pub name: String,
    pub version: u8,
    pub clang_tidy: bool,
}

/// Why a project could not be set up.
#[derive(Debug, Clone, Copy, PartialEq, Eq, Structural)]
pub enum SetupError {
    /// The requested language standard is not supported.
    UnsupportedVersion,
    /// The user refused to overwrite the existing directory.
    Declined,
}

/// One filesystem or process operation of a setup. Paths are relative to
/// the project's root directory.
#[derive(Debug, Clone, PartialEq, Eq)]
pub enum Step {
    /// Remove the existing root directory with everything in it.
    RemoveRoot,
    /// Create the (absent) root directory.
    CreateRoot,
    /// Create a directory.
    CreateDir(String),
    /// Create or truncate a file and write the content to it.
    WriteFile(String, String),
    /// Run a program in a directory; only a failure to launch it matters.
    Run { dir: String, program: String, args: Vec<String> },
}

/// The mathematical value of a [`Step`].
pub enum StepModel {
    RemoveRoot,
    CreateRoot,
    CreateDir(Seq<char>),
    WriteFile(Seq<char>, Seq<char>),
    Run { dir: Seq<char>, program: Seq<char>, args: Seq<Seq<char>> },
}

/// The values of a sequence of strings.
pub open spec fn strings_view(v: Seq<String>) -> Seq<Seq<char>> {
    v.map_values(|s: String| s@)
}

impl View for Step {
    type V = StepModel;

    open spec fn view(&self) -> StepModel {
        match self {
            Step::RemoveRoot => StepModel::RemoveRoot,
            Step::CreateRoot => StepModel::CreateRoot,
            Step::CreateDir(p) => StepModel::CreateDir(p@),
            Step::WriteFile(p, c) => StepModel::WriteFile(p@, c@),
            Step::Run { dir, program, args } => StepModel::Run {
                dir: dir@,
                program: program@,
                args: strings_view(args@),
            },
        }
    }
}

/// The values of a sequence of steps.
pub open spec fn steps_view(v: Seq<Step>) -> Seq<StepModel> {
    v.map_values(|s: Step| s@)
}

/// The arguments of the build-configuration run: export a compile-command
/// database, build for debugging, take the sources from the parent directory.
pub open spec fn configure_args() -> Seq<Seq<char>> {
    seq!["-DCMAKE_EXPORT_COMPILE_COMMANDS=ON"@, "-DCMAKE_BUILD_TYPE=Debug"@, ".."@]
}

/// The arguments of the link that exposes the compile-command database at
/// the project's root.
pub open spec fn link_args() -> Seq<Seq<char>> {
    seq!["-s"@, "build/compile_commands.json"@]
}

/// How the root directory comes to exist: created, or removed and created.
pub open spec fn root_steps(root_exists: bool) -> Seq<StepModel> {
    if root_exists {
        seq![StepModel::RemoveRoot, StepModel::CreateRoot]
    } else {
        seq![StepModel::CreateRoot]
    }
}

/// What is done inside a fresh root directory.
pub open spec fn scaffold_steps(name: Seq<char>, version: nat, clang_tidy: bool) -> Seq<StepModel> {
    seq![
        StepModel::CreateDir("src"@),
        StepModel::CreateDir("build"@),
        StepModel::CreateDir("deps"@),
        StepModel::WriteFile("deps/CMakeLists.txt"@, Seq::<char>::empty()),
        StepModel::WriteFile("CMakeLists.txt"@, build_config_text(name, version)),
        StepModel::WriteFile("src/main.cpp"@, main_source_text()),
        StepModel::Run { dir: "build"@, program: "cmake"@, args: configure_args() },
        StepModel::Run { dir: Seq::<char>::empty(), program: "ln"@, args: link_args() },
    ] + if clang_tidy {
        seq![StepModel::WriteFile(".clang-tidy"@, clang_tidy_text())]
    } else {
        Seq::<StepModel>::empty()
    }
}

/// The outcome of a setup: refused for an unsupported standard before
/// anything is touched, refused when the user declines to overwrite an
/// existing root, otherwise the steps that build the project.
pub open spec fn setup_outcome(
    name: Seq<char>,
    version: nat,
    clang_tidy: bool,
    root_exists: bool,
    normalized: Seq<char>,
) -> Result<Seq<StepModel>, SetupError> {
    if !is_supported_version(version as int) {
        Err(SetupError::UnsupportedVersion)
    } else if root_exists && declines(normalized) {
        Err(SetupError::Declined)
    } else {
        Ok(root_steps(root_exists) + scaffold_steps(name, version, clang_tidy))
    }
}

/// The value of a computed setup.
pub open spec fn plan_view(r: Result<Vec<Step>, SetupError>) -> Result<Seq<StepModel>, SetupError> {
    match r {
        Ok(v) => Ok(steps_view(v@)),
        Err(e) => Err(e),
    }
}

/// The arguments handed to the build-configuration tool.
pub fn configure_arguments() -> (r: Vec<String>)
    ensures
        strings_view(r@) == configure_args(),
{
    let mut r: Vec<String> = Vec::new();
    r.push(String::from_str("-DCMAKE_EXPORT_COMPILE_COMMANDS=ON"));
    r.push(String::from_str("-DCMAKE_BUILD_TYPE=Debug"));
    r.push(String::from_str(".."));
    assert(strings_view(r@) =~= configure_args());
    r
}

/// The arguments handed to the link command.
pub fn link_arguments() -> (r: Vec<String>)
    ensures
        strings_view(r@) == link_args(),
{
    let mut r: Vec<String> = Vec::new();
    r.push(String::from_str("-s"));
    r.push(String::from_str("build/compile_commands.json"));
    assert(strings_view(r@) =~= link_args());
    r
}

/// The directories that a sequence of steps creates below the root.
pub open spec fn created_dirs(steps: Seq<StepModel>) -> Set<Seq<char>> {
    Set::new(|p: Seq<char>| exists|i: int| 0 <= i < steps.len() && steps[i] == StepModel::CreateDir(p))
}

/// Setting up a project whose root does not exist yet creates the root and,
/// below it, exactly the directories `src`, `build` and `deps`; nothing is
/// removed.
pub proof fn fresh_root_creates_exactly_the_layout(
    name: Seq<char>,
    version: nat,
    clang_tidy: bool,
    normalized: Seq<char>,
)
    requires
        is_supported_version(version as int),
    ensures
        setup_outcome(name, version, clang_tidy, false, normalized) is Ok,
        ({
            let steps = setup_outcome(name, version, clang_tidy, false, normalized)->Ok_0;
            &&& created_dirs(steps) == set!["src"@, "build"@, "deps"@]
            &&& steps.contains(StepModel::CreateRoot)
            &&& !steps.contains(StepModel::RemoveRoot)
        }),
{
    let steps = setup_outcome(name, version, clang_tidy, false, normalized)->Ok_0;
    assert(steps[0] == StepModel::CreateRoot);
    assert(steps[1] == StepModel::CreateDir("src"@));
    assert(steps[2] == StepModel::CreateDir("build"@));
    assert(steps[3] == StepModel::CreateDir("deps"@));
    assert(created_dirs(steps) =~= set!["src"@, "build"@, "deps"@]);
    assert forall|i: int| 0 <= i < steps.len() implies steps[i] != StepModel::RemoveRoot by {
        assert(i < 10);
    }
}

/// When the root exists and the user declines, the setup is refused before
/// any step: nothing is removed or created.
pub proof fn declined_overwrite_touches_nothing(
    name: Seq<char>,
    version: nat,
    clang_tidy: bool,
    normalized: Seq<char>,
)
    requires
        is_supported_version(version as int),
        declines(normalized),
    ensures
        setup_outcome(name, version, clang_tidy, true, normalized) == Err::<Seq<StepModel>, SetupError>(
            SetupError::Declined,
        ),
{
}

/// When the root exists and the user gives any other answer, the old root is
/// removed and then the project is built exactly as into a fresh one.
pub proof fn accepted_overwrite_rebuilds_from_scratch(
    name: Seq<char>,
    version: nat,
    clang_tidy: bool,
    normalized: Seq<char>,
    any_reply: Seq<char>,
)
    requires
        is_supported_version(version as int),
        !declines(normalized),
    ensures
        setup_outcome(name, version, clang_tidy, true, normalized) == Ok::<Seq<StepModel>, SetupError>(
            seq![StepModel::RemoveRoot] + setup_outcome(name, version, clang_tidy, false, any_reply)->Ok_0,
        ),
{
    assert(root_steps(true) + scaffold_steps(name, version, clang_tidy) =~= seq![StepModel::RemoveRoot]
        + (root_steps(false) + scaffold_steps(name, version, clang_tidy)));
}

/// An unsupported language standard refuses the setup before any step,
/// whatever the state of the filesystem and the user's answer.
pub proof fn unsupported_version_touches_nothing(
    name: Seq<char>,
    version: nat,
    clang_tidy: bool,
    root_exists: bool,
    normalized: Seq<char>,
)
    requires
        !is_supported_version(version as int),
    ensures
        setup_outcome(name, version, clang_tidy, root_exists, normalized) == Err::<Seq<StepModel>, SetupError>(
            SetupError::UnsupportedVersion,
        ),
{
}

/// With static analysis requested, a successful setup writes the fixed rule
/// document to `.clang-tidy` at the project's root.
pub proof fn analysis_config_written_when_requested(
    name: Seq<char>,
    version: nat,
    root_exists: bool,
    normalized: Seq<char>,
)
    requires
        setup_outcome(name, version, true, root_exists, normalized) is Ok,
    ensures
        setup_outcome(name, version, true, root_exists, normalized)->Ok_0.contains(
            StepModel::WriteFile(".clang-tidy"@, clang_tidy_text()),
        ),
{
    let steps = setup_outcome(name, version, true, root_exists, normalized)->Ok_0;
    assert(steps[steps.len() - 1] == StepModel::WriteFile(".clang-tidy"@, clang_tidy_text()));
}

impl App {
    /// A project description from its three parts.
    pub fn new(name: String, version: u8, clang_tidy: bool) -> (r: App)
        ensures
            r.name@ == name@,
            r.version == version,
            r.clang_tidy == clang_tidy,
    {
        App { name, version, clang_tidy }
    }

    /// Tells whether the requested language standard is supported.
    pub fn validate_arguments(&self) -> (r: bool)
        ensures
            r == is_supported_version(self.version as int),
    {
        supports_version(self.version)
    }

    /// The build configuration of this project.
    pub fn get_cmake_file_content(&self) -> (r: String)
        ensures
            r@ == build_config_text(self.name@, self.version as nat),
    {
        get_cmake_file(self.name.as_str(), self.version)
    }

    /// The steps that build the project inside its fresh root directory.
    pub fn scaffold(&self) -> (r: Vec<Step>)
        ensures
            steps_view(r@) == scaffold_steps(self.name@, self.version as nat, self.clang_tidy),
    {
        let mut r: Vec<Step> = Vec::new();
        r.push(Step::CreateDir(String::from_str("src")));
        r.push(Step::CreateDir(String::from_str("build")));
        r.push(Step::CreateDir(String::from_str("deps")));
        r.push(Step::WriteFile(String::from_str("deps/CMakeLists.txt"), String::new()));
        r.push(Step::WriteFile(String::from_str("CMakeLists.txt"), self.get_cmake_file_content()));
        r.push(Step::WriteFile(String::from_str("src/main.cpp"), main_source()));
        r.push(
            Step::Run {
                dir: String::from_str("build"),
                program: String::from_str("cmake"),
                args: configure_arguments(),
            },
        );
        r.push(
            Step::Run {
                dir: String::new(),
                program: String::from_str("ln"),
                args: link_arguments(),
            },
        );
        if self.clang_tidy {
            r.push(Step::WriteFile(String::from_str(".clang-tidy"), clang_tidy_config()));
        }
        assert(steps_view(r@) =~= scaffold_steps(self.name@, self.version as nat, self.clang_tidy));
        r
    }

    /// The setup of this project, given whether its root directory exists
    /// already and, if it does, the user's normalized answer to the
    /// overwrite prompt.
    pub fn plan_with_reply(&self, root_exists: bool, normalized: &str) -> (r: Result<Vec<Step>, SetupError>)
        ensures
            plan_view(r) == setup_outcome(
                self.name@,
                self.version as nat,
                self.clang_tidy,
                root_exists,
                normalized@,
            ),
    {
        if !self.validate_arguments() {
            return Err(SetupError::UnsupportedVersion);
        }
        let mut r: Vec<Step> = Vec::new();
        if root_exists {
            if is_decline(normalized) {
                return Err(SetupError::Declined);
            }
            r.push(Step::RemoveRoot);
        }
        r.push(Step::CreateRoot);
        let ghost head = r@;
        assert(steps_view(head) =~= root_steps(root_exists));
        let mut rest = self.scaffold();
        r.append(&mut rest);
        assert(steps_view(r@) =~= root_steps(root_exists) + scaffold_steps(
            self.name@,
            self.version as nat,
            self.clang_tidy,
        ));
        Ok(r)
    }

    /// The setup of this project, given whether its root directory exists
    /// already and, if it does, the line the user typed at the overwrite
    /// prompt (ignored otherwise).
    pub fn setup_plan(&self, root_exists: bool, reply: &str) -> (r: Result<Vec<Step>, SetupError>)
        ensures
            root_exists ==> plan_view(r) == setup_outcome(
                self.name@,
                self.version as nat,
                self.clang_tidy,
                true,
                normalized_reply(reply@),
            ),
            !root_exists ==> plan_view(r) == setup_outcome(
                self.name@,
                self.version as nat,
                self.clang_tidy,
                false,
                reply@,
            ),
    {
        if root_exists {
            let normalized = normalize_reply(reply);
            self.plan_with_reply(true, normalized.as_str())
        } else {
            self.plan_with_reply(false, reply)
        }
    }
}

} // verus!
