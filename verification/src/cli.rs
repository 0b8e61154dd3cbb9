//! The options of the tool's commands, as plain values, and the names the
//! tool gives them.

use crate::inject::PERSISTENT_BUILD_SCRIPT_ROOT;
pub use crate::project::PackagesInfoLevel;
use vstd::prelude::*;

verus! {

/// The names of the environment variables the tool reads.
pub const ENV_BUILD_TARGET: &'static str = "UCOM_BUILD_TARGET";

pub const ENV_PACKAGE_LEVEL: &'static str = "UCOM_PACKAGE_LEVEL";

pub const ENV_EDITOR_DIR: &'static str = "UCOM_EDITOR_DIR";

pub const ENV_DEFAULT_VERSION: &'static str = "UCOM_DEFAULT_VERSION";

/// Which versions the `list` command lists.
#[derive(Debug, Copy, Clone, PartialEq, Eq, Structural, PartialOrd, Ord)]
pub enum ListType {
    /// List Unity versions currently installed on the system.
    Installed,
    /// List installed versions and check for available updates for each.
    Updates,
    /// List the latest available version for each major/minor release series.
    Latest,
    /// List all known available Unity versions from the release data.
    All,
}

/// What the `cache` command does.
#[derive(Debug, Copy, Clone, PartialEq, Eq, Structural, PartialOrd, Ord)]
pub enum CacheAction {
    /// Remove all cached download files.
    Clear,
    /// Display a list of currently cached files.
    List,
}

/// The files the `add` command can add to a project.
#[derive(Debug, Copy, Clone, PartialEq, Eq, Structural, PartialOrd, Ord)]
pub enum UnityTemplateFile {
    /// 'UnityBuilder.cs', a C# script for automating builds via the command line.
    Builder,
    /// 'EditorMenu.cs', which adds build commands to the Unity Editor menu.
    BuilderMenu,
    /// A standard '.gitignore' file tailored for Unity projects.
    GitIgnore,
    /// A standard '.gitattributes' file tailored for Unity projects.
    GitAttributes,
}

/// The name of the file that a template is written to.
pub open spec fn template_file_name(t: UnityTemplateFile) -> Seq<char> {
    match t {
        UnityTemplateFile::Builder => "UnityBuilder.cs"@,
        UnityTemplateFile::BuilderMenu => "EditorMenu.cs"@,
        UnityTemplateFile::GitIgnore => ".gitignore"@,
        UnityTemplateFile::GitAttributes => ".gitattributes"@,
    }
}

impl UnityTemplateFile {
    /// The name of the file that the template is written to.
    pub fn file_name(self) -> (r: &'static str)
        ensures
            r@ == template_file_name(self),
    {
        match self {
            Self::Builder => "UnityBuilder.cs",
            Self::BuilderMenu => "EditorMenu.cs",
            Self::GitIgnore => ".gitignore",
            Self::GitAttributes => ".gitattributes",
        }
    }
}

/// Where the content of a template comes from.
pub enum AssetSource {
    /// Content that is part of the tool.
    Static(String),
    /// Content that is downloaded from the given URL.
    Remote(String),
}

/// A file that can be added to a project.
pub struct TemplateAsset {
    pub filename: String,
    pub content: AssetSource,
}

/// How the build script is put into a project for a build.
#[derive(Debug, Copy, Clone, PartialEq, Eq, Structural, PartialOrd, Ord)]
pub enum InjectAction {
    /// Inject build script temporarily
    Auto,
    /// Inject build script permanently
    Persistent,
    /// Use existing build script only
    Off,
}

/// The kind of build, which names the output directory.
#[derive(Debug, Copy, Clone, PartialEq, Eq, Structural, PartialOrd, Ord)]
pub enum BuildOutputType {
    /// Output to Builds/Release directory
    Release,
    /// Output to Builds/Debug directory
    Debug,
}

/// The name of an output type.
pub open spec fn output_type_name(t: BuildOutputType) -> Seq<char> {
    match t {
        BuildOutputType::Release => "Release"@,
        BuildOutputType::Debug => "Debug"@,
    }
}

impl BuildOutputType {
    /// The name of the output type.
    pub fn as_ref(&self) -> (r: &'static str)
        ensures
            r@ == output_type_name(*self),
    {
        match self {
            Self::Release => "Release",
            Self::Debug => "Debug",
        }
    }
}

/// How the editor runs a build.
#[derive(Debug, Copy, Clone, PartialEq, Eq, Structural, PartialOrd, Ord)]
pub enum BuildMode {
    /// Build in batch mode
    Batch,
    /// Build in batch mode without graphics
    BatchNoGraphics,
    /// Build in editor and quit
    EditorQuit,
    /// Build in editor and stay open
    Editor,
}

/// Build target for Unity editor
#[allow(non_camel_case_types)]
#[derive(Debug, Copy, Clone, PartialEq, Eq, Structural, PartialOrd, Ord)]
pub enum OpenTarget {
    Standalone,
    Win,
    Win64,
    OSXUniversal,
    Linux64,
    iOS,
    Android,
    WebGL,
    WindowsStoreApps,
    tvOS,
}

/// The name of an editor build target.
pub open spec fn open_target_name(t: OpenTarget) -> Seq<char> {
    match t {
        OpenTarget::Standalone => "Standalone"@,
        OpenTarget::Win => "Win"@,
        OpenTarget::Win64 => "Win64"@,
        OpenTarget::OSXUniversal => "OSXUniversal"@,
        OpenTarget::Linux64 => "Linux64"@,
        OpenTarget::iOS => "iOS"@,
        OpenTarget::Android => "Android"@,
        OpenTarget::WebGL => "WebGL"@,
        OpenTarget::WindowsStoreApps => "WindowsStoreApps"@,
        OpenTarget::tvOS => "tvOS"@,
    }
}

impl OpenTarget {
    /// The name of the target as the editor takes it.
    pub fn as_ref(&self) -> (r: &'static str)
        ensures
            r@ == open_target_name(*self),
    {
        match self {
            Self::Standalone => "Standalone",
            Self::Win => "Win",
            Self::Win64 => "Win64",
            Self::OSXUniversal => "OSXUniversal",
            Self::Linux64 => "Linux64",
            Self::iOS => "iOS",
            Self::Android => "Android",
            Self::WebGL => "WebGL",
            Self::WindowsStoreApps => "WindowsStoreApps",
            Self::tvOS => "tvOS",
        }
    }
}

/// Build target platform
#[allow(non_camel_case_types)]
#[derive(Debug, Copy, Clone, PartialEq, Eq, Structural, PartialOrd, Ord)]
pub enum BuildOpenTarget {
    Win,
    Win64,
    OSXUniversal,
    Linux64,
    iOS,
    Android,
    WebGL,
}

/// The name of a build target platform.
pub open spec fn build_open_target_name(t: BuildOpenTarget) -> Seq<char> {
    match t {
        BuildOpenTarget::Win => "Win"@,
        BuildOpenTarget::Win64 => "Win64"@,
        BuildOpenTarget::OSXUniversal => "OSXUniversal"@,
        BuildOpenTarget::Linux64 => "Linux64"@,
        BuildOpenTarget::iOS => "iOS"@,
        BuildOpenTarget::Android => "Android"@,
        BuildOpenTarget::WebGL => "WebGL"@,
    }
}

impl BuildOpenTarget {
    /// The name of the target as the editor takes it.
    pub fn as_ref(&self) -> (r: &'static str)
        ensures
            r@ == build_open_target_name(*self),
    {
        match self {
            Self::Win => "Win",
            Self::Win64 => "Win64",
            Self::OSXUniversal => "OSXUniversal",
            Self::Linux64 => "Linux64",
            Self::iOS => "iOS",
            Self::Android => "Android",
            Self::WebGL => "WebGL",
        }
    }
}

/// Target for Unity build script
#[allow(non_camel_case_types)]
#[derive(Debug, Copy, Clone, PartialEq, Eq, Structural, PartialOrd, Ord)]
pub enum BuildScriptTarget {
    StandaloneOSX,
    StandaloneWindows,
    StandaloneWindows64,
    StandaloneLinux64,
    iOS,
    Android,
    WebGL,
}

/// The build script's target for a build target platform.
pub open spec fn script_target_of(t: BuildOpenTarget) -> BuildScriptTarget {
    match t {
        BuildOpenTarget::Win => BuildScriptTarget::StandaloneWindows,
        BuildOpenTarget::Win64 => BuildScriptTarget::StandaloneWindows64,
        BuildOpenTarget::OSXUniversal => BuildScriptTarget::StandaloneOSX,
        BuildOpenTarget::Linux64 => BuildScriptTarget::StandaloneLinux64,
        BuildOpenTarget::iOS => BuildScriptTarget::iOS,
        BuildOpenTarget::Android => BuildScriptTarget::Android,
        BuildOpenTarget::WebGL => BuildScriptTarget::WebGL,
    }
}

/// The name of a build script target.
pub open spec fn script_target_name(t: BuildScriptTarget) -> Seq<char> {
    match t {
        BuildScriptTarget::StandaloneOSX => "StandaloneOSX"@,
        BuildScriptTarget::StandaloneWindows => "StandaloneWindows"@,
        BuildScriptTarget::StandaloneWindows64 => "StandaloneWindows64"@,
        BuildScriptTarget::StandaloneLinux64 => "StandaloneLinux64"@,
        BuildScriptTarget::iOS => "iOS"@,
        BuildScriptTarget::Android => "Android"@,
        BuildScriptTarget::WebGL => "WebGL"@,
    }
}

impl BuildScriptTarget {
    /// The build script's target for a build target platform.
    pub fn from(target: BuildOpenTarget) -> (r: Self)
        ensures
            r == script_target_of(target),
    {
        match target {
            BuildOpenTarget::Win => Self::StandaloneWindows,
            BuildOpenTarget::Win64 => Self::StandaloneWindows64,
            BuildOpenTarget::OSXUniversal => Self::StandaloneOSX,
            BuildOpenTarget::Linux64 => Self::StandaloneLinux64,
            BuildOpenTarget::iOS => Self::iOS,
            BuildOpenTarget::Android => Self::Android,
            BuildOpenTarget::WebGL => Self::WebGL,
        }
    }

    /// The name of the target as the build script takes it.
    pub fn as_ref(&self) -> (r: &'static str)
        ensures
            r@ == script_target_name(*self),
    {
        match self {
            Self::StandaloneOSX => "StandaloneOSX",
            Self::StandaloneWindows => "StandaloneWindows",
            Self::StandaloneWindows64 => "StandaloneWindows64",
            Self::StandaloneLinux64 => "StandaloneLinux64",
            Self::iOS => "iOS",
            Self::Android => "Android",
            Self::WebGL => "WebGL",
        }
    }
}

/// Build options flags
#[derive(Debug, Copy, Clone, PartialEq, Eq, Structural, PartialOrd, Ord)]
pub enum BuildOptions {
    /// Default build with no special settings
    NoOptions,
    /// Build development version
    Development,
    /// Run built player
    AutoRunPlayer,
    /// Show built player
    ShowBuiltPlayer,
    /// Build compressed asset bundle with streamed scenes
    BuildAdditionalStreamedScenes,
    /// Used for Xcode (iOS) or Eclipse (Android) projects
    AcceptExternalModificationsToPlayer,
    /// Force full rebuild of all scripts and player data
    CleanBuildCache,
    /// Connect to profiler in editor
    ConnectWithProfiler,
    /// Allow remote script debugging
    AllowDebugging,
    /// Symlink sources for project generation
    SymlinkSources,
    /// Skip asset bundle compression
    UncompressedAssetBundle,
    /// Connect player to editor
    ConnectToHost,
    /// Use custom connection ID
    CustomConnectionId,
    /// Build only scripts
    BuildScriptsOnly,
    /// Patch Android development package
    PatchPackage,
    /// Use LZ4 compression
    CompressWithLz4,
    /// Use LZ4 high-compression
    CompressWithLz4HC,
    /// Fail build on any errors
    StrictMode,
    /// Include test assemblies
    IncludeTestAssemblies,
    /// Use zero GUID
    NoUniqueIdentifier,
    /// Wait for player connection on start
    WaitForPlayerConnection,
    /// Enable code coverage
    EnableCodeCoverage,
    /// Enable deep profiling support
    EnableDeepProfilingSupport,
    /// Generate detailed build report
    DetailedBuildReport,
    /// Enable shader livelink
    ShaderLivelinkSupport,
}

/// The flag value of a build option, as Unity's `BuildOptions` has it.
pub open spec fn option_value(o: BuildOptions) -> i32 {
    match o {
        BuildOptions::NoOptions => 0,
        BuildOptions::Development => 1,
        BuildOptions::AutoRunPlayer => 4,
        BuildOptions::ShowBuiltPlayer => 8,
        BuildOptions::BuildAdditionalStreamedScenes => 16,
        BuildOptions::AcceptExternalModificationsToPlayer => 32,
        BuildOptions::CleanBuildCache => 128,
        BuildOptions::ConnectWithProfiler => 256,
        BuildOptions::AllowDebugging => 512,
        BuildOptions::SymlinkSources => 1024,
        BuildOptions::UncompressedAssetBundle => 2048,
        BuildOptions::ConnectToHost => 4096,
        BuildOptions::CustomConnectionId => 8192,
        BuildOptions::BuildScriptsOnly => 32768,
        BuildOptions::PatchPackage => 65536,
        BuildOptions::CompressWithLz4 => 262144,
        BuildOptions::CompressWithLz4HC => 524288,
        BuildOptions::StrictMode => 2097152,
        BuildOptions::IncludeTestAssemblies => 4194304,
        BuildOptions::NoUniqueIdentifier => 8388608,
        BuildOptions::WaitForPlayerConnection => 33554432,
        BuildOptions::EnableCodeCoverage => 67108864,
        BuildOptions::EnableDeepProfilingSupport => 268435456,
        BuildOptions::DetailedBuildReport => 536870912,
        BuildOptions::ShaderLivelinkSupport => 1073741824,
    }
}

impl BuildOptions {
    /// The flag value of the option.
    pub fn value(self) -> (r: i32)
        ensures
            r == option_value(self),
    {
        match self {
            Self::NoOptions => 0,
            Self::Development => 1,
            Self::AutoRunPlayer => 4,
            Self::ShowBuiltPlayer => 8,
            Self::BuildAdditionalStreamedScenes => 16,
            Self::AcceptExternalModificationsToPlayer => 32,
            Self::CleanBuildCache => 128,
            Self::ConnectWithProfiler => 256,
            Self::AllowDebugging => 512,
            Self::SymlinkSources => 1024,
            Self::UncompressedAssetBundle => 2048,
            Self::ConnectToHost => 4096,
            Self::CustomConnectionId => 8192,
            Self::BuildScriptsOnly => 32768,
            Self::PatchPackage => 65536,
            Self::CompressWithLz4 => 262144,
            Self::CompressWithLz4HC => 524288,
            Self::StrictMode => 2097152,
            Self::IncludeTestAssemblies => 4194304,
            Self::NoUniqueIdentifier => 8388608,
            Self::WaitForPlayerConnection => 33554432,
            Self::EnableCodeCoverage => 67108864,
            Self::EnableDeepProfilingSupport => 268435456,
            Self::DetailedBuildReport => 536870912,
            Self::ShaderLivelinkSupport => 1073741824,
        }
    }
}

/// Specifies the target environment or platform for running tests.
#[allow(non_camel_case_types)]
#[derive(Debug, Copy, Clone, PartialEq, Eq, Structural, PartialOrd, Ord)]
pub enum TestTarget {
    /// Run tests directly within the Unity Editor environment.
    EditMode,
    /// Run tests in Play Mode within the Unity Editor environment.
    PlayMode,
    /// Run tests in a standalone player build for macOS.
    StandaloneOSX,
    /// Run tests in a standalone player build for Windows 32-bit.
    StandaloneWindows,
    /// Run tests in a standalone player build for Windows 64-bit.
    StandaloneWindows64,
    /// Run tests in a standalone player build for Linux 64-bit.
    StandaloneLinux64,
    /// Run tests on an iOS device or simulator.
    iOS,
    /// Run tests on an Android device or emulator.
    Android,
    /// Run tests in a WebGL player build.
    WebGL,
}

/// The editor build target that a test platform implies.
pub open spec fn build_target_for(t: TestTarget) -> OpenTarget {
    match t {
        TestTarget::EditMode | TestTarget::PlayMode => OpenTarget::Standalone,
        TestTarget::StandaloneOSX => OpenTarget::OSXUniversal,
        TestTarget::StandaloneWindows => OpenTarget::Win,
        TestTarget::StandaloneWindows64 => OpenTarget::Win64,
        TestTarget::StandaloneLinux64 => OpenTarget::Linux64,
        TestTarget::iOS => OpenTarget::iOS,
        TestTarget::Android => OpenTarget::Android,
        TestTarget::WebGL => OpenTarget::WebGL,
    }
}

/// The name of a test platform as the editor takes it.
pub open spec fn test_target_name(t: TestTarget) -> Seq<char> {
    match t {
        TestTarget::EditMode => "EditMode"@,
        TestTarget::PlayMode => "PlayMode"@,
        TestTarget::StandaloneOSX => "StandaloneOSX"@,
        TestTarget::StandaloneWindows => "StandaloneWindows"@,
        TestTarget::StandaloneWindows64 => "StandaloneWindows64"@,
        TestTarget::StandaloneLinux64 => "StandaloneLinux64"@,
        TestTarget::iOS => "iOS"@,
        TestTarget::Android => "Android"@,
        TestTarget::WebGL => "WebGL"@,
    }
}

impl TestTarget {
    /// The editor build target that the test platform implies.
    pub fn as_build_target(self) -> (r: OpenTarget)
        ensures
            r == build_target_for(self),
    {
        match self {
            Self::EditMode | Self::PlayMode => OpenTarget::Standalone,
            Self::StandaloneOSX => OpenTarget::OSXUniversal,
            Self::StandaloneWindows => OpenTarget::Win,
            Self::StandaloneWindows64 => OpenTarget::Win64,
            Self::StandaloneLinux64 => OpenTarget::Linux64,
            Self::iOS => OpenTarget::iOS,
            Self::Android => OpenTarget::Android,
            Self::WebGL => OpenTarget::WebGL,
        }
    }

    /// The name of the test platform as the editor takes it.
    pub fn as_ref(&self) -> (r: &'static str)
        ensures
            r@ == test_target_name(*self),
    {
        match self {
            Self::EditMode => "EditMode",
            Self::PlayMode => "PlayMode",
            Self::StandaloneOSX => "StandaloneOSX",
            Self::StandaloneWindows => "StandaloneWindows",
            Self::StandaloneWindows64 => "StandaloneWindows64",
            Self::StandaloneLinux64 => "StandaloneLinux64",
            Self::iOS => "iOS",
            Self::Android => "Android",
            Self::WebGL => "WebGL",
        }
    }
}

/// Controls the verbosity of test result output.
#[derive(Debug, Copy, Clone, PartialEq, Eq, Structural, PartialOrd, Ord)]
pub enum ShowResults {
    /// Display a full summary of test results (default).
    All,
    /// Display only information about failed tests.
    Errors,
    /// Suppress the display of test result summaries.
    NoResults,
}

// ---------------------------------------------------------------------------
// Arguments of the commands
// ---------------------------------------------------------------------------

/// The arguments of the `open` command.
pub struct OpenArguments {
    pub project_dir: String,
    /// Upgrade before opening: absent, present without a version, or with a
    /// version prefix.
    pub upgrade_version: Option<Option<String>>,
    pub target: Option<OpenTarget>,
    pub wait: bool,
    pub quit: bool,
    pub quiet: bool,
    pub dry_run: bool,
    pub args: Option<Vec<String>>,
}

/// The arguments of the `add` command.
pub struct AddArguments {
    pub template: UnityTemplateFile,
    pub project_dir: String,
    pub force: bool,
    pub display_content: bool,
    pub display_url: bool,
}

/// The directory, relative to the project, that a template is added to: the
/// build scripts go to the persistent script directory, the Git files to the
/// project's root.
pub open spec fn template_destination(t: UnityTemplateFile) -> Seq<char> {
    match t {
        UnityTemplateFile::Builder | UnityTemplateFile::BuilderMenu => PERSISTENT_BUILD_SCRIPT_ROOT@,
        UnityTemplateFile::GitIgnore | UnityTemplateFile::GitAttributes => ""@,
    }
}

impl UnityTemplateFile {
    /// The directory, relative to the project, that the template is added to.
    pub fn destination_dir(self) -> (r: &'static str)
        ensures
            r@ == template_destination(self),
    {
        match self {
            Self::Builder | Self::BuilderMenu => PERSISTENT_BUILD_SCRIPT_ROOT,
            Self::GitIgnore | Self::GitAttributes => "",
        }
    }
}

/// What the `add` command does once it knows whether the template's file is
/// in the project already.
#[derive(Debug, Copy, Clone, PartialEq, Eq, Structural)]
pub enum AddStep {
    /// Print the template's content.
    ShowContent,
    /// Asked for the template's URL: every template is part of the tool, so
    /// there is none.
    NoUrl,
    /// The file is in the project and overwriting was not asked for.
    AlreadyExists,
    /// Write the file. With `with_builder`, the builder script, which the
    /// editor menu needs, is written first.
    Add { with_builder: bool },
}

/// The decision of the `add` command, given whether the template's file and
/// the builder script are in the project already. The builder script is
/// added with the editor menu unless it is there and overwriting was not
/// asked for.
pub fn add_step(args: &AddArguments, file_exists: bool, builder_exists: bool) -> (r: AddStep)
    ensures
        args.display_content ==> r == AddStep::ShowContent,
        !args.display_content && args.display_url ==> r == AddStep::NoUrl,
        !args.display_content && !args.display_url ==> r == (if file_exists && !args.force {
            AddStep::AlreadyExists
        } else {
            AddStep::Add {
                with_builder: args.template == UnityTemplateFile::BuilderMenu && (
                !builder_exists || args.force),
            }
        }),
{
    if args.display_content {
        AddStep::ShowContent
    } else if args.display_url {
        AddStep::NoUrl
    } else if file_exists && !args.force {
        AddStep::AlreadyExists
    } else {
        let menu = match args.template {
            UnityTemplateFile::BuilderMenu => true,
            _ => false,
        };
        AddStep::Add { with_builder: menu && (!builder_exists || args.force) }
    }
}

/// The arguments of the `build` command.
pub struct BuildArguments {
    pub target: BuildOpenTarget,
    pub project_dir: String,
    pub build_path: Option<String>,
    pub output_type: BuildOutputType,
    pub run_player: bool,
    pub development_build: bool,
    pub show_built_player: bool,
    pub allow_debugging: bool,
    pub connect_with_profiler: bool,
    pub deep_profiling: bool,
    pub connect_to_host: bool,
    pub build_options: Vec<BuildOptions>,
    pub build_args: Option<String>,
    pub clean: bool,
    pub inject: InjectAction,
    pub mode: BuildMode,
    pub build_function: String,
    pub log_file: Option<String>,
    pub quiet: bool,
    pub dry_run: bool,
    pub args: Option<Vec<String>>,
}

/// The arguments of the `new` command.
pub struct NewArguments {
    pub version_pattern: String,
    pub project_dir: String,
    pub target: Option<OpenTarget>,
    pub add_builder_menu: bool,
    pub include_lfs: bool,
    pub no_git: bool,
    pub wait: bool,
    pub quit: bool,
    pub quiet: bool,
    pub dry_run: bool,
    pub args: Option<Vec<String>>,
}

/// The arguments of the `run` command.
pub struct RunArguments {
    pub version_pattern: String,
    pub wait: bool,
    pub quiet: bool,
    pub dry_run: bool,
    pub args: Option<Vec<String>>,
}

/// The arguments of the `test` command.
pub struct TestArguments {
    pub platform: TestTarget,
    pub project_dir: String,
    pub target: Option<OpenTarget>,
    pub show_results: ShowResults,
    pub no_batch_mode: bool,
    pub forget_project_path: bool,
    pub categories: Option<String>,
    pub tests: Option<String>,
    pub assemblies: Option<String>,
    pub quiet: bool,
    pub dry_run: bool,
    pub args: Option<Vec<String>>,
}

/// A command of the tool with its arguments.
pub enum Command {
    List { list_type: ListType, version_filter: Option<String>, force: bool },
    Install { version: String },
    Info {
        project_dir: String,
        install_required: bool,
        recursive: bool,
        packages: PackagesInfoLevel,
        report: bool,
    },
    Updates { project_dir: String, install_latest: bool, report: bool },
    New(NewArguments),
    Open(OpenArguments),
    Build(BuildArguments),
    Test(TestArguments),
    Run(RunArguments),
    Add(AddArguments),
    Cache { action: CacheAction },
}

/// The command line of the tool.
pub struct Cli {
    pub no_color: bool,
    pub command: Option<Command>,
}

} // verus!
