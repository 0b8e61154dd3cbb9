use ucom::command::is_log_error;
use ucom::releases::{newer_release_action, NewerReleaseAction};
use ucom::cli::{
    BuildArguments, BuildMode, BuildOpenTarget, BuildOptions, BuildOutputType, BuildScriptTarget,
    InjectAction, NewArguments, OpenArguments, OpenTarget, RunArguments, ShowResults,
    TestArguments, TestTarget, UnityTemplateFile,
};
use ucom::command::{
    build_command_line, build_report_entries, collect_log_errors, line_contains_error, Platform,
    ReportEntry, UnityCommandBuilder,
};
use ucom::command::BuildPathError;
use ucom::inject::{csharp_build_script_injection_hooks, plan_with_uuid};
use ucom::version::UnityVersion;

fn build_arguments() -> BuildArguments {
    BuildArguments {
        target: BuildOpenTarget::WebGL,
        project_dir: ".".to_string(),
        build_path: None,
        output_type: BuildOutputType::Release,
        run_player: false,
        development_build: false,
        show_built_player: false,
        allow_debugging: false,
        connect_with_profiler: false,
        deep_profiling: false,
        connect_to_host: false,
        build_options: vec![BuildOptions::NoOptions],
        build_args: None,
        clean: false,
        inject: InjectAction::Auto,
        mode: BuildMode::Batch,
        build_function: "Ucom.UnityBuilder.Build".to_string(),
        log_file: None,
        quiet: false,
        dry_run: false,
        args: None,
    }
}

#[test]
fn builder_arguments_in_order() {
    let b = UnityCommandBuilder::new("/Unity".to_string())
        .add_arg("-x".to_string())
        .with_project_path("/p".to_string())
        .with_build_target("WebGL")
        .with_log_file("/l.log".to_string())
        .batch_mode(true)
        .no_graphics(true)
        .quit(true)
        .add_args(vec!["-y".to_string(), "z".to_string()]);
    assert_eq!(b.program(), "/Unity");
    assert_eq!(
        b.arguments(),
        vec![
            "-projectPath", "/p", "-buildTarget", "WebGL", "-logFile", "/l.log", "-batchmode",
            "-nographics", "-quit", "-x", "-y", "z"
        ]
    );
    assert!(UnityCommandBuilder::new("u".to_string()).arguments().is_empty());
}

#[test]
fn build_flags() {
    let mut a = build_arguments();
    assert_eq!(a.build_option_flags(), 0);
    a.run_player = true;
    a.development_build = true;
    a.build_options = vec![BuildOptions::StrictMode, BuildOptions::Development];
    assert_eq!(a.build_option_flags(), 4 | 1 | 2097152);
    a.deep_profiling = true;
    a.connect_to_host = true;
    assert_eq!(a.build_option_flags(), 4 | 1 | 2097152 | 268435456 | 4096);
    assert_eq!(BuildOptions::BuildScriptsOnly.value(), 32768);
    let scripts = BuildArguments { build_options: vec![BuildOptions::BuildScriptsOnly], ..build_arguments() };
    assert_eq!(scripts.build_option_flags(), 0x8000);
    assert!(a.show_log());
    a.quiet = true;
    assert!(!a.show_log());
    a.quiet = false;
    a.mode = BuildMode::Editor;
    assert!(!a.show_log());
}

#[test]
fn build_command() {
    let mut a = build_arguments();
    a.build_args = Some("v1".to_string());
    a.development_build = true;
    a.args = Some(vec!["-extra".to_string()]);
    let b = a.create_cmd("/p", "/Unity", "/out", "/p/Logs/Build-WebGL.log");
    assert_eq!(
        b.arguments(),
        vec![
            "-projectPath", "/p", "-buildTarget", "WebGL", "-logFile", "/p/Logs/Build-WebGL.log",
            "-batchmode", "-quit", "-executeMethod", "Ucom.UnityBuilder.Build",
            "--ucom-build-output", "/out", "--ucom-build-target", "WebGL",
            "--ucom-build-options", "1", "--ucom-pre-build-args", "v1", "-extra"
        ]
    );
    assert_eq!(a.default_log_name(), "Build-WebGL.log");
    assert_eq!(a.default_output_dir("/p", '/'), "/p/Builds/Release/WebGL");
    assert_eq!(a.default_output_dir("/p/", '/'), "/p/Builds/Release/WebGL");
    assert_eq!(BuildScriptTarget::from(BuildOpenTarget::Win64).as_ref(), "StandaloneWindows64");
    assert_eq!(BuildOutputType::Debug.as_ref(), "Debug");
}

#[test]
fn test_command() {
    let a = TestArguments {
        platform: TestTarget::EditMode,
        project_dir: ".".to_string(),
        target: None,
        show_results: ShowResults::All,
        no_batch_mode: false,
        forget_project_path: true,
        categories: Some("Fast;!Slow".to_string()),
        tests: None,
        assemblies: Some("A.dll".to_string()),
        quiet: false,
        dry_run: false,
        args: None,
    };
    let b = a.build_cmd("/p", "/Unity", "/p/tests.xml");
    assert_eq!(
        b.arguments(),
        vec![
            "-projectPath", "/p", "-buildTarget", "Standalone", "-batchmode", "-runTests",
            "-testPlatform", "EditMode", "-forgetProjectPath", "-testCategory", "\"Fast;!Slow\"",
            "-assemblyNames", "\"A.dll\"", "-testResults", "/p/tests.xml"
        ]
    );
    let graphics = TestArguments { no_batch_mode: true, ..a };
    let g = graphics.build_cmd("/p", "/Unity", "/p/tests.xml");
    assert!(!g.arguments().iter().any(|x| x == "-batchmode"));
    assert_eq!(TestTarget::StandaloneOSX.as_build_target(), OpenTarget::OSXUniversal);
    assert_eq!(TestTarget::WebGL.as_build_target().as_ref(), "WebGL");
}

#[test]
fn open_new_and_run_commands() {
    let open = OpenArguments {
        project_dir: ".".to_string(),
        upgrade_version: Some(None),
        target: Some(OpenTarget::Android),
        wait: false,
        quit: true,
        quiet: false,
        dry_run: false,
        args: Some(vec!["-a".to_string()]),
    };
    assert_eq!(
        open.command_args("/p"),
        vec!["-projectPath", "/p", "-buildTarget", "Android", "-quit", "-a"]
    );
    let v = UnityVersion::parse("2021.3.9f1").unwrap();
    assert_eq!(open.version_pattern(v), Some("2021.3".to_string()));

    let new = NewArguments {
        version_pattern: "2022".to_string(),
        project_dir: "/n".to_string(),
        target: Some(OpenTarget::iOS),
        add_builder_menu: false,
        include_lfs: false,
        no_git: true,
        wait: false,
        quit: true,
        quiet: false,
        dry_run: false,
        args: Some(vec!["-b".to_string()]),
    };
    assert_eq!(
        new.command_args("/n"),
        vec!["-createProject", "/n", "-b", "-quit", "-buildTarget", "iOS"]
    );
    let run = RunArguments {
        version_pattern: "2022".to_string(),
        wait: false,
        quiet: false,
        dry_run: false,
        args: None,
    };
    assert!(run.command_args().is_empty());
    assert_eq!(UnityTemplateFile::GitIgnore.file_name(), ".gitignore");
}

#[test]
fn printed_command_lines() {
    let args = vec!["-projectPath".to_string(), "/my project".to_string()];
    assert_eq!(
        build_command_line("/Applications/Unity Hub/Unity", &args, Platform::MacOs),
        "\"/Applications/Unity Hub/Unity\" -projectPath \"/my project\""
    );
    assert_eq!(
        build_command_line("C:\\Program Files\\Unity.exe", &[], Platform::Windows),
        "& \"C:\\Program Files\\Unity.exe\""
    );
    assert_eq!(build_command_line("/u", &args, Platform::Other), "/u -projectPath \"/my project\"");
}

#[test]
fn log_errors() {
    assert!(line_contains_error("Assets/A.cs(1,2): error CS0103: x"));
    assert!(line_contains_error("[Builder] Error: failed"));
    assert!(!line_contains_error("All good"));
    let lines: Vec<String> = vec!["ok", "error: a", "error: b", "error: a", "fine"]
        .into_iter()
        .map(String::from)
        .collect();
    assert_eq!(collect_log_errors(&lines), "1: error: a\n2: error: b");
    assert_eq!(collect_log_errors(&lines[..2]), "error: a");
    assert_eq!(collect_log_errors(&[]), "No errors found in log");
}

#[test]
fn build_report() {
    let lines: Vec<String> = vec![
        "noise",
        "[Builder] Build Report",
        "Result: Succeeded",
        "plain line",
        "",
        "Size: ignored",
    ]
    .into_iter()
    .map(String::from)
    .collect();
    let entries = build_report_entries(&lines);
    assert_eq!(entries.len(), 2);
    match &entries[0] {
        ReportEntry::KeyValue(k, v) => {
            assert_eq!(k, "Result");
            assert_eq!(v, "Succeeded");
        }
        _ => panic!("expected a key and value"),
    }
    assert!(matches!(&entries[1], ReportEntry::Line(l) if l == "plain line"));
    assert!(build_report_entries(&lines[..1]).is_empty());
}

#[test]
fn injection_plans() {
    let p = plan_with_uuid(InjectAction::Auto, false, "u-1", '/');
    assert_eq!(p.script_dir, Some("Assets/Ucom-u-1/Editor".to_string()));
    assert_eq!(p.cleanup_dir, Some("Assets/Ucom-u-1".to_string()));
    let p = plan_with_uuid(InjectAction::Persistent, false, "u", '/');
    assert_eq!(p.script_dir, Some("Assets/Plugins/Ucom/Editor".to_string()));
    assert_eq!(p.cleanup_dir, None);
    let p = plan_with_uuid(InjectAction::Auto, true, "u", '/');
    assert_eq!(p.script_dir, None);
    let p = csharp_build_script_injection_hooks(InjectAction::Auto, false, '/');
    let dir = p.cleanup_dir.unwrap();
    assert_eq!(dir.len(), "Assets/Ucom-".len() + 36);
    assert!(dir.starts_with("Assets/Ucom-"));
    let q = csharp_build_script_injection_hooks(InjectAction::Auto, false, '/');
    assert_ne!(q.cleanup_dir.unwrap(), dir);
    let off = csharp_build_script_injection_hooks(InjectAction::Off, false, '/');
    assert!(off.script_dir.is_none() && off.cleanup_dir.is_none());
}

#[test]
fn earlier_log_error_rule() {
    assert!(is_log_error("[Builder] Error: x"));
    assert!(is_log_error("Assets/A.cs(1,2): error CS1002: ; expected"));
    assert!(!is_log_error("  error: indented"));
    assert!(is_log_error("error: at start"));
    assert!(!is_log_error("System.Exception: not in this rule"));
}

#[test]
fn newer_release_actions() {
    assert_eq!(newer_release_action(false, false, true), NewerReleaseAction::Nothing);
    assert_eq!(newer_release_action(true, true, true), NewerReleaseAction::Nothing);
    assert_eq!(newer_release_action(true, false, true), NewerReleaseAction::Install);
    assert_eq!(newer_release_action(true, false, false), NewerReleaseAction::Suggest);
}

#[test]
fn build_paths() {
    let a = build_arguments();
    assert_eq!(a.output_path("/p", '/', None), Ok("/p/Builds/Release/WebGL".to_string()));
    assert_eq!(a.output_path("/p", '/', Some("/out")), Ok("/out".to_string()));
    assert_eq!(a.output_path("/p", '/', Some("/p")), Err(BuildPathError::OutputIsProject));
    assert_eq!(a.log_file_name(), "Build-WebGL.log");
    assert_eq!(
        a.full_log_path("/p", '/', Some("Build-WebGL.log")),
        Ok("/p/Logs/Build-WebGL.log".to_string())
    );
    let given = BuildArguments { log_file: Some("logs/b.log".to_string()), ..build_arguments() };
    assert_eq!(given.log_file_name(), "logs/b.log");
    assert_eq!(given.full_log_path("/p", '/', Some("b.log")), Ok("logs/b.log".to_string()));
    let bad = BuildArguments { log_file: Some("..".to_string()), ..build_arguments() };
    assert_eq!(bad.full_log_path("/p", '/', None), Err(BuildPathError::InvalidLogFileName));
}
