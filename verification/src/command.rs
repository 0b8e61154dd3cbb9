//! The command lines the tool hands to the Unity editor, how it prints them,
//! and what it reads back from the editor's build log.

use crate::cli::{
    build_open_target_name, open_target_name, option_value, output_type_name, script_target_name,
    script_target_of, test_target_name, build_target_for, BuildArguments, BuildMode,
    BuildOptions, BuildScriptTarget, NewArguments, OpenArguments, RunArguments,
    TestArguments,
};
use crate::project::{join_path, joined, opt_view};
use crate::text::{
    chars_of, contains, contains_seq, decimal, is_whitespace, is_whitespace_char, push_char,
    push_decimal, push_str, split_once_char, split_once_seq, starts_with, starts_with_seq,
    string_of, trim, trim_chars,
};
use crate::version::{minor_partial_chars, same_chars, UnityVersion};
use vstd::prelude::*;

verus! {

// ---------------------------------------------------------------------------
// Strings as sequences of characters
// ---------------------------------------------------------------------------

/// The strings as sequences of characters.
pub open spec fn strings_view(v: Seq<String>) -> Seq<Seq<char>> {
    v.map_values(|s: String| s@)
}

/// Copies the strings.
pub fn copy_strings(v: &[String]) -> (r: Vec<String>)
    ensures
        r@ == v@,
        strings_view(r@) == strings_view(v@),
{
    let mut out: Vec<String> = Vec::new();
    let mut i: usize = 0;
    while i < v.len()
        invariant
            i <= v@.len(),
            out@ == v@.subrange(0, i as int),
        decreases v@.len() - i,
    {
        out.push(v[i].clone());
        assert(out@ =~= v@.subrange(0, i + 1));
        i = i + 1;
    }
    assert(v@.subrange(0, v@.len() as int) =~= v@);
    out
}

/// Appends copies of the strings `b` to `a`.
fn append_strings(a: &mut Vec<String>, b: &[String])
    ensures
        strings_view(final(a)@) == strings_view(old(a)@) + strings_view(b@),
{
    let ghost start = a@;
    let mut i: usize = 0;
    while i < b.len()
        invariant
            i <= b@.len(),
            a@ == start + b@.subrange(0, i as int),
        decreases b@.len() - i,
    {
        a.push(b[i].clone());
        assert(a@ =~= start + b@.subrange(0, i + 1));
        i = i + 1;
    }
    assert(b@.subrange(0, b@.len() as int) =~= b@);
    assert(strings_view(a@) =~= strings_view(start) + strings_view(b@));
}

// ---------------------------------------------------------------------------
// The editor's command line
// ---------------------------------------------------------------------------

/// What an editor command line is made of.
pub struct CommandSpec {
    pub editor_path: Seq<char>,
    pub project_path: Option<Seq<char>>,
    pub build_target: Option<Seq<char>>,
    pub batch_mode: bool,
    pub no_graphics: bool,
    pub quit: bool,
    pub log_file: Option<Seq<char>>,
    pub additional_args: Seq<Seq<char>>,
}

/// An option with its value, when there is a value.
pub open spec fn option_with(name: Seq<char>, value: Option<Seq<char>>) -> Seq<Seq<char>> {
    match value {
        Some(v) => seq![name, v],
        None => Seq::empty(),
    }
}

/// A flag, when it is set.
pub open spec fn flag(name: Seq<char>, set: bool) -> Seq<Seq<char>> {
    if set {
        seq![name]
    } else {
        Seq::empty()
    }
}

/// The arguments of an editor command line, in order: the project path, the
/// build target and the log file, each after its option; then the batch
/// mode, no graphics and quit flags; then the additional arguments.
pub open spec fn command_args(c: CommandSpec) -> Seq<Seq<char>> {
    option_with("-projectPath"@, c.project_path) + option_with("-buildTarget"@, c.build_target)
        + option_with("-logFile"@, c.log_file) + flag("-batchmode"@, c.batch_mode) + flag(
        "-nographics"@,
        c.no_graphics,
    ) + flag("-quit"@, c.quit) + c.additional_args
}

/// Appends the option and its value, when there is a value.
fn push_option(out: &mut Vec<String>, name: &str, value: &Option<String>)
    ensures
        strings_view(final(out)@) == strings_view(old(out)@) + option_with(name@, opt_view(*value)),
{
    let ghost start = strings_view(out@);
    match value {
        Some(v) => {
            out.push(name.to_string());
            out.push(v.clone());
        },
        None => {},
    }
    assert(strings_view(out@) =~= start + option_with(name@, opt_view(*value)));
}

/// Appends the flag, when it is set.
fn push_flag(out: &mut Vec<String>, name: &str, set: bool)
    ensures
        strings_view(final(out)@) == strings_view(old(out)@) + flag(name@, set),
{
    let ghost start = strings_view(out@);
    if set {
        out.push(name.to_string());
    }
    assert(strings_view(out@) =~= start + flag(name@, set));
}

/// Builds the command line of a Unity editor invocation.
pub struct UnityCommandBuilder {
    editor_path: String,
    project_path: Option<String>,
    build_target: Option<String>,
    batch_mode: bool,
    no_graphics: bool,
    quit: bool,
    log_file: Option<String>,
    additional_args: Vec<String>,
}

impl View for UnityCommandBuilder {
    type V = CommandSpec;

    closed spec fn view(&self) -> CommandSpec {
        CommandSpec {
            editor_path: self.editor_path@,
            project_path: opt_view(self.project_path),
            build_target: opt_view(self.build_target),
            batch_mode: self.batch_mode,
            no_graphics: self.no_graphics,
            quit: self.quit,
            log_file: opt_view(self.log_file),
            additional_args: strings_view(self.additional_args@),
        }
    }
}

impl UnityCommandBuilder {
    /// A command line for the editor executable at the given path, with no
    /// arguments yet.
    pub fn new(editor_path: String) -> (r: Self)
        ensures
            r@ == (CommandSpec {
                editor_path: editor_path@,
                project_path: None,
                build_target: None,
                batch_mode: false,
                no_graphics: false,
                quit: false,
                log_file: None,
                additional_args: Seq::empty(),
            }),
    {
        let r = Self {
            editor_path,
            project_path: None,
            build_target: None,
            batch_mode: false,
            no_graphics: false,
            quit: false,
            log_file: None,
            additional_args: Vec::new(),
        };
        assert(r@.additional_args =~= Seq::empty());
        r
    }

    /// Sets the project path, which adds `-projectPath <path>`.
    pub fn with_project_path(self, path: String) -> (r: Self)
        ensures
            r@ == (CommandSpec { project_path: Some(path@), ..self@ }),
    {
        let mut s = self;
        s.project_path = Some(path);
        s
    }

    /// Sets the build target, which adds `-buildTarget <target>`.
    pub fn with_build_target(self, target: &str) -> (r: Self)
        ensures
            r@ == (CommandSpec { build_target: Some(target@), ..self@ }),
    {
        let mut s = self;
        s.build_target = Some(target.to_string());
        s
    }

    /// Turns batch mode on or off; on, it adds `-batchmode`.
    pub fn batch_mode(self, enabled: bool) -> (r: Self)
        ensures
            r@ == (CommandSpec { batch_mode: enabled, ..self@ }),
    {
        let mut s = self;
        s.batch_mode = enabled;
        s
    }

    /// Turns no-graphics mode on or off; on, it adds `-nographics`.
    pub fn no_graphics(self, enabled: bool) -> (r: Self)
        ensures
            r@ == (CommandSpec { no_graphics: enabled, ..self@ }),
    {
        let mut s = self;
        s.no_graphics = enabled;
        s
    }

    /// Turns the quit flag on or off; on, it adds `-quit`.
    pub fn quit(self, enabled: bool) -> (r: Self)
        ensures
            r@ == (CommandSpec { quit: enabled, ..self@ }),
    {
        let mut s = self;
        s.quit = enabled;
        s
    }

    /// Sets the log file, which adds `-logFile <path>`.
    pub fn with_log_file(self, path: String) -> (r: Self)
        ensures
            r@ == (CommandSpec { log_file: Some(path@), ..self@ }),
    {
        let mut s = self;
        s.log_file = Some(path);
        s
    }

    /// Adds a single argument.
    pub fn add_arg(self, arg: String) -> (r: Self)
        ensures
            r@ == (CommandSpec { additional_args: self@.additional_args.push(arg@), ..self@ }),
    {
        let mut s = self;
        s.additional_args.push(arg);
        proof {
            assert(strings_view(s.additional_args@) =~= strings_view(
                self.additional_args@,
            ).push(arg@));
        }
        s
    }

    /// Adds the arguments, in order.
    pub fn add_args(self, args: Vec<String>) -> (r: Self)
        ensures
            r@ == (CommandSpec {
                additional_args: self@.additional_args + strings_view(args@),
                ..self@
            }),
    {
        let mut s = self;
        append_strings(&mut s.additional_args, args.as_slice());
        s
    }

    /// The path of the editor executable.
    pub fn program(&self) -> (r: &str)
        ensures
            r@ == self@.editor_path,
    {
        self.editor_path.as_str()
    }

    /// The arguments of the command line, in order.
    pub fn arguments(&self) -> (r: Vec<String>)
        ensures
            strings_view(r@) == command_args(self@),
    {
        let mut out: Vec<String> = Vec::new();
        assert(strings_view(out@) =~= Seq::empty());
        push_option(&mut out, "-projectPath", &self.project_path);
        push_option(&mut out, "-buildTarget", &self.build_target);
        push_option(&mut out, "-logFile", &self.log_file);
        push_flag(&mut out, "-batchmode", self.batch_mode);
        push_flag(&mut out, "-nographics", self.no_graphics);
        push_flag(&mut out, "-quit", self.quit);
        append_strings(&mut out, self.additional_args.as_slice());
        out
    }
}

// ---------------------------------------------------------------------------
// Printing a command line
// ---------------------------------------------------------------------------

/// The platforms the tool knows how to quote command lines for.
#[derive(Debug, Clone, Copy, PartialEq, Eq, Structural)]
pub enum Platform {
    MacOs,
    Windows,
    Other,
}

/// `s` holds a whitespace character.
pub open spec fn has_whitespace(s: Seq<char>) -> bool {
    exists|i: int| 0 <= i < s.len() && is_whitespace(#[trigger] s[i])
}

/// The program as printed: with whitespace it is quoted, on Windows after
/// `& `.
pub open spec fn printed_program(p: Seq<char>, platform: Platform) -> Seq<char> {
    if has_whitespace(p) {
        match platform {
            Platform::Windows => "& \""@ + p + "\""@,
            _ => "\""@ + p + "\""@,
        }
    } else {
        p
    }
}

/// An argument as printed: quoted when it holds whitespace.
pub open spec fn printed_arg(a: Seq<char>) -> Seq<char> {
    if has_whitespace(a) {
        "\""@ + a + "\""@
    } else {
        a
    }
}

/// The printed command line: the program and each argument after a space.
pub open spec fn printed_command(p: Seq<char>, args: Seq<Seq<char>>, platform: Platform) -> Seq<
    char,
>
    decreases args.len(),
{
    if args.len() == 0 {
        printed_program(p, platform)
    } else {
        printed_command(p, args.drop_last(), platform) + " "@ + printed_arg(args.last())
    }
}

/// Whether the characters hold whitespace.
fn any_whitespace(s: &[char]) -> (b: bool)
    ensures
        b == has_whitespace(s@),
{
    let mut i: usize = 0;
    while i < s.len()
        invariant
            i <= s@.len(),
            forall|j: int| 0 <= j < i ==> !is_whitespace(#[trigger] s@[j]),
        decreases s@.len() - i,
    {
        if is_whitespace_char(s[i]) {
            return true;
        }
        i = i + 1;
    }
    false
}

/// Returns the full command line as it would be typed in a shell of the
/// platform. The tool supports macOS and Windows; elsewhere a program path
/// with whitespace cannot be printed.
pub fn build_command_line(program: &str, args: &[String], platform: Platform) -> (r: String)
    requires
        platform is Other ==> !has_whitespace(program@),
    ensures
        r@ == printed_command(program@, strings_view(args@), platform),
{
    let pc = chars_of(program);
    let mut line = String::new();
    if any_whitespace(pc.as_slice()) {
        match platform {
            Platform::Windows => {
                push_str(&mut line, "& \"");
            },
            _ => {
                push_str(&mut line, "\"");
            },
        }
        push_str(&mut line, program);
        push_str(&mut line, "\"");
    } else {
        push_str(&mut line, program);
    }
    let ghost sv = strings_view(args@);
    let mut i: usize = 0;
    while i < args.len()
        invariant
            i <= args@.len(),
            sv == strings_view(args@),
            line@ == printed_command(program@, sv.subrange(0, i as int), platform),
        decreases args@.len() - i,
    {
        push_char(&mut line, ' ');
        let ac = chars_of(args[i].as_str());
        if any_whitespace(ac.as_slice()) {
            push_str(&mut line, "\"");
            push_str(&mut line, args[i].as_str());
            push_str(&mut line, "\"");
        } else {
            push_str(&mut line, args[i].as_str());
        }
        proof {
            let t = sv.subrange(0, i + 1);
            assert(t.drop_last() =~= sv.subrange(0, i as int));
            assert(t.last() == args@[i as int]@);
            assert(" "@ =~= seq![' ']) by {
                reveal_strlit(" ");
            }
        }
        i = i + 1;
    }
    proof {
        assert(sv.subrange(0, args@.len() as int) =~= sv);
    }
    line
}

// ---------------------------------------------------------------------------
// Build arguments
// ---------------------------------------------------------------------------

/// `v` when `b` holds, else zero.
pub open spec fn flag_if(b: bool, v: i32) -> i32 {
    if b {
        v
    } else {
        0
    }
}

/// The build options or-ed together.
pub open spec fn options_or(s: Seq<BuildOptions>) -> i32
    decreases s.len(),
{
    if s.len() == 0 {
        0
    } else {
        options_or(s.drop_last()) | option_value(s.last())
    }
}

/// The build option flags that the arguments ask for: those of the
/// shorthand switches and the listed options, or-ed together.
pub open spec fn option_flags(a: BuildArguments) -> i32 {
    (0i32 | flag_if(a.run_player, 4) | flag_if(a.development_build, 1) | flag_if(
        a.show_built_player,
        8,
    ) | flag_if(a.allow_debugging, 512) | flag_if(a.connect_with_profiler, 256) | flag_if(
        a.deep_profiling,
        268435456,
    ) | flag_if(a.connect_to_host, 4096)) | options_or(a.build_options@)
}

/// The extra arguments of a command, or none.
pub open spec fn extra_args(args: Option<Vec<String>>) -> Seq<Seq<char>> {
    match args {
        Some(a) => strings_view(a@),
        None => Seq::empty(),
    }
}

/// The additional arguments of a build: the build method and ucom's own
/// arguments for the build script.
pub open spec fn build_extra_args(a: BuildArguments, output_dir: Seq<char>) -> Seq<Seq<char>> {
    let base = seq![
        "-executeMethod"@,
        a.build_function@,
        "--ucom-build-output"@,
        output_dir,
        "--ucom-build-target"@,
        script_target_name(script_target_of(a.target)),
    ];
    let opts = if option_flags(a) != 0 {
        seq!["--ucom-build-options"@, decimal(option_flags(a) as nat)]
    } else {
        Seq::empty()
    };
    let pre = match a.build_args {
        Some(s) => seq!["--ucom-pre-build-args"@, s@],
        None => Seq::empty(),
    };
    base + opts + pre + extra_args(a.args)
}

/// The command line of a build.
pub open spec fn build_command(
    a: BuildArguments,
    project: Seq<char>,
    editor: Seq<char>,
    output_dir: Seq<char>,
    log_file: Seq<char>,
) -> CommandSpec {
    CommandSpec {
        editor_path: editor,
        project_path: Some(project),
        build_target: Some(build_open_target_name(a.target)),
        batch_mode: a.mode is Batch || a.mode is BatchNoGraphics,
        no_graphics: a.mode is BatchNoGraphics,
        quit: !(a.mode is Editor),
        log_file: Some(log_file),
        additional_args: build_extra_args(a, output_dir),
    }
}

/// The default name of a build's log file.
pub open spec fn default_log_name(a: BuildArguments) -> Seq<char> {
    "Build-"@ + build_open_target_name(a.target) + ".log"@
}

/// The log file a build writes, as given: the one named by the arguments,
/// or `Build-<target>.log`.
pub open spec fn log_file_of(a: BuildArguments) -> Seq<char> {
    match a.log_file {
        Some(f) => f@,
        None => default_log_name(a),
    }
}

/// Where the build log goes: a log file given as a bare file name goes to
/// the project's `Logs` directory, any other path is taken as it is. The
/// file name is the last component of the log file's path as the platform's
/// path rules read it.
pub open spec fn log_path_of(a: BuildArguments, project: Seq<char>, sep: char, file_name: Seq<char>) -> Seq<
    char,
> {
    if file_name == log_file_of(a) {
        joined(joined(project, "Logs"@, sep), file_name, sep)
    } else {
        log_file_of(a)
    }
}

/// The directory a build goes to: the build path, made absolute, when one
/// is given, else the default.
pub open spec fn output_dir_of(a: BuildArguments, project: Seq<char>, sep: char, absolute_build_path: Option<
    Seq<char>,
>) -> Seq<char> {
    match absolute_build_path {
        Some(p) => p,
        None => default_output_dir(a, project, sep),
    }
}

/// Why the paths of a build could not be chosen.
#[derive(Debug, PartialEq, Eq, Structural, Clone, Copy)]
pub enum BuildPathError {
    /// The output directory is the project directory itself.
    OutputIsProject,
    /// The log file's path names no file.
    InvalidLogFileName,
}

/// The directory a build goes to when no build path is given:
/// `<project>/Builds/<output type>/<target>`.
pub open spec fn default_output_dir(a: BuildArguments, project: Seq<char>, sep: char) -> Seq<char> {
    joined(joined(joined(project, "Builds"@, sep), output_type_name(a.output_type), sep), build_open_target_name(a.target), sep)
}

/// Or-ing non-negative flags gives a non-negative value.
proof fn lemma_or_nonneg(a: i32, b: i32)
    requires
        a >= 0,
        b >= 0,
    ensures
        (a | b) >= 0,
{
    assert(a >= 0 && b >= 0 ==> (a | b) >= 0) by (bit_vector);
}

/// A bit that one side of an or has, the result has.
proof fn lemma_or_keeps_bits(x: i32, y: i32, c: i32)
    ensures
        x & c == c ==> (x | y) & c == c,
        y & c == c ==> (x | y) & c == c,
        x == 0 && y == 0 ==> (x | y) == 0,
{
    assert(x & c == c ==> (x | y) & c == c) by (bit_vector);
    assert(y & c == c ==> (x | y) & c == c) by (bit_vector);
    assert(x == 0 && y == 0 ==> (x | y) == 0) by (bit_vector);
}

/// The or of the switches' flags and the listed options has every bit of
/// each of them, and is zero when they all are.
proof fn lemma_flags_or(f1: i32, f2: i32, f3: i32, f4: i32, f5: i32, f6: i32, f7: i32, o: i32, c: i32)
    ensures
        (f1 & c == c || f2 & c == c || f3 & c == c || f4 & c == c || f5 & c == c || f6 & c == c
            || f7 & c == c || o & c == c) ==> ((0i32 | f1 | f2 | f3 | f4 | f5 | f6 | f7) | o) & c == c,
        (f1 == 0 && f2 == 0 && f3 == 0 && f4 == 0 && f5 == 0 && f6 == 0 && f7 == 0 && o == 0) ==> ((0i32
            | f1 | f2 | f3 | f4 | f5 | f6 | f7) | o) == 0,
{
    assert((f1 & c == c || f2 & c == c || f3 & c == c || f4 & c == c || f5 & c == c || f6 & c == c
        || f7 & c == c || o & c == c) ==> ((0i32 | f1 | f2 | f3 | f4 | f5 | f6 | f7) | o) & c == c)
        by (bit_vector);
    assert((f1 == 0 && f2 == 0 && f3 == 0 && f4 == 0 && f5 == 0 && f6 == 0 && f7 == 0 && o == 0) ==> ((0i32
        | f1 | f2 | f3 | f4 | f5 | f6 | f7) | o) == 0) by (bit_vector);
}

/// A value has all of its own bits.
proof fn lemma_own_bits(c: i32)
    ensures
        c & c == c,
{
    assert(c & c == c) by (bit_vector);
}

/// The or of options has the bits of each option, and is zero when all
/// options are none.
proof fn lemma_options_or_bits(s: Seq<BuildOptions>)
    ensures
        forall|k: int| 0 <= k < s.len() ==> options_or(s) & option_value(#[trigger] s[k]) == option_value(s[k]),
        (forall|k: int| 0 <= k < s.len() ==> (#[trigger] s[k]) == BuildOptions::NoOptions) ==> options_or(s) == 0,
    decreases s.len(),
{
    if s.len() > 0 {
        let p = s.drop_last();
        lemma_options_or_bits(p);
        assert forall|k: int| 0 <= k < s.len() implies options_or(s) & option_value(#[trigger] s[k]) == option_value(s[k]) by {
            lemma_own_bits(option_value(s[k]));
            if k < p.len() {
                assert(p[k] == s[k]);
            }
            lemma_or_keeps_bits(options_or(p), option_value(s.last()), option_value(s[k]));
        }
        if forall|k: int| 0 <= k < s.len() ==> (#[trigger] s[k]) == BuildOptions::NoOptions {
            assert forall|k: int| 0 <= k < p.len() implies (#[trigger] p[k]) == BuildOptions::NoOptions by {
                assert(p[k] == s[k]);
            }
            assert(s.last() == s[s.len() - 1]);
            lemma_or_keeps_bits(options_or(p), option_value(s.last()), 0);
        }
    }
}

/// Setting one of the switches' flags to `c` in place of zero ors `c` into
/// the result.
proof fn lemma_flag_slots(f1: i32, f2: i32, f3: i32, f4: i32, f5: i32, f6: i32, f7: i32, o: i32, c: i32)
    ensures
        ((0i32 | c | f2 | f3 | f4 | f5 | f6 | f7) | o) == ((0i32 | 0i32 | f2 | f3 | f4 | f5 | f6 | f7) | o) | c,
        ((0i32 | f1 | c | f3 | f4 | f5 | f6 | f7) | o) == ((0i32 | f1 | 0i32 | f3 | f4 | f5 | f6 | f7) | o) | c,
        ((0i32 | f1 | f2 | c | f4 | f5 | f6 | f7) | o) == ((0i32 | f1 | f2 | 0i32 | f4 | f5 | f6 | f7) | o) | c,
        ((0i32 | f1 | f2 | f3 | c | f5 | f6 | f7) | o) == ((0i32 | f1 | f2 | f3 | 0i32 | f5 | f6 | f7) | o) | c,
        ((0i32 | f1 | f2 | f3 | f4 | c | f6 | f7) | o) == ((0i32 | f1 | f2 | f3 | f4 | 0i32 | f6 | f7) | o) | c,
        ((0i32 | f1 | f2 | f3 | f4 | f5 | c | f7) | o) == ((0i32 | f1 | f2 | f3 | f4 | f5 | 0i32 | f7) | o) | c,
        ((0i32 | f1 | f2 | f3 | f4 | f5 | f6 | c) | o) == ((0i32 | f1 | f2 | f3 | f4 | f5 | f6 | 0i32) | o) | c,
{
    assert(((0i32 | c | f2 | f3 | f4 | f5 | f6 | f7) | o) == ((0i32 | 0i32 | f2 | f3 | f4 | f5 | f6 | f7) | o) | c) by (bit_vector);
    assert(((0i32 | f1 | c | f3 | f4 | f5 | f6 | f7) | o) == ((0i32 | f1 | 0i32 | f3 | f4 | f5 | f6 | f7) | o) | c) by (bit_vector);
    assert(((0i32 | f1 | f2 | c | f4 | f5 | f6 | f7) | o) == ((0i32 | f1 | f2 | 0i32 | f4 | f5 | f6 | f7) | o) | c) by (bit_vector);
    assert(((0i32 | f1 | f2 | f3 | c | f5 | f6 | f7) | o) == ((0i32 | f1 | f2 | f3 | 0i32 | f5 | f6 | f7) | o) | c) by (bit_vector);
    assert(((0i32 | f1 | f2 | f3 | f4 | c | f6 | f7) | o) == ((0i32 | f1 | f2 | f3 | f4 | 0i32 | f6 | f7) | o) | c) by (bit_vector);
    assert(((0i32 | f1 | f2 | f3 | f4 | f5 | c | f7) | o) == ((0i32 | f1 | f2 | f3 | f4 | f5 | 0i32 | f7) | o) | c) by (bit_vector);
    assert(((0i32 | f1 | f2 | f3 | f4 | f5 | f6 | c) | o) == ((0i32 | f1 | f2 | f3 | f4 | f5 | f6 | 0i32) | o) | c) by (bit_vector);
}

/// Turning a shorthand switch on adds exactly its bit to the build's flags:
/// the flags with the switch on are those with it off, or-ed with the bit
/// of its counterpart among Unity's build options.
pub proof fn law_switch_adds_its_bit(a: BuildArguments)
    ensures
        option_flags(BuildArguments { run_player: true, ..a }) == option_flags(
            BuildArguments { run_player: false, ..a },
        ) | 4,
        option_flags(BuildArguments { development_build: true, ..a }) == option_flags(
            BuildArguments { development_build: false, ..a },
        ) | 1,
        option_flags(BuildArguments { show_built_player: true, ..a }) == option_flags(
            BuildArguments { show_built_player: false, ..a },
        ) | 8,
        option_flags(BuildArguments { allow_debugging: true, ..a }) == option_flags(
            BuildArguments { allow_debugging: false, ..a },
        ) | 512,
        option_flags(BuildArguments { connect_with_profiler: true, ..a }) == option_flags(
            BuildArguments { connect_with_profiler: false, ..a },
        ) | 256,
        option_flags(BuildArguments { deep_profiling: true, ..a }) == option_flags(
            BuildArguments { deep_profiling: false, ..a },
        ) | 0x10000000,
        option_flags(BuildArguments { connect_to_host: true, ..a }) == option_flags(
            BuildArguments { connect_to_host: false, ..a },
        ) | 0x1000,
{
    let f1 = flag_if(a.run_player, 4);
    let f2 = flag_if(a.development_build, 1);
    let f3 = flag_if(a.show_built_player, 8);
    let f4 = flag_if(a.allow_debugging, 512);
    let f5 = flag_if(a.connect_with_profiler, 256);
    let f6 = flag_if(a.deep_profiling, 268435456);
    let f7 = flag_if(a.connect_to_host, 4096);
    let o = options_or(a.build_options@);
    lemma_flag_slots(f1, f2, f3, f4, f5, f6, f7, o, 4);
    lemma_flag_slots(f1, f2, f3, f4, f5, f6, f7, o, 1);
    lemma_flag_slots(f1, f2, f3, f4, f5, f6, f7, o, 8);
    lemma_flag_slots(f1, f2, f3, f4, f5, f6, f7, o, 512);
    lemma_flag_slots(f1, f2, f3, f4, f5, f6, f7, o, 256);
    lemma_flag_slots(f1, f2, f3, f4, f5, f6, f7, o, 268435456);
    lemma_flag_slots(f1, f2, f3, f4, f5, f6, f7, o, 4096);
}

/// Each shorthand switch of a build sets the bit of its counterpart among
/// Unity's build options (run player 4, development 1, show built player 8,
/// allow debugging 512, connect with profiler 256, deep profiling
/// 0x10000000, connect to host 0x1000), each listed build option sets its
/// own bit, and a build with no switch and no option but "none" has no
/// flag at all.
pub proof fn law_build_flags_bits(a: BuildArguments)
    ensures
        option_value(BuildOptions::AutoRunPlayer) == 4,
        option_value(BuildOptions::Development) == 1,
        option_value(BuildOptions::ShowBuiltPlayer) == 8,
        option_value(BuildOptions::AllowDebugging) == 512,
        option_value(BuildOptions::ConnectWithProfiler) == 256,
        option_value(BuildOptions::EnableDeepProfilingSupport) == 0x10000000,
        option_value(BuildOptions::ConnectToHost) == 0x1000,
        option_value(BuildOptions::BuildScriptsOnly) == 0x8000,
        a.run_player ==> option_flags(a) & 4 == 4,
        a.development_build ==> option_flags(a) & 1 == 1,
        a.show_built_player ==> option_flags(a) & 8 == 8,
        a.allow_debugging ==> option_flags(a) & 512 == 512,
        a.connect_with_profiler ==> option_flags(a) & 256 == 256,
        a.deep_profiling ==> option_flags(a) & 0x10000000 == 0x10000000,
        a.connect_to_host ==> option_flags(a) & 0x1000 == 0x1000,
        forall|k: int|
            0 <= k < a.build_options@.len() ==> option_flags(a) & option_value(#[trigger] a.build_options@[k])
                == option_value(a.build_options@[k]),
        !a.run_player && !a.development_build && !a.show_built_player && !a.allow_debugging
            && !a.connect_with_profiler && !a.deep_profiling && !a.connect_to_host && (forall|k: int|
            0 <= k < a.build_options@.len() ==> (#[trigger] a.build_options@[k]) == BuildOptions::NoOptions)
            ==> option_flags(a) == 0,
{
    let f1 = flag_if(a.run_player, 4);
    let f2 = flag_if(a.development_build, 1);
    let f3 = flag_if(a.show_built_player, 8);
    let f4 = flag_if(a.allow_debugging, 512);
    let f5 = flag_if(a.connect_with_profiler, 256);
    let f6 = flag_if(a.deep_profiling, 268435456);
    let f7 = flag_if(a.connect_to_host, 4096);
    let o = options_or(a.build_options@);
    assert(option_flags(a) == (0i32 | f1 | f2 | f3 | f4 | f5 | f6 | f7) | o);
    lemma_options_or_bits(a.build_options@);
    lemma_own_bits(4);
    lemma_own_bits(1);
    lemma_own_bits(8);
    lemma_own_bits(512);
    lemma_own_bits(256);
    lemma_own_bits(268435456);
    lemma_own_bits(4096);
    lemma_flags_or(f1, f2, f3, f4, f5, f6, f7, o, 4);
    lemma_flags_or(f1, f2, f3, f4, f5, f6, f7, o, 1);
    lemma_flags_or(f1, f2, f3, f4, f5, f6, f7, o, 8);
    lemma_flags_or(f1, f2, f3, f4, f5, f6, f7, o, 512);
    lemma_flags_or(f1, f2, f3, f4, f5, f6, f7, o, 256);
    lemma_flags_or(f1, f2, f3, f4, f5, f6, f7, o, 268435456);
    lemma_flags_or(f1, f2, f3, f4, f5, f6, f7, o, 4096);
    assert forall|k: int| 0 <= k < a.build_options@.len() implies option_flags(a) & option_value(
        #[trigger] a.build_options@[k],
    ) == option_value(a.build_options@[k]) by {
        lemma_flags_or(f1, f2, f3, f4, f5, f6, f7, o, option_value(a.build_options@[k]));
    }
}

/// The flag values are non-negative, and so is any combination of them.
proof fn lemma_options_or_nonneg(s: Seq<BuildOptions>)
    ensures
        options_or(s) >= 0,
    decreases s.len(),
{
    if s.len() > 0 {
        lemma_options_or_nonneg(s.drop_last());
        lemma_or_nonneg(options_or(s.drop_last()), option_value(s.last()));
    }
}

impl BuildArguments {
    /// The build's log is echoed unless output is suppressed or the editor
    /// builds with its window open.
    pub fn show_log(&self) -> (r: bool)
        ensures
            r == (!self.quiet && (self.mode is Batch || self.mode is BatchNoGraphics)),
    {
        !self.quiet && (self.mode == BuildMode::Batch || self.mode == BuildMode::BatchNoGraphics)
    }

    /// The build option flags that the arguments ask for.
    pub fn build_option_flags(&self) -> (r: i32)
        ensures
            r == option_flags(*self),
            r >= 0,
    {
        let mut f: i32 = 0;
        f = f | (if self.run_player {
            4
        } else {
            0
        });
        f = f | (if self.development_build {
            1
        } else {
            0
        });
        f = f | (if self.show_built_player {
            8
        } else {
            0
        });
        f = f | (if self.allow_debugging {
            512
        } else {
            0
        });
        f = f | (if self.connect_with_profiler {
            256
        } else {
            0
        });
        f = f | (if self.deep_profiling {
            268435456
        } else {
            0
        });
        f = f | (if self.connect_to_host {
            4096
        } else {
            0
        });
        let mut list: i32 = 0;
        let mut i: usize = 0;
        while i < self.build_options.len()
            invariant
                i <= self.build_options@.len(),
                list == options_or(self.build_options@.subrange(0, i as int)),
            decreases self.build_options@.len() - i,
        {
            let o: BuildOptions = self.build_options[i];
            list = list | o.value();
            proof {
                let t = self.build_options@.subrange(0, i + 1);
                assert(t.drop_last() =~= self.build_options@.subrange(0, i as int));
            }
            i = i + 1;
        }
        proof {
            assert(self.build_options@.subrange(0, self.build_options@.len() as int)
                =~= self.build_options@);
            lemma_options_or_nonneg(self.build_options@);
            let f1 = flag_if(self.run_player, 4);
            let f2 = flag_if(self.development_build, 1);
            let f3 = flag_if(self.show_built_player, 8);
            let f4 = flag_if(self.allow_debugging, 512);
            let f5 = flag_if(self.connect_with_profiler, 256);
            let f6 = flag_if(self.deep_profiling, 268435456);
            let f7 = flag_if(self.connect_to_host, 4096);
            assert(f == 0i32 | f1 | f2 | f3 | f4 | f5 | f6 | f7);
            assert((0i32 | f1 | f2 | f3 | f4 | f5 | f6 | f7) >= 0) by (bit_vector)
                requires
                    f1 >= 0,
                    f2 >= 0,
                    f3 >= 0,
                    f4 >= 0,
                    f5 >= 0,
                    f6 >= 0,
                    f7 >= 0,
            ;
            lemma_or_nonneg(f, list);
        }
        f | list
    }

    /// The directory the build goes to when no build path is given,
    /// `<project>/Builds/<output type>/<target>`.
    pub fn default_output_dir(&self, project: &str, sep: char) -> (r: String)
        ensures
            r@ == default_output_dir(*self, project@, sep),
    {
        let builds = join_path(project, "Builds", sep);
        let typed = join_path(builds.as_str(), self.output_type.as_ref(), sep);
        join_path(typed.as_str(), self.target.as_ref(), sep)
    }

    /// The directory the build goes to: `absolute_build_path` is the build
    /// path the arguments give, made absolute; without one, the default
    /// `<project>/Builds/<output type>/<target>`. The project directory
    /// itself is refused.
    pub fn output_path(&self, project: &str, sep: char, absolute_build_path: Option<&str>) -> (r: Result<
        String,
        BuildPathError,
    >)
        ensures
            ({
                let d = output_dir_of(*self, project@, sep, match absolute_build_path {
                    Some(p) => Some(p@),
                    None => None,
                });
                match r {
                    Ok(o) => o@ == d && d != project@,
                    Err(e) => d == project@ && e == BuildPathError::OutputIsProject,
                }
            }),
    {
        let dir = match absolute_build_path {
            Some(p) => p.to_string(),
            None => self.default_output_dir(project, sep),
        };
        let dc = chars_of(dir.as_str());
        let pc = chars_of(project);
        if same_chars(dc.as_slice(), pc.as_slice()) {
            Err(BuildPathError::OutputIsProject)
        } else {
            Ok(dir)
        }
    }

    /// The log file the build writes, as given: the one the arguments name,
    /// or `Build-<target>.log`.
    pub fn log_file_name(&self) -> (r: String)
        ensures
            r@ == log_file_of(*self),
    {
        match &self.log_file {
            Some(f) => f.clone(),
            None => self.default_log_name(),
        }
    }

    /// Where the build log goes, before it is made absolute: a log file
    /// given as a bare file name goes to the project's `Logs` directory, any
    /// other path is taken as it is. `file_name` is the last component of
    /// the log file's path as the platform's path rules read it, `None` when
    /// the path names no file, which is an error.
    pub fn full_log_path(&self, project: &str, sep: char, file_name: Option<&str>) -> (r: Result<
        String,
        BuildPathError,
    >)
        ensures
            match file_name {
                None => r == Err::<String, BuildPathError>(BuildPathError::InvalidLogFileName),
                Some(n) => r matches Ok(p) && p@ == log_path_of(*self, project@, sep, n@),
            },
    {
        match file_name {
            None => Err(BuildPathError::InvalidLogFileName),
            Some(n) => {
                let log = self.log_file_name();
                let lc = chars_of(log.as_str());
                let nc = chars_of(n);
                if same_chars(nc.as_slice(), lc.as_slice()) {
                    let logs = join_path(project, "Logs", sep);
                    Ok(join_path(logs.as_str(), n, sep))
                } else {
                    Ok(log)
                }
            },
        }
    }

    /// The default name of the build's log file, `Build-<target>.log`.
    pub fn default_log_name(&self) -> (r: String)
        ensures
            r@ == default_log_name(*self),
    {
        let mut s = String::new();
        push_str(&mut s, "Build-");
        push_str(&mut s, self.target.as_ref());
        push_str(&mut s, ".log");
        s
    }

    /// The editor command line of the build: the project, the target and
    /// the log file, the build method with the output directory, the build
    /// script's target, the build options and pre-build arguments if any,
    /// the flags of the build mode and the extra arguments.
    pub fn create_cmd(&self, project: &str, editor_exe: &str, output_dir: &str, log_file: &str) -> (r:
        UnityCommandBuilder)
        ensures
            r@ == build_command(*self, project@, editor_exe@, output_dir@, log_file@),
    {
        let mut builder = UnityCommandBuilder::new(editor_exe.to_string()).with_project_path(
            project.to_string(),
        ).with_build_target(self.target.as_ref()).with_log_file(log_file.to_string()).add_arg(
            "-executeMethod".to_string(),
        ).add_arg(self.build_function.clone()).add_arg("--ucom-build-output".to_string()).add_arg(
            output_dir.to_string(),
        ).add_arg("--ucom-build-target".to_string()).add_arg(
            BuildScriptTarget::from(self.target).as_ref().to_string(),
        );
        let ghost base = builder@.additional_args;
        let build_options = self.build_option_flags();
        if build_options != 0 {
            let mut n = String::new();
            push_decimal(&mut n, build_options as u64);
            builder = builder.add_arg("--ucom-build-options".to_string()).add_arg(n);
        }
        let ghost with_opts = builder@.additional_args;
        match &self.build_args {
            Some(build_args) => {
                builder = builder.add_arg("--ucom-pre-build-args".to_string()).add_arg(
                    build_args.clone(),
                );
            },
            None => {},
        }
        let ghost with_pre = builder@.additional_args;
        match self.mode {
            BuildMode::BatchNoGraphics => {
                builder = builder.batch_mode(true).no_graphics(true).quit(true);
            },
            BuildMode::Batch => {
                builder = builder.batch_mode(true).quit(true);
            },
            BuildMode::EditorQuit => {
                builder = builder.quit(true);
            },
            BuildMode::Editor => {},
        }
        match &self.args {
            Some(a) => {
                let copied = copy_strings(a.as_slice());
                builder = builder.add_args(copied);
            },
            None => {},
        }
        proof {
            let a = *self;
            let opts = if option_flags(a) != 0 {
                seq!["--ucom-build-options"@, decimal(option_flags(a) as nat)]
            } else {
                Seq::<Seq<char>>::empty()
            };
            let pre = match a.build_args {
                Some(s) => seq!["--ucom-pre-build-args"@, s@],
                None => Seq::<Seq<char>>::empty(),
            };
            assert(with_opts =~= base + opts);
            assert(with_pre =~= base + opts + pre);
            assert(builder@.additional_args =~= build_extra_args(a, output_dir@));
        }
        builder
    }
}

// ---------------------------------------------------------------------------
// Test, open, new and run command lines
// ---------------------------------------------------------------------------

/// A test filter argument: the list in double quotes.
pub open spec fn quoted(s: Seq<char>) -> Seq<char> {
    "\""@ + s + "\""@
}

/// The additional arguments of a test run.
pub open spec fn test_extra_args(a: TestArguments, results: Seq<char>) -> Seq<Seq<char>> {
    let base = seq!["-runTests"@, "-testPlatform"@, test_target_name(a.platform)];
    let forget = if a.forget_project_path {
        seq!["-forgetProjectPath"@]
    } else {
        Seq::empty()
    };
    base + forget + test_filters(a) + seq!["-testResults"@, results] + extra_args(a.args)
}

/// The test filters of a test run: categories, test names and assemblies,
/// each after its option when given.
pub open spec fn test_filters(a: TestArguments) -> Seq<Seq<char>> {
    let cats = match a.categories {
        Some(s) => seq!["-testCategory"@, quoted(s@)],
        None => Seq::empty(),
    };
    let tests = match a.tests {
        Some(s) => seq!["-testFilter"@, quoted(s@)],
        None => Seq::empty(),
    };
    let asms = match a.assemblies {
        Some(s) => seq!["-assemblyNames"@, quoted(s@)],
        None => Seq::empty(),
    };
    cats + tests + asms
}

/// The command line of a test run. It runs in batch mode unless
/// `no_batch_mode` asks for the editor's graphics; the build target is the
/// one given, or the one the test platform implies.
pub open spec fn test_command(a: TestArguments, project: Seq<char>, editor: Seq<char>, results: Seq<char>) -> CommandSpec {
    CommandSpec {
        editor_path: editor,
        project_path: Some(project),
        build_target: Some(
            open_target_name(
                match a.target {
                    Some(t) => t,
                    None => build_target_for(a.platform),
                },
            ),
        ),
        batch_mode: !a.no_batch_mode,
        no_graphics: false,
        quit: false,
        log_file: None,
        additional_args: test_extra_args(a, results),
    }
}

/// `args` holds `option` immediately followed by `value`.
pub open spec fn has_option_value(args: Seq<Seq<char>>, option: Seq<char>, value: Seq<char>) -> bool {
    exists|k: int| 0 <= k && k + 1 < args.len() && #[trigger] args[k] == option && args[k + 1] == value
}

/// A test run's editor arguments pass each filter after its own option, in
/// double quotes: the test names after `-testFilter`, the categories after
/// `-testCategory` and the assemblies after `-assemblyNames`.
pub proof fn law_test_filters_options(a: TestArguments, project: Seq<char>, editor: Seq<char>, results: Seq<char>)
    ensures
        a.tests matches Some(t) ==> has_option_value(
            test_command(a, project, editor, results).additional_args,
            "-testFilter"@,
            "\""@ + t@ + "\""@,
        ),
        a.categories matches Some(c) ==> has_option_value(
            test_command(a, project, editor, results).additional_args,
            "-testCategory"@,
            "\""@ + c@ + "\""@,
        ),
        a.assemblies matches Some(n) ==> has_option_value(
            test_command(a, project, editor, results).additional_args,
            "-assemblyNames"@,
            "\""@ + n@ + "\""@,
        ),
{
    let args = test_command(a, project, editor, results).additional_args;
    let base = seq!["-runTests"@, "-testPlatform"@, test_target_name(a.platform)];
    let forget = if a.forget_project_path {
        seq!["-forgetProjectPath"@]
    } else {
        Seq::<Seq<char>>::empty()
    };
    let cats = match a.categories {
        Some(s) => seq!["-testCategory"@, quoted(s@)],
        None => Seq::<Seq<char>>::empty(),
    };
    let tests = match a.tests {
        Some(s) => seq!["-testFilter"@, quoted(s@)],
        None => Seq::<Seq<char>>::empty(),
    };
    let asms = match a.assemblies {
        Some(s) => seq!["-assemblyNames"@, quoted(s@)],
        None => Seq::<Seq<char>>::empty(),
    };
    let rest = seq!["-testResults"@, results] + extra_args(a.args);
    assert(args =~= base + forget + cats + tests + asms + rest);
    let start: int = (base.len() + forget.len()) as int;
    let nc: int = cats.len() as int;
    let nt: int = tests.len() as int;
    if let Some(c) = a.categories {
        assert(args[start] == cats[0] && args[start + 1] == cats[1]);
    }
    if let Some(t) = a.tests {
        assert(args[start + nc] == tests[0] && args[start + nc + 1] == tests[1]);
    }
    if let Some(n) = a.assemblies {
        assert(args[start + nc + nt] == asms[0] && args[start + nc + nt + 1] == asms[1]);
    }
}

/// The characters of `s` in double quotes.
fn quote(s: &str) -> (r: String)
    ensures
        r@ == quoted(s@),
{
    let mut q = String::new();
    push_str(&mut q, "\"");
    push_str(&mut q, s);
    push_str(&mut q, "\"");
    q
}

impl TestArguments {
    /// The test filter arguments of the run.
    pub fn filter_args(&self) -> (r: Vec<String>)
        ensures
            strings_view(r@) == test_filters(*self),
    {
        let mut out: Vec<String> = Vec::new();
        match &self.categories {
            Some(s) => {
                out.push("-testCategory".to_string());
                out.push(quote(s.as_str()));
            },
            None => {},
        }
        let ghost s1 = strings_view(out@);
        match &self.tests {
            Some(s) => {
                out.push("-testFilter".to_string());
                out.push(quote(s.as_str()));
            },
            None => {},
        }
        let ghost s2 = strings_view(out@);
        match &self.assemblies {
            Some(s) => {
                out.push("-assemblyNames".to_string());
                out.push(quote(s.as_str()));
            },
            None => {},
        }
        proof {
            let a = *self;
            let cats = match a.categories {
                Some(s) => seq!["-testCategory"@, quoted(s@)],
                None => Seq::<Seq<char>>::empty(),
            };
            let tests = match a.tests {
                Some(s) => seq!["-testFilter"@, quoted(s@)],
                None => Seq::<Seq<char>>::empty(),
            };
            assert(s1 =~= cats);
            assert(s2 =~= cats + tests);
            assert(strings_view(out@) =~= test_filters(a));
        }
        out
    }

    /// The editor command line of the test run, which writes its results to
    /// the given file.
    pub fn build_cmd(&self, project: &str, editor_exe: &str, output_path: &str) -> (r:
        UnityCommandBuilder)
        ensures
            r@ == test_command(*self, project@, editor_exe@, output_path@),
            r@.batch_mode == !self.no_batch_mode,
    {
        let mut builder = UnityCommandBuilder::new(editor_exe.to_string()).with_project_path(
            project.to_string(),
        ).add_arg("-runTests".to_string()).add_arg("-testPlatform".to_string()).add_arg(
            self.platform.as_ref().to_string(),
        ).batch_mode(!self.no_batch_mode);
        let ghost base = builder@.additional_args;
        match self.target {
            Some(target) => {
                builder = builder.with_build_target(target.as_ref());
            },
            None => {
                builder = builder.with_build_target(self.platform.as_build_target().as_ref());
            },
        }
        if self.forget_project_path {
            builder = builder.add_arg("-forgetProjectPath".to_string());
        }
        let ghost s1 = builder@.additional_args;
        builder = builder.add_args(self.filter_args());
        let ghost s4 = builder@.additional_args;
        builder = builder.add_arg("-testResults".to_string()).add_arg(output_path.to_string());
        let ghost s5 = builder@.additional_args;
        match &self.args {
            Some(a) => {
                let copied = copy_strings(a.as_slice());
                builder = builder.add_args(copied);
            },
            None => {},
        }
        proof {
            let a = *self;
            let forget = if a.forget_project_path {
                seq!["-forgetProjectPath"@]
            } else {
                Seq::<Seq<char>>::empty()
            };
            assert(s1 =~= base + forget);
            assert(s4 =~= base + forget + test_filters(a));
            assert(s5 =~= base + forget + test_filters(a) + seq![
                "-testResults"@,
                output_path@,
            ]);
            assert(builder@.additional_args =~= test_extra_args(a, output_path@));
        }
        builder
    }
}

/// The arguments of opening a project: the project, the build target if one
/// is given, the quit flag, then the extra arguments.
pub open spec fn open_args(a: OpenArguments, project: Seq<char>) -> Seq<Seq<char>> {
    let target = match a.target {
        Some(t) => seq!["-buildTarget"@, open_target_name(t)],
        None => Seq::empty(),
    };
    let quit = if a.quit {
        seq!["-quit"@]
    } else {
        Seq::empty()
    };
    seq!["-projectPath"@, project] + target + quit + extra_args(a.args)
}

/// The version pattern that selects the editor to open a project with:
/// none keeps the project's version; an upgrade without a version takes the
/// latest of the project's `major.minor` series.
pub open spec fn open_pattern(a: OpenArguments, project_version: UnityVersion) -> Option<
    Seq<char>,
> {
    match a.upgrade_version {
        Some(Some(p)) => Some(p@),
        Some(None) => Some(minor_partial_chars(project_version)),
        None => None,
    }
}

impl OpenArguments {
    /// The editor arguments that open the project.
    pub fn command_args(&self, project: &str) -> (r: Vec<String>)
        ensures
            strings_view(r@) == open_args(*self, project@),
    {
        let mut out: Vec<String> = Vec::new();
        out.push("-projectPath".to_string());
        out.push(project.to_string());
        match self.target {
            Some(t) => {
                out.push("-buildTarget".to_string());
                out.push(t.as_ref().to_string());
            },
            None => {},
        }
        if self.quit {
            out.push("-quit".to_string());
        }
        let ghost fixed = strings_view(out@);
        match &self.args {
            Some(a) => append_strings(&mut out, a.as_slice()),
            None => {},
        }
        proof {
            let a = *self;
            let target = match a.target {
                Some(t) => seq!["-buildTarget"@, open_target_name(t)],
                None => Seq::<Seq<char>>::empty(),
            };
            let quit = if a.quit {
                seq!["-quit"@]
            } else {
                Seq::<Seq<char>>::empty()
            };
            assert(fixed =~= seq!["-projectPath"@, project@] + target + quit);
            assert(strings_view(out@) =~= open_args(a, project@));
        }
        out
    }

    /// The version pattern that selects the editor to open the project with,
    /// or `None` to keep the project's version.
    pub fn version_pattern(&self, project_version: UnityVersion) -> (r: Option<String>)
        ensures
            opt_view(r) == open_pattern(*self, project_version),
    {
        match &self.upgrade_version {
            Some(Some(p)) => Some(p.clone()),
            Some(None) => Some(project_version.minor_partial()),
            None => None,
        }
    }
}

/// The arguments of creating a project: the new directory, the extra
/// arguments, then the quit flag and the build target if one is given.
pub open spec fn new_args(a: NewArguments, project_dir: Seq<char>) -> Seq<Seq<char>> {
    let quit = if a.quit {
        seq!["-quit"@]
    } else {
        Seq::empty()
    };
    let target = match a.target {
        Some(t) => seq!["-buildTarget"@, open_target_name(t)],
        None => Seq::empty(),
    };
    seq!["-createProject"@, project_dir] + extra_args(a.args) + quit + target
}

impl NewArguments {
    /// The editor arguments that create the project in the given directory.
    pub fn command_args(&self, project_dir: &str) -> (r: Vec<String>)
        ensures
            strings_view(r@) == new_args(*self, project_dir@),
    {
        let mut out: Vec<String> = Vec::new();
        out.push("-createProject".to_string());
        out.push(project_dir.to_string());
        let ghost s0 = strings_view(out@);
        match &self.args {
            Some(a) => append_strings(&mut out, a.as_slice()),
            None => {},
        }
        let ghost s1 = strings_view(out@);
        if self.quit {
            out.push("-quit".to_string());
        }
        let ghost s2 = strings_view(out@);
        match self.target {
            Some(t) => {
                out.push("-buildTarget".to_string());
                out.push(t.as_ref().to_string());
            },
            None => {},
        }
        proof {
            let a = *self;
            let quit = if a.quit {
                seq!["-quit"@]
            } else {
                Seq::<Seq<char>>::empty()
            };
            let target = match a.target {
                Some(t) => seq!["-buildTarget"@, open_target_name(t)],
                None => Seq::<Seq<char>>::empty(),
            };
            assert(s0 =~= seq!["-createProject"@, project_dir@]);
            assert(s2 =~= s1 + quit);
            assert(strings_view(out@) =~= new_args(a, project_dir@));
        }
        out
    }
}

impl RunArguments {
    /// The editor arguments of the run: the extra arguments as given.
    pub fn command_args(&self) -> (r: Vec<String>)
        ensures
            strings_view(r@) == extra_args(self.args),
    {
        match &self.args {
            Some(a) => copy_strings(a.as_slice()),
            None => {
                let v: Vec<String> = Vec::new();
                assert(strings_view(v@) =~= Seq::empty());
                v
            },
        }
    }
}

// ---------------------------------------------------------------------------
// The build log
// ---------------------------------------------------------------------------

/// The directories that Unity writes next to a player and that are not to
/// be shipped.
pub open spec fn is_disposable_dir(path: Seq<char>) -> bool {
    ends_with_seq(path, "_BurstDebugInformation_DoNotShip"@) || ends_with_seq(
        path,
        "_BackUpThisFolder_ButDontShipItWithYourGame"@,
    )
}

/// `s` ends with `pat`.
pub open spec fn ends_with_seq(s: Seq<char>, pat: Seq<char>) -> bool {
    pat.len() <= s.len() && s.subrange(s.len() - pat.len(), s.len() as int) == pat
}

/// Whether `s` ends with `pat`.
fn ends_with(s: &[char], pat: &[char]) -> (r: bool)
    ensures
        r == ends_with_seq(s@, pat@),
{
    if pat.len() > s.len() {
        return false;
    }
    let start = s.len() - pat.len();
    let tail = crate::text::slice_of(s, start, s.len());
    crate::version::same_chars(tail.as_slice(), pat)
}

/// Returns whether a directory in the build output is one that cleaning
/// removes.
pub fn is_removable_output_dir(path: &str) -> (r: bool)
    ensures
        r == is_disposable_dir(path@),
{
    let pc = chars_of(path);
    let a = chars_of("_BurstDebugInformation_DoNotShip");
    let b = chars_of("_BackUpThisFolder_ButDontShipItWithYourGame");
    ends_with(pc.as_slice(), a.as_slice()) || ends_with(pc.as_slice(), b.as_slice())
}

/// The texts that mark a line of the build log as an error.
pub open spec fn error_markers() -> Seq<Seq<char>> {
    seq![
        "[Builder] Error:"@,
        "error CS"@,
        "Fatal Error"@,
        "Error building Player"@,
        "error:"@,
        "BuildFailedException:"@,
        "System.Exception:"@,
    ]
}

/// A line of the build log reports an error.
pub open spec fn is_error_line(line: Seq<char>) -> bool {
    exists|k: int| 0 <= k < error_markers().len() && contains_seq(line, #[trigger] error_markers()[k])
}

/// Returns true if the given line is an error.
pub fn line_contains_error(line: &str) -> (r: bool)
    ensures
        r == is_error_line(line@),
{
    let lc = chars_of(line);
    let markers = [
        "[Builder] Error:",
        "error CS",
        "Fatal Error",
        "Error building Player",
        "error:",
        "BuildFailedException:",
        "System.Exception:",
    ];
    let mut k: usize = 0;
    while k < 7
        invariant
            k <= 7,
            markers@.len() == 7,
            forall|j: int| 0 <= j < 7 ==> (#[trigger] markers@[j])@ == error_markers()[j],
            forall|j: int| 0 <= j < k ==> !contains_seq(lc@, #[trigger] error_markers()[j]),
            lc@ == line@,
        decreases 7 - k,
    {
        let m = chars_of(markers[k]);
        if contains(lc.as_slice(), m.as_slice()) {
            return true;
        }
        k = k + 1;
    }
    false
}

/// A line of the build log reports an error by the stricter rule: it
/// starts with one of the error markers, or holds a C# compiler error.
pub open spec fn is_log_error_line(line: Seq<char>) -> bool {
    ||| starts_with_seq(line, "[Builder] Error:"@)
    ||| contains_seq(line, "error CS"@)
    ||| starts_with_seq(line, "Fatal Error"@)
    ||| starts_with_seq(line, "Error building Player"@)
    ||| starts_with_seq(line, "error:"@)
    ||| starts_with_seq(line, "BuildFailedException:"@)
}

/// Returns true if the line of the build log reports an error.
pub fn is_log_error(line: &str) -> (r: bool)
    ensures
        r == is_log_error_line(line@),
{
    let lc = chars_of(line);
    let l = lc.as_slice();
    starts_with(l, chars_of("[Builder] Error:").as_slice()) || contains(
        l,
        chars_of("error CS").as_slice(),
    ) || starts_with(l, chars_of("Fatal Error").as_slice()) || starts_with(
        l,
        chars_of("Error building Player").as_slice(),
    ) || starts_with(l, chars_of("error:").as_slice()) || starts_with(
        l,
        chars_of("BuildFailedException:").as_slice(),
    )
}

/// The lines of `s` without repeats: each line where it first occurs.
pub open spec fn unique_lines(s: Seq<Seq<char>>) -> Seq<Seq<char>>
    decreases s.len(),
{
    if s.len() == 0 {
        Seq::empty()
    } else {
        let u = unique_lines(s.drop_last());
        if u.contains(s.last()) {
            u
        } else {
            u.push(s.last())
        }
    }
}

/// The error lines of the log, without repeats, in order.
pub open spec fn log_errors(lines: Seq<Seq<char>>) -> Seq<Seq<char>> {
    unique_lines(lines.filter(|l: Seq<char>| is_error_line(l)))
}

/// The numbered list `1: e1`, `2: e2`, ... of the errors, one per line.
pub open spec fn numbered(e: Seq<Seq<char>>) -> Seq<char>
    decreases e.len(),
{
    if e.len() == 0 {
        Seq::empty()
    } else if e.len() == 1 {
        decimal(1) + ": "@ + e[0]
    } else {
        numbered(e.drop_last()) + "\n"@ + decimal(e.len()) + ": "@ + e.last()
    }
}

/// The message that reports the errors of a failed build.
pub open spec fn errors_message(e: Seq<Seq<char>>) -> Seq<char> {
    if e.len() == 0 {
        "No errors found in log"@
    } else if e.len() == 1 {
        e[0]
    } else {
        numbered(e)
    }
}

/// Whether one of the strings equals `s`.
fn contains_string(v: &[String], s: &String) -> (b: bool)
    ensures
        b == strings_view(v@).contains(s@),
{
    let mut j: usize = 0;
    while j < v.len()
        invariant
            j <= v@.len(),
            forall|k: int| 0 <= k < j ==> v@[k]@ != s@,
        decreases v@.len() - j,
    {
        if v[j] == *s {
            assert(strings_view(v@)[j as int] == s@);
            return true;
        }
        j = j + 1;
    }
    assert(!strings_view(v@).contains(s@)) by {
        if strings_view(v@).contains(s@) {
            let k = choose|k: int| 0 <= k < v@.len() && strings_view(v@)[k] == s@;
            assert(v@[k]@ == s@);
        }
    }
    false
}

/// Returns the message that reports the errors in the lines of a build
/// log: each error line once, numbered when there are several.
pub fn collect_log_errors(lines: &[String]) -> (r: String)
    ensures
        r@ == errors_message(log_errors(strings_view(lines@))),
{
    let ghost sv = strings_view(lines@);
    let ghost pred = |l: Seq<char>| is_error_line(l);
    let mut errors: Vec<String> = Vec::new();
    let mut i: usize = 0;
    while i < lines.len()
        invariant
            i <= lines@.len(),
            sv == strings_view(lines@),
            pred == (|l: Seq<char>| is_error_line(l)),
            strings_view(errors@) == unique_lines(sv.subrange(0, i as int).filter(pred)),
        decreases lines@.len() - i,
    {
        let line = lines[i].as_str();
        let ghost u = strings_view(errors@);
        proof {
            assert(sv.subrange(0, i + 1) =~= sv.subrange(0, i as int).push(sv[i as int]));
            sv.subrange(0, i as int).lemma_filter_push(sv[i as int], pred);
            assert(sv[i as int] == line@);
            let t = sv.subrange(0, i as int).push(sv[i as int]);
            assert(t.filter(pred).len() > 0 ==> t.filter(pred).drop_last() =~= t.filter(
                pred,
            ).drop_last());
        }
        if line_contains_error(line) {
            if !contains_string(errors.as_slice(), &lines[i]) {
                errors.push(lines[i].clone());
                proof {
                    assert(strings_view(errors@) =~= u.push(line@));
                    let f = sv.subrange(0, i as int).filter(pred);
                    assert(f.push(line@).drop_last() =~= f);
                }
            } else {
                proof {
                    let f = sv.subrange(0, i as int).filter(pred);
                    assert(f.push(line@).drop_last() =~= f);
                }
            }
        }
        i = i + 1;
    }
    proof {
        assert(sv.subrange(0, lines@.len() as int) =~= sv);
    }
    let n = errors.len();
    if n == 0 {
        "No errors found in log".to_string()
    } else if n == 1 {
        errors[0].clone()
    } else {
        let mut msg = String::new();
        let mut k: usize = 0;
        while k < n
            invariant
                n == errors@.len(),
                n > 1,
                k <= n,
                k == 0 ==> msg@ == Seq::<char>::empty(),
                k > 0 ==> msg@ == numbered(strings_view(errors@).subrange(0, k as int)),
            decreases n - k,
        {
            if k > 0 {
                push_str(&mut msg, "\n");
            }
            push_decimal(&mut msg, (k + 1) as u64);
            push_str(&mut msg, ": ");
            push_str(&mut msg, errors[k].as_str());
            proof {
                let t = strings_view(errors@).subrange(0, k + 1);
                assert(t.drop_last() =~= strings_view(errors@).subrange(0, k as int));
                if k == 0 {
                    assert(t[0] == errors@[0]@);
                }
            }
            k = k + 1;
        }
        proof {
            assert(strings_view(errors@).subrange(0, n as int) =~= strings_view(errors@));
        }
        msg
    }
}

/// An entry of the build report: a `key: value` line, split and trimmed, or
/// another line as it is.
pub enum ReportEntry {
    KeyValue(String, String),
    Line(String),
}

/// The line that starts the build report in the log.
pub open spec fn report_marker() -> Seq<char> {
    "[Builder] Build Report"@
}

/// The lines of the build report: those after the first line that starts
/// with the marker, up to the first empty line.
pub open spec fn report_lines(lines: Seq<Seq<char>>) -> Seq<Seq<char>> {
    if exists|i: int| 0 <= i < lines.len() && starts_with_seq(lines[i], report_marker()) {
        let m = choose|i: int|
            0 <= i < lines.len() && starts_with_seq(lines[i], report_marker()) && forall|j: int|
                0 <= j < i ==> !starts_with_seq(#[trigger] lines[j], report_marker());
        let rest = lines.subrange(m + 1, lines.len() as int);
        if exists|e: int| 0 <= e < rest.len() && rest[e].len() == 0 {
            let e = choose|e: int|
                0 <= e < rest.len() && rest[e].len() == 0 && forall|j: int|
                    0 <= j < e ==> (#[trigger] rest[j]).len() != 0;
            rest.subrange(0, e)
        } else {
            rest
        }
    } else {
        Seq::empty()
    }
}

/// The entry as plain values.
pub open spec fn entry_view(e: ReportEntry) -> (Option<(Seq<char>, Seq<char>)>, Seq<char>) {
    match e {
        ReportEntry::KeyValue(k, v) => (Some((k@, v@)), Seq::empty()),
        ReportEntry::Line(l) => (None, l@),
    }
}

/// The entry of a report line.
pub open spec fn expected_entry(line: Seq<char>) -> (Option<(Seq<char>, Seq<char>)>, Seq<char>) {
    match split_once_seq(line, seq![':']) {
        Some((k, v)) => (Some((trim(k), trim(v))), Seq::empty()),
        None => (None, line),
    }
}

/// The index of the first line that starts with the report marker.
fn find_report_marker(lines: &[String]) -> (r: Option<usize>)
    ensures
        match r {
            Some(m) => m < lines@.len() && starts_with_seq(strings_view(lines@)[m as int], report_marker())
                && forall|j: int| 0 <= j < m ==> !starts_with_seq(#[trigger] strings_view(lines@)[j], report_marker()),
            None => forall|j: int| 0 <= j < lines@.len() ==> !starts_with_seq(#[trigger] strings_view(lines@)[j], report_marker()),
        },
{
    let marker = chars_of("[Builder] Build Report");
    let n = lines.len();
    let mut m: usize = 0;
    while m < n
        invariant
            n == lines@.len(),
            marker@ == report_marker(),
            m <= n,
            forall|j: int| 0 <= j < m ==> !starts_with_seq(#[trigger] strings_view(lines@)[j], report_marker()),
        decreases n - m,
    {
        let lc = chars_of(lines[m].as_str());
        if starts_with(lc.as_slice(), marker.as_slice()) {
            assert(strings_view(lines@)[m as int] == lc@);
            return Some(m);
        }
        assert(strings_view(lines@)[m as int] == lc@);
        m = m + 1;
    }
    None
}

/// Returns the entries of the build report in the lines of a build log.
pub fn build_report_entries(lines: &[String]) -> (r: Vec<ReportEntry>)
    ensures
        r@.len() == report_lines(strings_view(lines@)).len(),
        forall|k: int|
            0 <= k < r@.len() ==> entry_view(#[trigger] r@[k]) == expected_entry(
                report_lines(strings_view(lines@))[k],
            ),
{
    let ghost sv = strings_view(lines@);
    let n = lines.len();
    let mut out: Vec<ReportEntry> = Vec::new();
    let m = match find_report_marker(lines) {
        Some(m) => m,
        None => {
            proof {
                assert(!(exists|i: int| 0 <= i < sv.len() && starts_with_seq(sv[i], report_marker())));
            }
            return out;
        },
    };
    let ghost start: int = m + 1;
    let ghost rest = sv.subrange(start, sv.len() as int);
    let mut i: usize = m + 1;
    while i < n && lines[i].as_str().unicode_len() > 0
        invariant
            n == lines@.len(),
            sv == strings_view(lines@),
            start <= i <= n,
            start == m + 1,
            m < n,
            sv.len() == n,
            rest == sv.subrange(start, sv.len() as int),
            forall|j: int| start <= j < i ==> (#[trigger] sv[j]).len() != 0,
            out@.len() == i - start,
            forall|k: int|
                0 <= k < out@.len() ==> entry_view(#[trigger] out@[k]) == expected_entry(
                    rest[k],
                ),
        decreases n - i,
    {
        let lc = chars_of(lines[i].as_str());
        let entry = match split_once_char(lc.as_slice(), ':') {
            Some((k, v)) => {
                let kt = trim_chars(k.as_slice());
                let vt = trim_chars(v.as_slice());
                ReportEntry::KeyValue(string_of(kt.as_slice()), string_of(vt.as_slice()))
            },
            None => ReportEntry::Line(lines[i].clone()),
        };
        out.push(entry);
        proof {
            assert(rest[i - start] == sv[i as int]);
            assert(sv[i as int] == lines@[i as int]@);
        }
        i = i + 1;
    }
    proof {
        let mm = choose|x: int|
            0 <= x < sv.len() && starts_with_seq(sv[x], report_marker()) && forall|j: int|
                0 <= j < x ==> !starts_with_seq(#[trigger] sv[j], report_marker());
        assert(0 <= m < sv.len() && starts_with_seq(sv[m as int], report_marker()) && forall|
            j: int,
        | 0 <= j < m ==> !starts_with_seq(#[trigger] sv[j], report_marker()));
        if mm < m {
        } else if mm > m {
        }
        assert(mm == m);
        if i < n {
            assert(rest[i - start].len() == 0);
            let ee = choose|e: int|
                0 <= e < rest.len() && rest[e].len() == 0 && forall|j: int|
                    0 <= j < e ==> (#[trigger] rest[j]).len() != 0;
            assert(forall|j: int| 0 <= j < i - start ==> (#[trigger] rest[j]).len() != 0) by {
                assert forall|j: int| 0 <= j < i - start implies (#[trigger] rest[j]).len() != 0 by {
                    assert(rest[j] == sv[start + j]);
                }
            }
            if ee < i - start {
            } else if ee > i - start {
            }
            assert(ee == i - start);
        } else {
            assert forall|e: int| 0 <= e < rest.len() implies rest[e].len() != 0 by {
                assert(rest[e] == sv[start + e]);
            }
        }
    }
    out
}

/// The error lines reported for a failed build hold each error line of the
/// log once: no line twice, and every error line of the log among them.
pub proof fn law_unique_lines(s: Seq<Seq<char>>)
    ensures
        forall|i: int, j: int|
            0 <= i < j < unique_lines(s).len() ==> #[trigger] unique_lines(s)[i]
                != #[trigger] unique_lines(s)[j],
        forall|x: Seq<char>| s.contains(x) <==> #[trigger] unique_lines(s).contains(x),
    decreases s.len(),
{
    if s.len() > 0 {
        law_unique_lines(s.drop_last());
        let u = unique_lines(s.drop_last());
        let x = s.last();
        let d = s.drop_last();
        assert(s =~= d.push(x));
        assert forall|y: Seq<char>| s.contains(y) <==> #[trigger] unique_lines(s).contains(y) by {
            broadcast use vstd::seq_lib::group_seq_properties;

            assert(d.push(x).contains(y) <==> (d.contains(y) || y == x));
            assert(u.push(x).contains(y) <==> (u.contains(y) || y == x));
            assert(d.contains(y) <==> u.contains(y));
        }
    }
}

} // verus!
