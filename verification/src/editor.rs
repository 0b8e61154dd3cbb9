//! Where the Unity editors are installed on each platform, and whether the
//! editor has a project open, judged from the command lines of the running
//! processes.

use crate::command::Platform;
use crate::project::ProjectPath;
use crate::text::{chars_of, contains, contains_seq};
use vstd::prelude::*;

verus! {

/// The path of the editor executable inside a version's installation
/// directory; the tool supports macOS and Windows only.
pub open spec fn editor_exe_sub_path_of(platform: Platform) -> Option<Seq<char>> {
    match platform {
        Platform::MacOs => Some("Unity.app/Contents/MacOS/Unity"@),
        Platform::Windows => Some("Editor\\Unity.exe"@),
        Platform::Other => None,
    }
}

/// The directory Unity Hub installs the editors in.
pub open spec fn default_editor_dir_of(platform: Platform) -> Option<Seq<char>> {
    match platform {
        Platform::MacOs => Some("/Applications/Unity/Hub/Editor/"@),
        Platform::Windows => Some("C:\\Program Files\\Unity\\Hub\\Editor"@),
        Platform::Other => None,
    }
}

/// Returns the path of the editor executable inside a version's
/// installation directory, or `None` on a platform the tool does not
/// support.
pub fn editor_exe_sub_path(platform: Platform) -> (r: Option<&'static str>)
    ensures
        match r {
            Some(p) => editor_exe_sub_path_of(platform) == Some(p@),
            None => editor_exe_sub_path_of(platform) is None,
        },
{
    match platform {
        Platform::MacOs => Some("Unity.app/Contents/MacOS/Unity"),
        Platform::Windows => Some("Editor\\Unity.exe"),
        Platform::Other => None,
    }
}

/// Returns the directory Unity Hub installs the editors in, or `None` on a
/// platform the tool does not support.
pub fn default_editor_dir(platform: Platform) -> (r: Option<&'static str>)
    ensures
        match r {
            Some(p) => default_editor_dir_of(platform) == Some(p@),
            None => default_editor_dir_of(platform) is None,
        },
{
    match platform {
        Platform::MacOs => Some("/Applications/Unity/Hub/Editor/"),
        Platform::Windows => Some("C:\\Program Files\\Unity\\Hub\\Editor"),
        Platform::Other => None,
    }
}

/// A process command line shows an editor that has the project open: it
/// names the project after `-projectPath` (or `-projectpath`, as Unity Hub
/// writes it), and on macOS it is a Unity process.
pub open spec fn opens_project(line: Seq<char>, project: Seq<char>, platform: Platform) -> bool {
    &&& (platform is MacOs ==> contains_seq(line, "Unity"@))
    &&& (contains_seq(line, "-projectPath"@) || contains_seq(line, "-projectpath"@))
    &&& contains_seq(line, project)
}

/// Returns whether one of the process command lines shows a Unity editor
/// with the project open. Only macOS and Windows are looked at.
pub fn is_unity_editor_running(project: &ProjectPath, process_lines: &[String], platform: Platform) -> (r:
    bool)
    ensures
        r == (!(platform is Other) && exists|i: int|
            0 <= i < process_lines@.len() && opens_project(
                (#[trigger] process_lines@[i])@,
                project.path(),
                platform,
            )),
{
    if platform == Platform::Other {
        return false;
    }
    let pc = chars_of(project.as_str());
    let unity = chars_of("Unity");
    let upper = chars_of("-projectPath");
    let lower = chars_of("-projectpath");
    let mut i: usize = 0;
    while i < process_lines.len()
        invariant
            i <= process_lines@.len(),
            !(platform is Other),
            pc@ == project.path(),
            unity@ == "Unity"@,
            upper@ == "-projectPath"@,
            lower@ == "-projectpath"@,
            forall|j: int|
                0 <= j < i ==> !opens_project(
                    (#[trigger] process_lines@[j])@,
                    project.path(),
                    platform,
                ),
        decreases process_lines@.len() - i,
    {
        let lc = chars_of(process_lines[i].as_str());
        let named = platform != Platform::MacOs || contains(lc.as_slice(), unity.as_slice());
        let opened = contains(lc.as_slice(), upper.as_slice()) || contains(
            lc.as_slice(),
            lower.as_slice(),
        );
        if named && opened && contains(lc.as_slice(), pc.as_slice()) {
            return true;
        }
        i = i + 1;
    }
    false
}

} // verus!
