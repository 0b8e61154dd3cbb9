//! The Markdown reports of the `updates` and `info` commands: the status of
//! a project's editor, the project's updates and the release notes of each.
//! The release notes themselves are downloaded by the caller and handed in.

use crate::command::strings_view;
use crate::listing::{format_release_date, release_date_chars};
use crate::project::ProjectSettings;
use crate::releases::{notes_url_chars, release_notes_url, ReleaseData, ReleaseUpdates};
use crate::text::{push_char, push_str};
use crate::version::version_chars;
use vstd::prelude::*;

verus! {

// ---------------------------------------------------------------------------
// Markdown
// ---------------------------------------------------------------------------

/// A first-level header line.
pub open spec fn md_h1(text: Seq<char>) -> Seq<char> {
    "# "@ + text + "\n"@
}

/// A second-level header line.
pub open spec fn md_h2(text: Seq<char>) -> Seq<char> {
    "## "@ + text + "\n"@
}

/// A list item line.
pub open spec fn md_item(text: Seq<char>) -> Seq<char> {
    "- "@ + text + "\n"@
}

/// A list item line that starts with a marker.
pub open spec fn md_marked(mark: char, text: Seq<char>) -> Seq<char> {
    "- "@ + seq![mark] + " "@ + text + "\n"@
}

/// A paragraph line.
pub open spec fn md_paragraph(text: Seq<char>) -> Seq<char> {
    text + "\n"@
}

/// Returns a first-level header line.
pub fn markdown_h1(text: &str) -> (r: String)
    ensures
        r@ == md_h1(text@),
{
    let mut s = String::new();
    push_str(&mut s, "# ");
    push_str(&mut s, text);
    push_str(&mut s, "\n");
    s
}

/// Returns a second-level header line.
pub fn markdown_h2(text: &str) -> (r: String)
    ensures
        r@ == md_h2(text@),
{
    let mut s = String::new();
    push_str(&mut s, "## ");
    push_str(&mut s, text);
    push_str(&mut s, "\n");
    s
}

/// Returns a list item line.
pub fn markdown_item(text: &str) -> (r: String)
    ensures
        r@ == md_item(text@),
{
    let mut s = String::new();
    push_str(&mut s, "- ");
    push_str(&mut s, text);
    push_str(&mut s, "\n");
    s
}

/// Returns a list item line that starts with a marker.
pub fn markdown_marked(mark: char, text: &str) -> (r: String)
    ensures
        r@ == md_marked(mark, text@),
{
    let mut s = String::new();
    push_str(&mut s, "- ");
    push_char(&mut s, mark);
    push_str(&mut s, " ");
    push_str(&mut s, text);
    push_str(&mut s, "\n");
    proof {
        assert(s@ =~= md_marked(mark, text@));
    }
    s
}

// ---------------------------------------------------------------------------
// The report file
// ---------------------------------------------------------------------------

/// Why a path cannot take a report.
#[derive(Debug, PartialEq, Eq, Structural, Clone, Copy)]
pub enum ReportPathError {
    /// The path is a directory.
    IsDirectory,
    /// The file name does not have the `md` extension.
    NotMarkdown,
}

/// Checks the path a report is written to, given whether it is a directory
/// and its extension: it must be a file with the `md` extension.
pub fn validate_report_path(is_dir: bool, extension: Option<&str>) -> (r: Result<(), ReportPathError>)
    ensures
        (r is Ok) <==> (!is_dir && (extension matches Some(e) && e@ == "md"@)),
        r matches Err(e) ==> e == (if is_dir {
            ReportPathError::IsDirectory
        } else {
            ReportPathError::NotMarkdown
        }),
{
    if is_dir {
        return Err(ReportPathError::IsDirectory);
    }
    match extension {
        Some(e) => {
            if e.to_string() == "md".to_string() {
                Ok(())
            } else {
                Err(ReportPathError::NotMarkdown)
            }
        },
        None => Err(ReportPathError::NotMarkdown),
    }
}

// ---------------------------------------------------------------------------
// The status of a project's editor
// ---------------------------------------------------------------------------

/// Whether the editor a project uses is installed, and whether newer
/// releases of its series exist.
#[derive(Debug, PartialEq, Eq, Structural, Clone, Copy)]
pub enum EditorStatus {
    InstalledLatest,
    InstalledUpdateAvailable,
    NotInstalledLatest,
    NotInstalledOutdated,
}

/// The status for an editor that is or is not installed, with or without
/// newer releases.
pub open spec fn status_for(installed: bool, has_updates: bool) -> EditorStatus {
    if installed {
        if has_updates {
            EditorStatus::InstalledUpdateAvailable
        } else {
            EditorStatus::InstalledLatest
        }
    } else if has_updates {
        EditorStatus::NotInstalledOutdated
    } else {
        EditorStatus::NotInstalledLatest
    }
}

/// The words of a status.
pub open spec fn status_text(s: EditorStatus) -> Seq<char> {
    match s {
        EditorStatus::InstalledLatest => "installed (latest version)"@,
        EditorStatus::InstalledUpdateAvailable => "installed (update available)"@,
        EditorStatus::NotInstalledLatest => "not installed (latest version)"@,
        EditorStatus::NotInstalledOutdated => "not installed (outdated version)"@,
    }
}

/// Returns the status of the editor a project uses.
pub fn editor_status(installed: bool, has_updates: bool) -> (r: EditorStatus)
    ensures
        r == status_for(installed, has_updates),
{
    match (installed, has_updates) {
        (true, false) => EditorStatus::InstalledLatest,
        (true, true) => EditorStatus::InstalledUpdateAvailable,
        (false, false) => EditorStatus::NotInstalledLatest,
        (false, true) => EditorStatus::NotInstalledOutdated,
    }
}

impl EditorStatus {
    /// The words of the status.
    pub fn as_str(&self) -> (r: &'static str)
        ensures
            r@ == status_text(*self),
    {
        match self {
            EditorStatus::InstalledLatest => "installed (latest version)",
            EditorStatus::InstalledUpdateAvailable => "installed (update available)",
            EditorStatus::NotInstalledLatest => "not installed (latest version)",
            EditorStatus::NotInstalledOutdated => "not installed (outdated version)",
        }
    }
}

/// The marker of an installed editor.
pub open spec fn installed_mark(installed: bool) -> char {
    if installed {
        '✓'
    } else {
        '✗'
    }
}

// ---------------------------------------------------------------------------
// The updates report
// ---------------------------------------------------------------------------

/// The list of the project's settings, or the reason they could not be read.
pub open spec fn settings_chars(settings: Result<ProjectSettings, String>) -> Seq<char> {
    match settings {
        Ok(s) => md_item("Product name:  "@ + s.product_name@) + md_item(
            "Company name:  "@ + s.company_name@,
        ) + md_item("Version:       "@ + s.bundle_version@),
        Err(e) => md_item("Could not read project settings: "@ + e@),
    }
}

/// The text of a link to install a release with Unity Hub.
pub open spec fn hub_link(rd: ReleaseData) -> Seq<char> {
    "[install in Unity HUB]("@ + rd.unity_hub_deep_link@ + ")"@
}

/// The line of the release the project uses: the version, its date and its
/// release notes page, and, where asked for, a link to install it.
pub open spec fn current_release_chars(rd: ReleaseData, install_link: bool) -> Seq<char> {
    version_chars(rd.version) + " ("@ + release_date_chars(rd.release_date as int) + ") - "@
        + notes_url_chars(rd.version) + (if install_link {
        " > "@ + hub_link(rd)
    } else {
        Seq::empty()
    })
}

/// The release notes of a newer release: a header that links the notes, a
/// link to install it, and the notes.
pub open spec fn notes_section(rd: ReleaseData, body: Seq<char>) -> Seq<char> {
    "\n"@ + md_h2("Release notes for ["@ + version_chars(rd.version) + "]("@ + rd.release_notes.url@ + ")"@)
        + md_paragraph(hub_link(rd)) + "\n"@ + md_paragraph(body)
}

/// The `i`-th of the notes, or nothing where there is none.
pub open spec fn note_at(notes: Seq<Seq<char>>, i: int) -> Seq<char> {
    if 0 <= i < notes.len() {
        notes[i]
    } else {
        Seq::empty()
    }
}

/// The release notes sections of the releases, each with the notes at its
/// position.
pub open spec fn notes_sections(rs: Seq<ReleaseData>, notes: Seq<Seq<char>>) -> Seq<char>
    decreases rs.len(),
{
    if rs.len() == 0 {
        Seq::empty()
    } else {
        notes_sections(rs.drop_last(), notes) + notes_section(rs.last(), note_at(notes, rs.len() - 1))
    }
}

/// The Markdown report of a project's updates: a header with the project's
/// directory and its settings, the status of its editor with the release it
/// uses, and the release notes of each newer release.
pub open spec fn updates_report_chars(
    dir: Seq<char>,
    settings: Result<ProjectSettings, String>,
    current: ReleaseData,
    newer: Seq<ReleaseData>,
    installed: bool,
    notes: Seq<Seq<char>>,
) -> Seq<char> {
    md_h1("Unity updates for: `"@ + dir + "`"@) + settings_chars(settings) + "\n"@ + md_h2(
        "Unity editor status: "@ + status_text(status_for(installed, newer.len() > 0)),
    ) + md_marked(installed_mark(installed), current_release_chars(current, !installed))
        + notes_sections(newer, notes)
}

/// Appends the list of the project's settings.
fn push_settings(out: &mut String, settings: &Result<ProjectSettings, String>)
    ensures
        final(out)@ == old(out)@ + settings_chars(*settings),
{
    match settings {
        Ok(s) => {
            let mut p = String::new();
            push_str(&mut p, "Product name:  ");
            push_str(&mut p, s.product_name.as_str());
            let mut c = String::new();
            push_str(&mut c, "Company name:  ");
            push_str(&mut c, s.company_name.as_str());
            let mut v = String::new();
            push_str(&mut v, "Version:       ");
            push_str(&mut v, s.bundle_version.as_str());
            let a = markdown_item(p.as_str());
            let b = markdown_item(c.as_str());
            let d = markdown_item(v.as_str());
            push_str(out, a.as_str());
            push_str(out, b.as_str());
            push_str(out, d.as_str());
            proof {
                assert(final(out)@ =~= old(out)@ + settings_chars(*settings));
            }
        },
        Err(e) => {
            let mut t = String::new();
            push_str(&mut t, "Could not read project settings: ");
            push_str(&mut t, e.as_str());
            let a = markdown_item(t.as_str());
            push_str(out, a.as_str());
        },
    }
}

/// Returns the line of the release the project uses, with a link to
/// install it when `install_link` asks for one.
pub fn current_release_line(rd: &ReleaseData, install_link: bool) -> (r: String)
    ensures
        r@ == current_release_chars(*rd, install_link),
{
    let mut s = rd.version.to_string();
    push_str(&mut s, " (");
    let date = format_release_date(rd.release_date);
    push_str(&mut s, date.as_str());
    push_str(&mut s, ") - ");
    let url = release_notes_url(rd.version);
    push_str(&mut s, url.0.as_str());
    if install_link {
        push_str(&mut s, " > ");
        push_str(&mut s, "[install in Unity HUB](");
        push_str(&mut s, rd.unity_hub_deep_link.as_str());
        push_str(&mut s, ")");
    }
    proof {
        assert(s@ =~= current_release_chars(*rd, install_link));
    }
    s
}

/// Returns the release notes section of a newer release.
pub fn release_notes_section(rd: &ReleaseData, body: &str) -> (r: String)
    ensures
        r@ == notes_section(*rd, body@),
{
    let mut title = String::new();
    push_str(&mut title, "Release notes for [");
    let v = rd.version.to_string();
    push_str(&mut title, v.as_str());
    push_str(&mut title, "](");
    push_str(&mut title, rd.release_notes.url.as_str());
    push_str(&mut title, ")");
    let mut s = String::new();
    push_str(&mut s, "\n");
    let h = markdown_h2(title.as_str());
    push_str(&mut s, h.as_str());
    push_str(&mut s, "[install in Unity HUB](");
    push_str(&mut s, rd.unity_hub_deep_link.as_str());
    push_str(&mut s, ")");
    push_str(&mut s, "\n");
    push_str(&mut s, "\n");
    push_str(&mut s, body);
    push_str(&mut s, "\n");
    proof {
        assert(s@ =~= notes_section(*rd, body@));
    }
    s
}

/// Returns the Markdown report of a project's updates. `notes` holds the
/// release notes of the newer releases, in their order; a release without
/// notes gets an empty section body.
pub fn updates_report(
    dir: &str,
    settings: &Result<ProjectSettings, String>,
    updates: &ReleaseUpdates,
    installed: bool,
    notes: &[String],
) -> (r: String)
    ensures
        r@ == updates_report_chars(
            dir@,
            *settings,
            updates.current_release,
            updates.newer_releases@,
            installed,
            strings_view(notes@),
        ),
{
    let mut out = String::new();
    let mut title = String::new();
    push_str(&mut title, "Unity updates for: `");
    push_str(&mut title, dir);
    push_str(&mut title, "`");
    let h1 = markdown_h1(title.as_str());
    push_str(&mut out, h1.as_str());
    push_settings(&mut out, settings);
    push_str(&mut out, "\n");
    let newer = updates.newer_releases.iter();
    let status = editor_status(installed, newer.len() > 0);
    let mut st = String::new();
    push_str(&mut st, "Unity editor status: ");
    push_str(&mut st, status.as_str());
    let h2 = markdown_h2(st.as_str());
    push_str(&mut out, h2.as_str());
    let line = current_release_line(&updates.current_release, !installed);
    let mark = if installed {
        '✓'
    } else {
        '✗'
    };
    let m = markdown_marked(mark, line.as_str());
    push_str(&mut out, m.as_str());
    let ghost base = out@;
    let ghost nv = strings_view(notes@);
    let n = newer.len();
    let mut i: usize = 0;
    while i < n
        invariant
            n == newer@.len(),
            newer@ == updates.newer_releases@,
            nv == strings_view(notes@),
            i <= n,
            out@ == base + notes_sections(newer@.subrange(0, i as int), nv),
        decreases n - i,
    {
        let section = if i < notes.len() {
            release_notes_section(&newer[i], notes[i].as_str())
        } else {
            release_notes_section(&newer[i], "")
        };
        proof {
            let rs = newer@.subrange(0, i + 1);
            assert(rs.drop_last() =~= newer@.subrange(0, i as int));
            assert(rs.last() == newer@[i as int]);
            if i < notes.len() {
                assert(note_at(nv, i as int) == notes@[i as int]@);
            } else {
                reveal_strlit("");
                assert(note_at(nv, i as int) =~= ""@);
            }
        }
        push_str(&mut out, section.as_str());
        i = i + 1;
    }
    proof {
        assert(newer@.subrange(0, n as int) =~= newer@);
        assert(base =~= md_h1("Unity updates for: `"@ + dir@ + "`"@) + settings_chars(*settings) + "\n"@
            + md_h2("Unity editor status: "@ + status_text(status_for(installed, newer@.len() > 0)))
            + md_marked(installed_mark(installed), current_release_chars(updates.current_release, !installed)));
    }
    out
}

/// The release notes of the release a project uses, in the Markdown report
/// of the `info` command: a header that links the notes, then the notes.
pub open spec fn info_notes_chars(rd: ReleaseData, body: Seq<char>) -> Seq<char> {
    "\n"@ + md_h2("Release notes for ["@ + version_chars(rd.version) + "]("@ + rd.release_notes.url@ + ")"@)
        + md_paragraph(body)
}

/// Returns the release notes section of the `info` command's report.
pub fn info_release_notes(rd: &ReleaseData, body: &str) -> (r: String)
    ensures
        r@ == info_notes_chars(*rd, body@),
{
    let mut title = String::new();
    push_str(&mut title, "Release notes for [");
    let v = rd.version.to_string();
    push_str(&mut title, v.as_str());
    push_str(&mut title, "](");
    push_str(&mut title, rd.release_notes.url.as_str());
    push_str(&mut title, ")");
    let mut s = String::new();
    push_str(&mut s, "\n");
    let h = markdown_h2(title.as_str());
    push_str(&mut s, h.as_str());
    push_str(&mut s, body);
    push_str(&mut s, "\n");
    proof {
        assert(s@ =~= info_notes_chars(*rd, body@));
    }
    s
}

} // verus!
