# ucom

Unity Commander: a command-line tool that lists Unity editor installations
and releases, shows information about Unity projects, and opens, builds and
tests them with the Unity editor.

The crate is written in Verus. `src/` is the verified library. Every
function in it carries a contract that Verus proves, except four small
functions marked `external_body`, whose contracts are trusted: they call
`String::push`, `str::to_lowercase`, chrono's date formatting and uuid's
random UUIDs, and their doc comments say what is claimed of each. The
modules:

- `text` – characters of strings: finding, splitting, trimming, decimal
  numbers.
- `version` – Unity version numbers (`2021.3.9f1`): parsing, printing and
  ordering; reading a printed version gives it back.
- `nonempty` – lists that always hold a value.
- `versions` – sorting versions and selecting them by prefix; the sorted,
  non-empty list of installed versions.
- `releases` – release data of the Unity release service, sorting and
  selecting releases, merging downloaded pages, finding the updates of a
  version.
- `listing` – grouping versions by `major.minor` series and the pieces and
  lines of the printed lists.
- `report` – the Markdown reports of the `updates` and `info` commands and
  the status of a project's editor.
- `project` – what is read from a project: its editor version, settings,
  packages and build profiles.
- `cli`, `command`, `inject` – the commands' options and the decisions of
  the `add` command, the editor command lines they give, the build log, and
  where the build script goes.
- `cache`, `editor`, `nunit`, `web_releases` – the download cache, where
  the editors are installed and whether one has a project open, test
  results, and releases as the release web pages name them.

`app/` is the program around the library: argument parsing with clap,
files, processes, downloads and the terminal.

`tests/` runs the library on concrete values.
