//! Loading the configuration of each tier from the files that were read.
use vstd::prelude::*;
use vstd::string::StringExecFns;
use toml::de::Error as DeError;

use crate::document::{
    find_reserved_section, parse_document, parsed_document, reserved_section, Reserved,
};
use crate::paths::{config_file_in, join_path, path_join};

verus! {

/// The settings explicitly set in one configuration source.
#[derive(Debug)]
pub struct Options {
    /// The settings, as the table they were written in.
    pub settings: toml::Table,
}

/// The [`Options`] as loaded from a configuration file on disk.
#[derive(Debug)]
pub struct FilesystemOptions(pub Options);

/// A failure to read a file.
#[derive(Debug)]
pub struct IoError {
    /// The file does not exist.
    pub not_found: bool,
    /// What the system reported.
    pub message: String,
}

/// Why a project manifest could not be used.
#[derive(Debug)]
pub enum ManifestProblem {
    /// The text is not valid TOML.
    Syntax(DeError),
    /// The named key of the reserved section is not a table.
    NotATable(String),
}

/// Why the configuration of a tier could not be loaded.
#[derive(Debug)]
pub enum Error {
    /// A file could not be read.
    Io(IoError),
    /// A project manifest that could not be used; the path is given.
    PyprojectToml(String, ManifestProblem),
    /// A dedicated configuration file that is not valid TOML; the path is given.
    UvToml(String, DeError),
}

/// The kind of an [`Error`], without its details.
pub enum ErrorKind {
    Io,
    PyprojectToml,
    UvToml,
}

/// The kind of `e`.
pub open spec fn kind_of(e: Error) -> ErrorKind {
    match e {
        Error::Io(_) => ErrorKind::Io,
        Error::PyprojectToml(..) => ErrorKind::PyprojectToml,
        Error::UvToml(..) => ErrorKind::UvToml,
    }
}

/// What a loading step returned: the settings found, or the kind of failure.
pub open spec fn outcome_of(r: Result<Option<FilesystemOptions>, Error>) -> Result<
    Option<toml::Table>,
    ErrorKind,
> {
    match r {
        Ok(Some(o)) => Ok(Some(o.0.settings)),
        Ok(None) => Ok(None),
        Err(e) => Err(kind_of(e)),
    }
}

/// A parse error names the file `p`.
pub open spec fn error_names(e: Error, p: Seq<char>) -> bool {
    match e {
        Error::Io(_) => true,
        Error::PyprojectToml(q, _) => q@ == p,
        Error::UvToml(q, _) => q@ == p,
    }
}

/// Settings read from a dedicated configuration file whose read gave `read`.
pub open spec fn file_settings(read: Result<String, IoError>) -> Result<toml::Table, ErrorKind> {
    match read {
        Err(_) => Err(ErrorKind::Io),
        Ok(text) => match parsed_document(text@) {
            Some(t) => Ok(t),
            None => Err(ErrorKind::UvToml),
        },
    }
}

/// Loads [`Options`] from the text read from the dedicated file at `path`.
fn read_file(path: &str, read: Result<String, IoError>) -> (r: Result<Options, Error>)
    ensures
        match (r, file_settings(read)) {
            (Ok(o), Ok(t)) => o.settings == t,
            (Err(e), Err(k)) => kind_of(e) == k && error_names(e, path@) && (read matches Err(
                x,
            ) ==> e == Error::Io(x)),
            _ => false,
        },
{
    match read {
        Err(e) => Err(Error::Io(e)),
        Ok(text) => match parse_document(text.as_str()) {
            Ok(t) => Ok(Options { settings: t }),
            Err(err) => Err(Error::UvToml(String::from_str(path), err)),
        },
    }
}

impl From<Options> for FilesystemOptions {
    fn from(options: Options) -> (r: Self) {
        FilesystemOptions(options)
    }
}

impl vstd::std_specs::convert::FromSpecImpl<Options> for FilesystemOptions {
    open spec fn obeys_from_spec() -> bool {
        true
    }

    open spec fn from_spec(options: Options) -> FilesystemOptions {
        FilesystemOptions(options)
    }
}

/// A notice about configuration that is being passed over.
#[derive(Debug)]
pub enum Warning {
    /// The directory holds a `uv.toml` file and a manifest with a `[tool.uv]`
    /// section; the section is ignored.
    Shadowed { dir: String },
    /// A manifest met during discovery could not be used and is skipped.
    SkippedManifest { path: String, problem: ManifestProblem },
}

/// The two files of one directory, as they were read.
pub struct DirectoryFiles {
    /// The directory that holds the two files.
    pub dir: String,
    /// The read of `<dir>/uv.toml`.
    pub uv_toml: Result<String, IoError>,
    /// The read of `<dir>/pyproject.toml`.
    pub pyproject: Result<String, IoError>,
}

/// Settings that a project manifest offers, given how its read went: a
/// missing file or section offers none.
pub open spec fn manifest_settings(read: Result<String, IoError>) -> Result<
    Option<toml::Table>,
    ErrorKind,
> {
    match read {
        Err(e) => if e.not_found {
            Ok(None)
        } else {
            Err(ErrorKind::Io)
        },
        Ok(text) => match parsed_document(text@) {
            None => Err(ErrorKind::PyprojectToml),
            Some(d) => match reserved_section(d) {
                Reserved::Missing => Ok(None),
                Reserved::NotATable(_) => Err(ErrorKind::PyprojectToml),
                Reserved::Present(t) => Ok(Some(t)),
            },
        },
    }
}

/// Settings that one directory offers: its `uv.toml` when that file exists,
/// else the reserved section of its manifest.
pub open spec fn directory_settings(
    uv_toml: Result<String, IoError>,
    pyproject: Result<String, IoError>,
) -> Result<Option<toml::Table>, ErrorKind> {
    match uv_toml {
        Err(e) => if e.not_found {
            manifest_settings(pyproject)
        } else {
            Err(ErrorKind::Io)
        },
        Ok(text) => match parsed_document(text@) {
            Some(t) => Ok(Some(t)),
            None => Err(ErrorKind::UvToml),
        },
    }
}

/// Whether a valid `uv.toml` shadows a populated `[tool.uv]` section beside it.
pub open spec fn shadows(uv_toml: Result<String, IoError>, pyproject: Result<String, IoError>) -> bool {
    &&& uv_toml matches Ok(text) && parsed_document(text@) is Some
    &&& manifest_settings(pyproject) matches Ok(Some(_))
}

pub open spec fn uv_toml_path(dir: Seq<char>) -> Seq<char> {
    path_join(dir, "uv.toml"@)
}

pub open spec fn pyproject_path(dir: Seq<char>) -> Seq<char> {
    path_join(dir, "pyproject.toml"@)
}

/// The error of a directory names the file that caused it.
pub open spec fn directory_error_names(e: Error, dir: Seq<char>) -> bool {
    match e {
        Error::Io(_) => true,
        Error::PyprojectToml(q, _) => q@ == pyproject_path(dir),
        Error::UvToml(q, _) => q@ == uv_toml_path(dir),
    }
}

/// The failed read that a directory reports: that of `uv.toml` unless the
/// file is merely missing, else that of the manifest unless it is missing too.
pub open spec fn io_failure(uv_toml: Result<String, IoError>, pyproject: Result<String, IoError>) -> Option<
    IoError,
> {
    match uv_toml {
        Ok(_) => None,
        Err(e) => if !e.not_found {
            Some(e)
        } else {
            match pyproject {
                Err(p) => if !p.not_found {
                    Some(p)
                } else {
                    None
                },
                Ok(_) => None,
            }
        },
    }
}

/// The level at which an ascent from level `i` stops: the first that offers
/// settings or fails with anything but an unusable manifest; the length of
/// `levels` when there is none.
pub open spec fn stop_from(levels: Seq<DirectoryFiles>, i: int) -> int
    decreases levels.len() - i,
{
    if i < 0 || i >= levels.len() {
        levels.len() as int
    } else {
        match directory_settings(levels[i].uv_toml, levels[i].pyproject) {
            Ok(None) => stop_from(levels, i + 1),
            Err(ErrorKind::PyprojectToml) => stop_from(levels, i + 1),
            _ => i,
        }
    }
}

/// The error `e` names the file of level `k`, and an I/O error is that level's own.
pub open spec fn error_of_level(e: Error, levels: Seq<DirectoryFiles>, k: int) -> bool {
    &&& 0 <= k < levels.len()
    &&& directory_error_names(e, levels[k].dir@)
    &&& e matches Error::Io(x) ==> io_failure(levels[k].uv_toml, levels[k].pyproject) == Some(x)
}

/// The settings found by ascending from level `i` of `levels`, which run from
/// the starting directory to the root: the first directory that offers
/// settings wins, a manifest that cannot be used is skipped, and any other
/// failure ends the ascent.
pub open spec fn find_from(levels: Seq<DirectoryFiles>, i: int) -> Result<
    Option<toml::Table>,
    ErrorKind,
>
    decreases levels.len() - i,
{
    if i < 0 || i >= levels.len() {
        Ok(None)
    } else {
        match directory_settings(levels[i].uv_toml, levels[i].pyproject) {
            Ok(Some(t)) => Ok(Some(t)),
            Ok(None) => find_from(levels, i + 1),
            Err(ErrorKind::PyprojectToml) => find_from(levels, i + 1),
            Err(k) => Err(k),
        }
    }
}

/// A warning as a pair: whether it is a shadowed section, and the directory
/// or file that it names.
pub open spec fn warning_key(w: Warning) -> (bool, Seq<char>) {
    match w {
        Warning::Shadowed { dir } => (true, dir@),
        Warning::SkippedManifest { path, .. } => (false, path@),
    }
}

pub open spec fn warning_keys(ws: Seq<Warning>) -> Seq<(bool, Seq<char>)> {
    ws.map_values(|w: Warning| warning_key(w))
}

/// The warnings given while ascending from level `i` of `levels`: a shadowed
/// section where a `uv.toml` wins, and each skipped manifest.
pub open spec fn expected_warnings(levels: Seq<DirectoryFiles>, i: int) -> Seq<(bool, Seq<char>)>
    decreases levels.len() - i,
{
    if i < 0 || i >= levels.len() {
        seq![]
    } else {
        let l = levels[i];
        match directory_settings(l.uv_toml, l.pyproject) {
            Ok(None) => expected_warnings(levels, i + 1),
            Err(ErrorKind::PyprojectToml) => seq![(false, pyproject_path(l.dir@))]
                + expected_warnings(levels, i + 1),
            _ => if shadows(l.uv_toml, l.pyproject) {
                seq![(true, l.dir@)]
            } else {
                seq![]
            },
        }
    }
}

/// Settings of the user tier: none without a user directory, none when its
/// file is missing or the directory is not a directory, else those of the file.
pub open spec fn user_settings(
    dir: Option<Seq<char>>,
    read: Result<String, IoError>,
    dir_is_dir: bool,
) -> Result<Option<toml::Table>, ErrorKind> {
    match dir {
        None => Ok(None),
        Some(_) => match file_settings(read) {
            Ok(t) => Ok(Some(t)),
            Err(k) => if (read matches Err(e) && e.not_found) || !dir_is_dir {
                Ok(None)
            } else {
                Err(k)
            },
        },
    }
}

/// Settings of the system tier: none without a system file, else those of the file.
pub open spec fn system_settings(path: Option<Seq<char>>, read: Result<String, IoError>) -> Result<
    Option<toml::Table>,
    ErrorKind,
> {
    match path {
        None => Ok(None),
        Some(_) => match file_settings(read) {
            Ok(t) => Ok(Some(t)),
            Err(k) => Err(k),
        },
    }
}

/// The settings of a project manifest at `path` whose read gave `read`.
fn read_manifest(path: &str, read: Result<String, IoError>) -> (r: Result<Option<toml::Table>, Error>)
    ensures
        match r {
            Ok(x) => manifest_settings(read) == Ok::<_, ErrorKind>(x),
            Err(e) => manifest_settings(read) == Err::<Option<toml::Table>, _>(kind_of(e))
                && error_names(e, path@),
        },
        r matches Err(Error::Io(x)) ==> read == Err::<String, IoError>(x),
{
    match read {
        Err(e) => if e.not_found {
            Ok(None)
        } else {
            Err(Error::Io(e))
        },
        Ok(text) => match parse_document(text.as_str()) {
            Err(err) => Err(Error::PyprojectToml(String::from_str(path), ManifestProblem::Syntax(err))),
            Ok(doc) => match find_reserved_section(doc) {
                Reserved::Missing => Ok(None),
                Reserved::NotATable(key) => Err(
                    Error::PyprojectToml(String::from_str(path), ManifestProblem::NotATable(key)),
                ),
                Reserved::Present(t) => Ok(Some(t)),
            },
        },
    }
}

impl FilesystemOptions {
    /// Convert the [`FilesystemOptions`] into [`Options`].
    pub fn into_options(self) -> (r: Options)
        ensures
            r == self.0,
    {
        self.0
    }

    /// Load a [`FilesystemOptions`] from the text read from a dedicated file.
    pub fn from_file(path: &str, read: Result<String, IoError>) -> (r: Result<Self, Error>)
        ensures
            match (r, file_settings(read)) {
                (Ok(o), Ok(t)) => o.0.settings == t,
                (Err(e), Err(k)) => kind_of(e) == k && error_names(e, path@) && (read matches Err(
                    x,
                ) ==> e == Error::Io(x)),
                _ => false,
            },
    {
        match read_file(path, read) {
            Ok(o) => Ok(FilesystemOptions(o)),
            Err(e) => Err(e),
        }
    }

    /// Load the user [`FilesystemOptions`] from the user configuration
    /// directory `dir`, the read of `<dir>/uv/uv.toml`, and whether `dir` is
    /// a directory.
    pub fn user(dir: Option<&str>, read: Result<String, IoError>, dir_is_dir: bool) -> (r: Result<
        Option<Self>,
        Error,
    >)
        ensures
            outcome_of(r) == user_settings(crate::paths::opt_view(dir), read, dir_is_dir),
            r matches Err(e) ==> error_names(e, config_file_in(dir->Some_0@)),
            r matches Err(Error::Io(x)) ==> read == Err::<String, IoError>(x),
    {
        let d = match dir {
            None => return Ok(None),
            Some(d) => d,
        };
        let file = crate::paths::config_file_path(d);
        let not_found = match &read {
            Err(e) => e.not_found,
            Ok(_) => false,
        };
        match read_file(file.as_str(), read) {
            Ok(o) => Ok(Some(FilesystemOptions(o))),
            Err(_) if not_found => Ok(None),
            Err(_) if !dir_is_dir => Ok(None),
            Err(e) => Err(e),
        }
    }

    /// Load the system [`FilesystemOptions`] from the system configuration
    /// file `path`, if there is one, and the read of that file.
    pub fn system(path: Option<&str>, read: Result<String, IoError>) -> (r: Result<
        Option<Self>,
        Error,
    >)
        ensures
            outcome_of(r) == system_settings(crate::paths::opt_view(path), read),
            r matches Err(e) ==> error_names(e, path->Some_0@),
            r matches Err(Error::Io(x)) ==> read == Err::<String, IoError>(x),
    {
        let p = match path {
            None => return Ok(None),
            Some(p) => p,
        };
        match read_file(p, read) {
            Ok(o) => Ok(Some(FilesystemOptions(o))),
            Err(e) => Err(e),
        }
    }

    /// Find the [`FilesystemOptions`] from the files of each directory, from
    /// the starting directory up to the root. The search stops at the first
    /// directory with a `uv.toml` file or a `[tool.uv]` section. Also returns
    /// the warnings given on the way.
    pub fn find(levels: Vec<DirectoryFiles>) -> (r: (Result<Option<Self>, Error>, Vec<Warning>))
        ensures
            outcome_of(r.0) == find_from(levels@, 0),
            warning_keys(r.1@) == expected_warnings(levels@, 0),
            r.0 matches Err(e) ==> error_of_level(e, levels@, stop_from(levels@, 0)),
    {
        let ghost all = levels@;
        let mut rest = levels;
        let mut warnings: Vec<Warning> = Vec::new();
        let ghost mut i: int = 0;
        while rest.len() > 0
            invariant
                0 <= i <= all.len(),
                all == levels@,
                rest@ == all.subrange(i, all.len() as int),
                find_from(all, 0) == find_from(all, i),
                stop_from(all, 0) == stop_from(all, i),
                warning_keys(warnings@) + expected_warnings(all, i) == expected_warnings(all, 0),
            decreases rest.len(),
        {
            assert(rest@[0] == all[i]);
            let level = rest.remove(0);
            let DirectoryFiles { dir, uv_toml, pyproject } = level;
            let ghost before = warnings@;
            let (r, w) = Self::from_directory(dir.as_str(), uv_toml, pyproject);
            let ghost wk = if w is Some {
                seq![warning_key(w->Some_0)]
            } else {
                Seq::empty()
            };
            if let Some(w) = w {
                warnings.push(w);
            }
            proof {
                assert(warning_keys(warnings@) =~= warning_keys(before) + wk);
            }
            match r {
                Ok(Some(o)) => {
                    assert(find_from(all, i) == Ok::<_, ErrorKind>(Some(o.0.settings)));
                    assert(expected_warnings(all, i) =~= wk);
                    return (Ok(Some(o)), warnings);
                },
                Ok(None) => {},
                Err(Error::PyprojectToml(path, problem)) => {
                    let ghost mid = warnings@;
                    warnings.push(Warning::SkippedManifest { path, problem });
                    proof {
                        assert(warning_keys(warnings@) =~= warning_keys(mid) + seq![
                            (false, pyproject_path(all[i].dir@)),
                        ]);
                    }
                },
                Err(e) => {
                    assert(expected_warnings(all, i) =~= wk);
                    return (Err(e), warnings);
                },
            }
            proof {
                i = i + 1;
                assert(rest@ =~= all.subrange(i, all.len() as int));
            }
        }
        (Ok(None), warnings)
    }

    /// Load the [`FilesystemOptions`] of a directory from the reads of its
    /// `uv.toml` and `pyproject.toml`, preferring the `uv.toml` file. Also
    /// returns the warning owed when a `[tool.uv]` section is shadowed.
    pub fn from_directory(
        dir: &str,
        uv_toml: Result<String, IoError>,
        pyproject: Result<String, IoError>,
    ) -> (r: (Result<Option<Self>, Error>, Option<Warning>))
        ensures
            outcome_of(r.0) == directory_settings(uv_toml, pyproject),
            r.0 matches Err(e) ==> directory_error_names(e, dir@),
            r.0 matches Err(Error::Io(x)) ==> io_failure(uv_toml, pyproject) == Some(x),
            io_failure(uv_toml, pyproject) matches Some(x) ==> r.0 matches Err(Error::Io(y)) && y
                == x,
            r.1 is Some == shadows(uv_toml, pyproject),
            r.1 matches Some(w) ==> w == (Warning::Shadowed { dir: w->dir }) && w->dir@ == dir@,
    {
        let uv_path = join_path(dir, "uv.toml");
        let py_path = join_path(dir, "pyproject.toml");
        proof {
            reveal_strlit("uv.toml");
            reveal_strlit("pyproject.toml");
        }
        match uv_toml {
            Ok(text) => match parse_document(text.as_str()) {
                Ok(t) => {
                    let warning = match read_manifest(py_path.as_str(), pyproject) {
                        Ok(Some(_)) => Some(Warning::Shadowed { dir: String::from_str(dir) }),
                        _ => None,
                    };
                    (Ok(Some(FilesystemOptions(Options { settings: t }))), warning)
                },
                Err(err) => (Err(Error::UvToml(uv_path, err)), None),
            },
            Err(e) => {
                if !e.not_found {
                    return (Err(Error::Io(e)), None);
                }
                match read_manifest(py_path.as_str(), pyproject) {
                    Ok(Some(t)) => (Ok(Some(FilesystemOptions(Options { settings: t }))), None),
                    Ok(None) => (Ok(None), None),
                    Err(err) => (Err(err), None),
                }
            },
        }
    }
}

proof fn lemma_found_below(levels: Seq<DirectoryFiles>, j: int, i: int, t: toml::Table)
    requires
        0 <= j <= i < levels.len(),
        forall|k: int|
            0 <= k < i ==> directory_settings(#[trigger] levels[k].uv_toml, levels[k].pyproject)
                == Ok::<_, ErrorKind>(None::<toml::Table>),
        directory_settings(levels[i].uv_toml, levels[i].pyproject) == Ok::<_, ErrorKind>(Some(t)),
    ensures
        find_from(levels, j) == Ok::<_, ErrorKind>(Some(t)),
    decreases i - j,
{
    if j < i {
        lemma_found_below(levels, j + 1, i, t);
    }
}

/// The nearest directory that offers settings wins: when every directory
/// below level `i` offers none and level `i` offers `t`, the search gives `t`,
/// whatever the directories above hold.
pub proof fn lemma_nearest_wins(levels: Seq<DirectoryFiles>, i: int, t: toml::Table)
    requires
        0 <= i < levels.len(),
        forall|k: int|
            0 <= k < i ==> directory_settings(#[trigger] levels[k].uv_toml, levels[k].pyproject)
                == Ok::<_, ErrorKind>(None::<toml::Table>),
        directory_settings(levels[i].uv_toml, levels[i].pyproject) == Ok::<_, ErrorKind>(Some(t)),
    ensures
        find_from(levels, 0) == Ok::<_, ErrorKind>(Some(t)),
{
    lemma_found_below(levels, 0, i, t);
}

/// A populated `[tool.uv]` section in the parent of the starting directory
/// wins over a `uv.toml` file further up: from `c`, with nothing in `c` and
/// the section in `b`, the search gives the section of `b`.
pub proof fn lemma_manifest_nearer_than_file(
    c: DirectoryFiles,
    b: DirectoryFiles,
    a: DirectoryFiles,
    t: toml::Table,
)
    requires
        c.uv_toml matches Err(e) && e.not_found,
        c.pyproject matches Err(e) && e.not_found,
        b.uv_toml matches Err(e) && e.not_found,
        manifest_settings(b.pyproject) == Ok::<_, ErrorKind>(Some(t)),
    ensures
        find_from(seq![c, b, a], 0) == Ok::<_, ErrorKind>(Some(t)),
{
    let levels = seq![c, b, a];
    assert(levels[0] == c);
    assert(levels[1] == b);
    lemma_nearest_wins(levels, 1, t);
}

/// In one directory a valid `uv.toml` wins over a populated `[tool.uv]`
/// section beside it, and exactly one warning is given for the section.
pub proof fn lemma_dedicated_file_wins(level: DirectoryFiles, t: toml::Table)
    requires
        level.uv_toml matches Ok(text) && parsed_document(text@) == Some(t),
        manifest_settings(level.pyproject) matches Ok(Some(_)),
    ensures
        directory_settings(level.uv_toml, level.pyproject) == Ok::<_, ErrorKind>(Some(t)),
        shadows(level.uv_toml, level.pyproject),
        find_from(seq![level], 0) == Ok::<_, ErrorKind>(Some(t)),
        expected_warnings(seq![level], 0) == seq![(true, level.dir@)],
{
    let levels = seq![level];
    assert(levels[0] == level);
}

/// A directory whose only file is a manifest without a `[tool.uv]` section
/// offers nothing and gives no warning: the search goes on to the parent.
pub proof fn lemma_manifest_without_section_is_passed(levels: Seq<DirectoryFiles>, i: int)
    requires
        0 <= i < levels.len(),
        levels[i].uv_toml matches Err(e) && e.not_found,
        levels[i].pyproject matches Ok(text) && parsed_document(text@) matches Some(d)
            && reserved_section(d) is Missing,
    ensures
        directory_settings(levels[i].uv_toml, levels[i].pyproject) == Ok::<_, ErrorKind>(
            None::<toml::Table>,
        ),
        !shadows(levels[i].uv_toml, levels[i].pyproject),
        find_from(levels, i) == find_from(levels, i + 1),
        expected_warnings(levels, i) == expected_warnings(levels, i + 1),
{
}

} // verus!
