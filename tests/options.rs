use uv_settings::options::{DirectoryFiles, Warning};
use uv_settings::{Error, FilesystemOptions, IoError, ManifestProblem};

fn text(s: &str) -> Result<String, IoError> {
    Ok(s.to_string())
}

fn missing() -> Result<String, IoError> {
    Err(IoError { not_found: true, message: "not found".to_string() })
}

fn denied() -> Result<String, IoError> {
    Err(IoError { not_found: false, message: "permission denied".to_string() })
}

fn level(dir: &str, uv_toml: Result<String, IoError>, pyproject: Result<String, IoError>) -> DirectoryFiles {
    DirectoryFiles { dir: dir.to_string(), uv_toml, pyproject }
}

fn setting(o: &FilesystemOptions, key: &str) -> Option<String> {
    o.0.settings.get(key).map(|v| v.to_string())
}

const UV: &str = "index-url = \"https://a.example\"\n";
const TOOL_UV: &str = "[project]\nname = \"p\"\n\n[tool.uv]\nindex-url = \"https://b.example\"\n";

#[test]
fn dedicated_file_wins_with_one_warning() {
    let (r, w) = FilesystemOptions::from_directory("/p", text(UV), text(TOOL_UV));
    let o = r.unwrap().unwrap();
    assert_eq!(setting(&o, "index-url").as_deref(), Some("\"https://a.example\""));
    assert!(matches!(w, Some(Warning::Shadowed { ref dir }) if dir == "/p"));
}

#[test]
fn no_warning_without_populated_section() {
    let (r, w) = FilesystemOptions::from_directory("/p", text(UV), text("[tool.uv]\n"));
    assert!(r.unwrap().is_some());
    assert!(w.is_none());
    let (_, w) = FilesystemOptions::from_directory("/p", text(UV), text("not toml ["));
    assert!(w.is_none());
}

#[test]
fn section_used_when_no_dedicated_file() {
    let (r, w) = FilesystemOptions::from_directory("/p", missing(), text(TOOL_UV));
    let o = r.unwrap().unwrap();
    assert_eq!(setting(&o, "index-url").as_deref(), Some("\"https://b.example\""));
    assert!(w.is_none());
}

#[test]
fn manifest_without_section_is_empty() {
    let (r, w) = FilesystemOptions::from_directory("/p", missing(), text("[project]\nname = \"p\"\n"));
    assert!(r.unwrap().is_none());
    assert!(w.is_none());
    let (r, _) = FilesystemOptions::from_directory("/p", missing(), text("[tool.black]\nx = 1\n"));
    assert!(r.unwrap().is_none());
}

#[test]
fn empty_section_is_absent() {
    let (r, _) = FilesystemOptions::from_directory("/p", missing(), text("[tool.uv]\n"));
    assert!(r.unwrap().is_none());
}

#[test]
fn neither_file_is_not_found() {
    let (r, w) = FilesystemOptions::from_directory("/p", missing(), missing());
    assert!(r.unwrap().is_none());
    assert!(w.is_none());
}

#[test]
fn broken_dedicated_file_is_an_error() {
    let (r, _) = FilesystemOptions::from_directory("/p", text("x = "), text(TOOL_UV));
    match r {
        Err(Error::UvToml(path, _)) => assert_eq!(path, "/p/uv.toml"),
        other => panic!("unexpected {other:?}"),
    }
}

#[test]
fn broken_manifest_is_an_error_of_the_directory() {
    let (r, _) = FilesystemOptions::from_directory("/p/", missing(), text("[tool\n"));
    match r {
        Err(Error::PyprojectToml(path, ManifestProblem::Syntax(_))) => {
            assert_eq!(path, "/p/pyproject.toml")
        }
        other => panic!("unexpected {other:?}"),
    }
    let (r, _) = FilesystemOptions::from_directory("/p", missing(), text("tool = 1\n"));
    match r {
        Err(Error::PyprojectToml(_, ManifestProblem::NotATable(key))) => assert_eq!(key, "tool"),
        other => panic!("unexpected {other:?}"),
    }
    let (r, _) = FilesystemOptions::from_directory("/p", missing(), text("[tool]\nuv = 3\n"));
    match r {
        Err(Error::PyprojectToml(_, ManifestProblem::NotATable(key))) => assert_eq!(key, "tool.uv"),
        other => panic!("unexpected {other:?}"),
    }
}

#[test]
fn read_failures_are_io_errors() {
    let (r, _) = FilesystemOptions::from_directory("/p", denied(), text(TOOL_UV));
    assert!(matches!(r, Err(Error::Io(IoError { not_found: false, .. }))));
    let (r, _) = FilesystemOptions::from_directory("/p", missing(), denied());
    assert!(matches!(r, Err(Error::Io(_))));
}

#[test]
fn nearest_ancestor_wins() {
    let levels = vec![
        level("/A/B/C", missing(), missing()),
        level("/A/B", missing(), text(TOOL_UV)),
        level("/A", text(UV), missing()),
    ];
    let (r, w) = FilesystemOptions::find(levels);
    let o = r.unwrap().unwrap();
    assert_eq!(setting(&o, "index-url").as_deref(), Some("\"https://b.example\""));
    assert!(w.is_empty());
}

#[test]
fn manifest_without_section_continues_ascent() {
    let levels = vec![
        level("/A/B", missing(), text("[project]\nname = \"p\"\n")),
        level("/A", text(UV), missing()),
    ];
    let (r, w) = FilesystemOptions::find(levels);
    assert_eq!(setting(&r.unwrap().unwrap(), "index-url").as_deref(), Some("\"https://a.example\""));
    assert!(w.is_empty());
}

#[test]
fn broken_manifest_is_skipped_with_warning() {
    let levels = vec![
        level("/A/B", missing(), text("[[[")),
        level("/A", text(UV), text(TOOL_UV)),
    ];
    let (r, w) = FilesystemOptions::find(levels);
    assert!(r.unwrap().is_some());
    assert_eq!(w.len(), 2);
    assert!(matches!(&w[0], Warning::SkippedManifest { path, .. } if path == "/A/B/pyproject.toml"));
    assert!(matches!(&w[1], Warning::Shadowed { dir } if dir == "/A"));
}

#[test]
fn broken_dedicated_file_stops_ascent() {
    let levels = vec![level("/A/B", text("= 1"), missing()), level("/A", text(UV), missing())];
    let (r, _) = FilesystemOptions::find(levels);
    assert!(matches!(r, Err(Error::UvToml(ref p, _)) if p == "/A/B/uv.toml"));
}

#[test]
fn exhausted_ascent_finds_nothing() {
    let (r, w) = FilesystemOptions::find(vec![level("/x", missing(), missing())]);
    assert!(r.unwrap().is_none());
    assert!(w.is_empty());
    let (r, _) = FilesystemOptions::find(vec![]);
    assert!(r.unwrap().is_none());
}

#[test]
fn user_tier() {
    let r = FilesystemOptions::user(None, text(UV), true).unwrap();
    assert!(r.is_none());
    let r = FilesystemOptions::user(Some("/home/u/.config"), text(UV), true).unwrap();
    assert!(r.is_some());
    let r = FilesystemOptions::user(Some("/home/u/.config"), missing(), true).unwrap();
    assert!(r.is_none());
    let r = FilesystemOptions::user(Some("/dev/null"), denied(), false).unwrap();
    assert!(r.is_none());
    let r = FilesystemOptions::user(Some("/dev/null"), text("x ="), false).unwrap();
    assert!(r.is_none());
    match FilesystemOptions::user(Some("/home/u/.config"), text("x ="), true) {
        Err(Error::UvToml(path, _)) => assert_eq!(path, "/home/u/.config/uv/uv.toml"),
        other => panic!("unexpected {other:?}"),
    }
    assert!(matches!(
        FilesystemOptions::user(Some("/home/u/.config"), denied(), true),
        Err(Error::Io(_))
    ));
}

#[test]
fn system_tier() {
    assert!(FilesystemOptions::system(None, text(UV)).unwrap().is_none());
    let o = FilesystemOptions::system(Some("/etc/uv/uv.toml"), text(UV)).unwrap().unwrap();
    assert_eq!(setting(&o, "index-url").as_deref(), Some("\"https://a.example\""));
    match FilesystemOptions::system(Some("/etc/uv/uv.toml"), text("[")) {
        Err(Error::UvToml(path, _)) => assert_eq!(path, "/etc/uv/uv.toml"),
        other => panic!("unexpected {other:?}"),
    }
    assert!(matches!(FilesystemOptions::system(Some("/etc/uv/uv.toml"), missing()), Err(Error::Io(_))));
}

#[test]
fn from_file_and_into_options() {
    let o = FilesystemOptions::from_file("/x/uv.toml", text(UV)).unwrap();
    let options = o.into_options();
    assert_eq!(options.settings.len(), 1);
    assert!(matches!(
        FilesystemOptions::from_file("/x/uv.toml", text("a = [")),
        Err(Error::UvToml(ref p, _)) if p == "/x/uv.toml"
    ));
}

#[test]
fn round_trip_keeps_every_setting() {
    let source = "index-url = \"https://a.example\"\nno-cache = true\n\n[pip]\nextra = [\"x\", \"y\"]\n";
    let o = FilesystemOptions::from_file("/x/uv.toml", text(source)).unwrap();
    let written = toml::to_string(&o.0.settings).unwrap();
    let again = FilesystemOptions::from_file("/x/uv.toml", Ok(written)).unwrap();
    assert_eq!(again.0.settings, o.0.settings);
}

#[test]
fn options_convert_into_filesystem_options() {
    let o = FilesystemOptions::from_file("/x/uv.toml", text(UV)).unwrap();
    let back = FilesystemOptions::from(o.into_options());
    assert_eq!(setting(&back, "index-url").as_deref(), Some("\"https://a.example\""));
}

#[test]
fn failed_dedicated_read_is_reported_over_manifest_read() {
    let uv = Err(IoError { not_found: false, message: "uv".to_string() });
    let py = Err(IoError { not_found: false, message: "py".to_string() });
    let (r, _) = FilesystemOptions::from_directory("/p", uv, py);
    assert!(matches!(r, Err(Error::Io(ref e)) if e.message == "uv"));
    let py = Err(IoError { not_found: false, message: "py".to_string() });
    let (r, _) = FilesystemOptions::from_directory("/p", missing(), py);
    assert!(matches!(r, Err(Error::Io(ref e)) if e.message == "py"));
}

#[test]
fn ascent_error_names_the_stopping_level() {
    let levels = vec![
        level("/A/B/C", missing(), text("[[[")),
        level("/A/B", missing(), Err(IoError { not_found: false, message: "b".to_string() })),
        level("/A", text(UV), missing()),
    ];
    let (r, w) = FilesystemOptions::find(levels);
    assert!(matches!(r, Err(Error::Io(ref e)) if e.message == "b"));
    assert_eq!(w.len(), 1);
}

#[test]
fn user_read_failure_is_passed_on() {
    match FilesystemOptions::user(Some("/home/u/.config"), denied(), true) {
        Err(Error::Io(e)) => assert_eq!(e.message, "permission denied"),
        other => panic!("unexpected {other:?}"),
    }
}
