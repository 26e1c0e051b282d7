use kstd::api::path::{parse_predicate, Component, Path, PathBuf};

fn parent_of(s: &str) -> Option<String> {
    Path::new(s).parent().map(|p| p.as_str().to_string())
}

#[test]
fn predicate_is_split_off() {
    assert_eq!(parse_predicate("home:/Documents"), Some(("home", "/Documents")));
    assert_eq!(parse_predicate("a/b:c"), None);
    assert_eq!(parse_predicate(":x"), None);
    assert_eq!(parse_predicate("plain"), None);
    assert_eq!(parse_predicate("a:b:c"), Some(("a", "b:c")));
}

#[test]
fn report_path_scenario() {
    let p = Path::new("home:/Documents/report.docx");
    assert!(p.has_predicate());
    assert_eq!(p.predicate(), Some("home"));
    assert!(p.is_absolute());
    assert!(!p.is_relative());
    assert_eq!(parent_of("home:/Documents/report.docx"), Some("home:/Documents".to_string()));
    assert_eq!(p.file_name(), Some("report.docx"));
    assert_eq!(p.extension(), Some("docx"));
}

#[test]
fn relative_paths() {
    assert!(Path::new("a/b").is_relative());
    assert!(Path::new("home:a").is_relative());
    assert!(Path::new("/a").is_absolute());
    assert!(!Path::new("").is_absolute());
}

#[test]
fn parents() {
    assert_eq!(parent_of("home:/Documents"), Some("home:/".to_string()));
    assert_eq!(parent_of("/a"), Some("/".to_string()));
    assert_eq!(parent_of("/a/b"), Some("/a".to_string()));
    assert_eq!(parent_of("a/b/"), Some("a/b".to_string()));
    assert_eq!(parent_of("home:a"), Some("home:".to_string()));
    assert_eq!(parent_of("/"), None);
    assert_eq!(parent_of(""), None);
    assert_eq!(parent_of("a"), None);
    assert_eq!(parent_of("home:"), None);
    assert_eq!(parent_of("home:/"), None);
}

#[test]
fn file_names() {
    assert_eq!(Path::new("a/b/").file_name(), Some("b"));
    assert_eq!(Path::new("a/..").file_name(), None);
    assert_eq!(Path::new(".").file_name(), None);
    assert_eq!(Path::new("..").file_name(), None);
    assert_eq!(Path::new("/").file_name(), None);
    assert_eq!(Path::new("home:").file_name(), None);
    assert_eq!(Path::new("home:x").file_name(), Some("x"));
    assert_eq!(Path::new("plain").file_name(), Some("plain"));
}

#[test]
fn extensions() {
    assert_eq!(Path::new("archive.tar.gz").extension(), Some("gz"));
    assert_eq!(Path::new("noext").extension(), None);
    assert_eq!(Path::new(".bashrc").extension(), Some("bashrc"));
    assert_eq!(Path::new("dir.d/").extension(), Some("d"));
    assert_eq!(Path::new("/").extension(), None);
}

#[test]
fn components_in_order() {
    let c = Path::new("home:/a/./../b").components();
    assert_eq!(
        c,
        vec![
            Component::Predicate("home"),
            Component::RootDir,
            Component::Normal("a"),
            Component::CurDir,
            Component::ParentDir,
            Component::Normal("b"),
        ]
    );
    assert_eq!(Path::new("a//b/").components(), vec![Component::Normal("a"), Component::Normal("b")]);
    assert_eq!(Path::new("/").components(), vec![Component::RootDir]);
    assert_eq!(Path::new("").components(), Vec::<Component>::new());
}

#[test]
fn component_text() {
    assert_eq!(Component::Predicate("sys").as_str(), "sys");
    assert_eq!(Component::RootDir.as_str(), "/");
    assert_eq!(Component::CurDir.as_str(), ".");
    assert_eq!(Component::ParentDir.as_str(), "..");
    assert_eq!(Component::Normal("x").as_str(), "x");
}

#[test]
fn joins() {
    assert_eq!(Path::new("a").join(Path::new("b")).as_str(), "a/b");
    assert_eq!(Path::new("a/").join(Path::new("b")).as_str(), "a/b");
    assert_eq!(Path::new("home:").join(Path::new("x")).as_str(), "home:x");
    assert_eq!(Path::new("").join(Path::new("b")).as_str(), "b");
    assert_eq!(Path::new("a").join(Path::new("/x")).as_str(), "/x");
    assert_eq!(Path::new("a").join(Path::new("sys:/y")).as_str(), "sys:/y");
}

#[test]
fn push_of_absolute_or_predicated_path_replaces() {
    let mut b = PathBuf::from_str("/usr/lib");
    b.push(Path::new("/etc"));
    assert_eq!(b.as_str(), "/etc");
    b.push(Path::new("sys:conf"));
    assert_eq!(b.as_str(), "sys:conf");
}

#[test]
fn push_then_pop_gives_back() {
    let mut b = PathBuf::from_str("/usr");
    b.push(Path::new("lib"));
    assert_eq!(b.as_str(), "/usr/lib");
    assert!(b.pop());
    assert_eq!(b.as_str(), "/usr");
    assert!(b.pop());
    assert_eq!(b.as_str(), "/");
    assert!(!b.pop());
    assert_eq!(b.as_str(), "/");
}

#[test]
fn parent_of_absolute_path_is_absolute() {
    for s in ["/a", "home:/a", "home:/a/b", "/a/b/"] {
        let p = parent_of(s).unwrap();
        assert!(Path::new(&p).is_absolute());
    }
    let mut b = PathBuf::from_str("home:/");
    b.push(Path::new("x"));
    assert_eq!(b.as_str(), "home:/x");
    assert!(b.pop());
    assert_eq!(b.as_str(), "home:/");
}

#[test]
fn canonical_forms_are_absolute() {
    for s in ["home:..", "/", "x", "a/../..", "q:/r"] {
        let c = Path::new(s).canonicalize("root", Some("/w")).unwrap();
        assert!(c.as_path().is_absolute());
        assert!(c.as_path().has_predicate());
    }
}

#[test]
fn parent_is_shorter_prefix() {
    for s in ["/a/b/c", "home:/x/y", "a/b", "x:/q", "/r"] {
        let p = parent_of(s).unwrap();
        assert!(p.len() < s.len());
        assert!(s.starts_with(&p));
    }
}

#[test]
fn file_name_and_extension_updates() {
    let mut b = PathBuf::from_str("/a/b.txt");
    b.set_file_name("c.md");
    assert_eq!(b.as_str(), "/a/c.md");
    assert!(b.set_extension("rs"));
    assert_eq!(b.as_str(), "/a/c.rs");
    let mut c = PathBuf::from_str("/a/plain");
    assert!(c.set_extension("txt"));
    assert_eq!(c.as_str(), "/a/plain.txt");
    let mut root = PathBuf::from_str("/");
    assert!(!root.set_extension("x"));
    assert_eq!(root.as_str(), "/");
    // A single relative name is replaced as a whole.
    let mut bare = PathBuf::from_str("file");
    assert!(bare.set_extension("rs"));
    assert_eq!(bare.as_str(), "file.rs");
    let mut b = PathBuf::from_str("b.txt");
    assert!(b.set_extension("md"));
    assert_eq!(b.as_str(), "b.md");
    let mut a = PathBuf::from_str("a");
    a.set_file_name("b");
    assert_eq!(a.as_str(), "b");
    let mut d = PathBuf::from_str("dir/a.txt");
    d.set_file_name("b.txt");
    assert_eq!(d.as_str(), "dir/b.txt");
    let mut dots = PathBuf::from_str("..");
    dots.set_file_name("x");
    assert_eq!(dots.as_str(), "..");
    let mut top = PathBuf::from_str("/");
    top.set_file_name("x");
    assert_eq!(top.as_str(), "/");
}

#[test]
fn buffers_and_conversions() {
    assert_eq!(PathBuf::new().as_str(), "");
    assert_eq!(PathBuf::new(), PathBuf::default());
    assert_eq!(PathBuf::from("x/y".to_string()).as_str(), "x/y");
    assert_eq!(PathBuf::from_string("x/y".to_string()).into_string(), "x/y");
    assert_eq!(PathBuf::from_path(Path::new("q")).as_path().as_str(), "q");
}

#[test]
fn canonical_forms() {
    let c = |s: &str, pwd: Option<&str>| Path::new(s).canonicalize("root", pwd).unwrap().into_string();
    assert_eq!(c("/a/./b/../c", None), "root:/a/c");
    assert_eq!(c("x/y", Some("home:/u")), "root:/u/x/y");
    assert_eq!(c("x/y", Some("/v/w")), "root:/v/w/x/y");
    assert_eq!(c("x", None), "root:/x");
    assert_eq!(c("home:..", None), "home:/");
    assert_eq!(c("home:/", None), "home:/");
    assert_eq!(c("/../..", None), "root:/");
    assert_eq!(c("home:", Some("/u")), "home:/u");
    assert_eq!(c("sys:/a//b/", Some("/ignored")), "sys:/a/b");
}

#[test]
fn canonicalize_twice_changes_nothing() {
    for (s, pwd) in [("/a/./b/../c", None), ("x/../y/z", Some("home:/u")), ("q:/r/s", Some("/t"))] {
        let once = Path::new(s).canonicalize("root", pwd).unwrap();
        let twice = once.as_path().canonicalize("root", pwd).unwrap();
        assert_eq!(once.as_str(), twice.as_str());
    }
}

#[test]
fn relative_path_is_taken_inside_working_directory() {
    let rel = Path::new("a/../b").canonicalize("home", Some("home:/usr")).unwrap();
    assert_eq!(rel.as_str(), "home:/usr/b");
    let abs = Path::new("home:/usr/a/../b").canonicalize("home", None).unwrap();
    assert_eq!(rel.as_str(), abs.as_str());
    // A working directory without a predicate gives the same.
    let bare = Path::new("a/../b").canonicalize("home", Some("/usr")).unwrap();
    assert_eq!(bare.as_str(), "home:/usr/b");
}
