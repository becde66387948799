use bridge_supervisor::{
    candidates, find_project_root, locate, venv_python, venv_python_path, Candidate, FsPath,
    Interpreter, OsFamily, RootError,
};

fn path(anchor: &str, parts: &[&str]) -> FsPath {
    FsPath {
        anchor: anchor.to_string(),
        parts: parts.iter().map(|p| p.to_string()).collect(),
    }
}

fn names(p: &FsPath) -> Vec<&str> {
    p.parts.iter().map(|s| s.as_str()).collect()
}

#[test]
fn root_found_from_descendant() {
    let start = path("/", &["home", "me", "app", "src-tauri", "target"]);
    // marks for "/", "/home", "/home/me", "/home/me/app", ".../src-tauri", ".../target"
    let marks = vec![false, false, false, true, false, false];
    let root = find_project_root(&start, &marks).ok().unwrap();
    assert_eq!(root.anchor, "/");
    assert_eq!(names(&root), vec!["home", "me", "app"]);
}

#[test]
fn root_found_at_start_itself() {
    let start = path("/", &["work", "app"]);
    let marks = vec![false, false, true];
    let root = find_project_root(&start, &marks).ok().unwrap();
    assert_eq!(names(&root), vec!["work", "app"]);
}

#[test]
fn root_at_filesystem_root() {
    let start = path("/", &["a", "b"]);
    let marks = vec![true, false, false];
    let root = find_project_root(&start, &marks).ok().unwrap();
    assert_eq!(root.anchor, "/");
    assert!(root.parts.is_empty());
}

#[test]
fn nearest_of_nested_roots_wins() {
    let start = path("/", &["outer", "inner", "deep"]);
    let marks = vec![false, true, true, false];
    let root = find_project_root(&start, &marks).ok().unwrap();
    assert_eq!(names(&root), vec!["outer", "inner"]);
}

#[test]
fn root_not_found() {
    let start = path("/", &["tmp", "elsewhere"]);
    let marks = vec![false, false, false];
    assert_eq!(find_project_root(&start, &marks).err(), Some(RootError::NotFound));
}

#[test]
fn managed_interpreter_path_per_family() {
    let root = path("/", &["proj"]);
    let unix = venv_python_path(&root, OsFamily::Other);
    assert_eq!(names(&unix), vec!["proj", ".venv", "bin", "python"]);
    let win = venv_python_path(&path("C:\\", &["proj"]), OsFamily::Windows);
    assert_eq!(win.anchor, "C:\\");
    assert_eq!(names(&win), vec!["proj", ".venv", "Scripts", "python.exe"]);
}

#[test]
fn venv_python_only_when_present() {
    let root = path("/", &["proj"]);
    let found = venv_python(&root, OsFamily::Other, true).unwrap();
    assert_eq!(names(&found), vec!["proj", ".venv", "bin", "python"]);
    assert!(venv_python(&root, OsFamily::Other, false).is_none());
}

#[test]
fn candidate_order_per_family() {
    assert_eq!(
        candidates(OsFamily::Windows),
        vec![Candidate::ManagedVenv, Candidate::WindowsLauncher]
    );
    assert_eq!(
        candidates(OsFamily::Other),
        vec![Candidate::ManagedVenv, Candidate::SystemPython]
    );
}

#[test]
fn locate_prefers_managed_on_every_family() {
    let root = path("/", &["proj"]);
    match locate(&root, OsFamily::Other, true) {
        Interpreter::Managed(p) => assert_eq!(names(&p), vec!["proj", ".venv", "bin", "python"]),
        _ => panic!("managed interpreter expected"),
    }
    match locate(&root, OsFamily::Windows, true) {
        Interpreter::Managed(p) => {
            assert_eq!(names(&p), vec!["proj", ".venv", "Scripts", "python.exe"])
        }
        _ => panic!("managed interpreter expected"),
    }
}

#[test]
fn locate_falls_back_to_system_interpreter() {
    let root = path("/", &["proj"]);
    assert!(matches!(locate(&root, OsFamily::Other, false), Interpreter::System));
    assert!(matches!(locate(&root, OsFamily::Windows, false), Interpreter::Launcher));
}

#[test]
fn path_join_and_ancestor() {
    let p = path("/", &["a", "b"]);
    let j = p.join("c");
    assert_eq!(names(&j), vec!["a", "b", "c"]);
    assert_eq!(names(&p), vec!["a", "b"]);
    let up = j.ancestor(1);
    assert_eq!(names(&up), vec!["a"]);
    assert_eq!(up.anchor, "/");
    assert_eq!(names(&j.duplicate()), vec!["a", "b", "c"]);
}
