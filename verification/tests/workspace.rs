use quick_os::path::{path_has_parent_component, path_is_absolute, path_join, path_parent};
use quick_os::workspace::{path_within, Workspace, WorkspaceError};
use std::path::{Component, Path};

#[test]
fn blocks_parent_traversal() {
    let ws = Workspace::new("/tmp/ws");
    assert!(ws.resolve("../etc/passwd").is_err());
}

#[test]
fn resolve_joins_relative_paths_under_root() {
    let ws = Workspace::new("/tmp/ws");
    assert_eq!(ws.resolve("hello.txt").unwrap(), "/tmp/ws/hello.txt");
    assert_eq!(ws.resolve("a/b/c.txt").unwrap(), "/tmp/ws/a/b/c.txt");
    assert_eq!(ws.resolve("./a").unwrap(), "/tmp/ws/./a");
    assert_eq!(ws.resolve("a..b").unwrap(), "/tmp/ws/a..b");
    assert_eq!(ws.resolve("...").unwrap(), "/tmp/ws/...");
    let slashed = Workspace::new("/tmp/ws/");
    assert_eq!(slashed.resolve("x").unwrap(), "/tmp/ws/x");
    assert_eq!(ws.root(), "/tmp/ws");
}

#[test]
fn resolve_rejects_absolute_and_parent_components() {
    let ws = Workspace::new("/tmp/ws");
    for bad in ["/etc/passwd", "..", "a/..", "a/../b", "a/../../b", "x/y/..", "/"] {
        match ws.resolve(bad) {
            Err(WorkspaceError::Escape(p)) => assert_eq!(p, bad),
            other => panic!("{bad} was not refused: {other:?}"),
        }
    }
}

#[test]
fn escape_error_message() {
    let ws = Workspace::new("/tmp/ws");
    let e = ws.resolve("../x").unwrap_err();
    assert_eq!(e.message(), "path escapes workspace: ../x");
    assert_eq!(WorkspaceError::Io("boom".to_string()).message(), "io: boom");
}

const SAMPLES: [&str; 40] = [
    "", ".", "..", "/", "//", "a", "a/", "a/b", "a/b/", "a//b", "/a", "/a/", "/a/b", "./a",
    "./", "./.", "a/.", "a/./b", "a/..", "../a", "a/../b", "...", "a..", "..a", "/..", ".a/b",
    "a/b/./", "//a//b//", "./..", "a/b/..", "./a/", "a/./", "/./a", "///", "/.", "./././",
    "é/ü", "a/./.", ". /x", "x/. ",
];

#[test]
fn is_absolute_agrees_with_std() {
    for s in SAMPLES {
        assert_eq!(path_is_absolute(s), Path::new(s).is_absolute(), "{s:?}");
    }
}

#[test]
fn parent_component_agrees_with_std() {
    for s in SAMPLES {
        let std_has = Path::new(s).components().any(|c| matches!(c, Component::ParentDir));
        assert_eq!(path_has_parent_component(s), std_has, "{s:?}");
    }
}

#[test]
fn join_agrees_with_std() {
    for base in SAMPLES {
        for other in SAMPLES {
            let expected = Path::new(base).join(other);
            assert_eq!(path_join(base, other), expected.to_str().unwrap(), "{base:?} + {other:?}");
        }
    }
}

#[test]
fn parent_agrees_with_std() {
    for s in SAMPLES {
        let expected = Path::new(s).parent().map(|p| p.to_str().unwrap().to_string());
        assert_eq!(path_parent(s), expected, "{s:?}");
    }
}

#[test]
fn confine_allows_only_files_within_the_canonical_root() {
    assert!(Workspace::confine("a.txt", "/tmp/ws", "/tmp/ws/a.txt").is_ok());
    assert!(Workspace::confine("d/b.txt", "/tmp/ws", "/tmp/ws/d/b.txt").is_ok());
    assert!(Workspace::confine(".", "/tmp/ws", "/tmp/ws").is_ok());
    assert!(Workspace::confine("etc", "/", "/etc").is_ok());
    let e = Workspace::confine("link", "/tmp/ws", "/etc/passwd").unwrap_err();
    assert_eq!(e.message(), "path escapes workspace: link");
    assert!(matches!(
        Workspace::confine("x", "/tmp/ws", "/tmp/wsx/a"),
        Err(WorkspaceError::Escape(p)) if p == "x"
    ));
    assert!(Workspace::confine("up", "/tmp/ws", "/tmp").is_err());
}

#[test]
fn within_agrees_with_std_starts_with() {
    let roots = ["/", "/tmp", "/tmp/ws"];
    let paths = ["/", "/tmp", "/tmpx", "/tmp/ws", "/tmp/ws/a", "/tmp/wsa", "/etc/passwd", "/tmp/ws/a/b"];
    for root in roots {
        for path in paths {
            assert_eq!(
                path_within(root, path),
                Path::new(path).starts_with(Path::new(root)),
                "{root} {path}"
            );
        }
    }
}
