use drill::icon_catalog::icons::{FOLDER, MAKEFILE, MARKDOWN, README, VCS_GIT, CHANGELOG};
use drill::icon_catalog::{basename, builder_content_icon, extension, for_path, is_directory_name};

const GENERIC: &str = "text-x-generic-symbolic";

#[test]
fn directories_and_fallback_folder() {
    assert_eq!(for_path("/home/john/project/src", GENERIC), FOLDER);
    assert_eq!(for_path("Target", GENERIC), FOLDER);
    assert_eq!(for_path("anything.rs", FOLDER), FOLDER);
}

#[test]
fn prefixes_win_over_extensions() {
    assert_eq!(for_path("README.md", GENERIC), README);
    assert_eq!(for_path("docs/ChangeLog.rs", GENERIC), CHANGELOG);
    assert_eq!(for_path("Dockerfile.dev", GENERIC), MAKEFILE);
}

#[test]
fn whole_names_and_build_files() {
    assert_eq!(for_path(".gitignore", GENERIC), VCS_GIT);
    assert_eq!(for_path(".editorconfig", GENERIC), "format-indent-more-symbolic");
    assert_eq!(for_path("builddir/build.ninja", GENERIC), MAKEFILE);
    assert_eq!(for_path("CMakeLists.txt", GENERIC), MAKEFILE);
}

#[test]
fn extensions() {
    assert_eq!(for_path("/home/john/project/src/main.rs", GENERIC), "text-rust-symbolic");
    assert_eq!(for_path("notes.MD", GENERIC), MARKDOWN);
    assert_eq!(for_path("a.tar.JSON", GENERIC), "text-x-javascript-symbolic");
    assert_eq!(for_path("intro-tests.json", GENERIC), "text-x-javascript-symbolic");
    assert_eq!(for_path("CACHEDIR.TAG", GENERIC), GENERIC);
    assert_eq!(for_path("noext", GENERIC), GENERIC);
}

#[test]
fn helpers() {
    assert_eq!(basename("a/b/c.txt"), "c.txt");
    assert_eq!(basename("c.txt"), "c.txt");
    assert_eq!(basename("a/b/"), "");
    assert_eq!(extension("archive.tar.gz"), Some("gz"));
    assert_eq!(extension("makefile"), None);
    assert_eq!(extension("trailing."), Some(""));
    assert_eq!(builder_content_icon("hpp"), Some("text-x-c++src-symbolic"));
    assert_eq!(builder_content_icon("exe"), None);
    assert!(is_directory_name("node_modules"));
    assert!(!is_directory_name("Node_modules"));
}

#[test]
fn icon_depends_on_lowered_last_segment() {
    for name in ["README.MD", "Cargo.TOML", "main.RS", "Makefile", "src", "ChangeLog", ".GitIgnore", "x"] {
        let icon = for_path(name, GENERIC);
        assert_eq!(for_path(&name.to_ascii_lowercase(), GENERIC), icon, "{name}");
        assert_eq!(for_path(&format!("some/dir/{name}"), GENERIC), icon, "{name}");
        assert_eq!(for_path(&format!("/{name}"), GENERIC), icon, "{name}");
    }
}
