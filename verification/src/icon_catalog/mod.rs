//! Icon choice for the entries of a file tree, by name and extension.
pub mod icons;

use vstd::prelude::*;
use crate::text::{
    ascii_lower, last_index_of, lemma_last_index_of, find_last_char, list_contains, starts_with,
    str_eq, str_starts_with, str_texts, suffix_after, to_ascii_lowercase,
};
use self::icons::{CHANGELOG, COPYING, FOLDER, MAINTAINERS, MAKEFILE, MARKDOWN, README, VCS_GIT};

verus! {

/// The last `/`-separated part of a path.
pub open spec fn basename_of(path: Seq<char>) -> Seq<char> {
    match last_index_of(path, '/') {
        Some(i) => path.subrange(i + 1, path.len() as int),
        None => path,
    }
}

/// The last `/`-separated part of a path.
pub fn basename(path_or_name: &str) -> (r: &str)
    ensures
        r@ == basename_of(path_or_name@),
{
    match find_last_char(path_or_name, '/') {
        Some(i) => {
            proof {
                lemma_last_index_of(path_or_name@, '/');
            }
            suffix_after(path_or_name, i)
        },
        None => path_or_name,
    }
}

/// What follows the last `.` of a name, if it has one.
pub open spec fn extension_of(name: Seq<char>) -> Option<Seq<char>> {
    match last_index_of(name, '.') {
        Some(i) => Some(name.subrange(i + 1, name.len() as int)),
        None => None,
    }
}

/// What follows the last `.` of a name, if it has one.
pub fn extension(lower_name: &str) -> (r: Option<&str>)
    ensures
        match r {
            Some(e) => extension_of(lower_name@) == Some(e@),
            None => extension_of(lower_name@) is None,
        },
{
    match find_last_char(lower_name, '.') {
        Some(i) => {
            proof {
                lemma_last_index_of(lower_name@, '.');
            }
            Some(suffix_after(lower_name, i))
        },
        None => None,
    }
}

/// Names of build files, in lower case.
pub open spec fn build_file_names() -> Seq<Seq<char>> {
    seq!["build.ninja"@, "build.gradle"@, "cmakelists.txt"@, "containerfile"@, "configure"@, "dockerfile"@, "go.mod"@, "makefile"@, "meson.build"@, "meson.options"@, "package.json"@, "pom.xml"@, "pyproject.toml"@, "requirements.txt"@, "sketch.yaml"@, "sketch.yml"@, "wscript"@]
}

fn build_file_list() -> (r: Vec<&'static str>)
    ensures
        str_texts(r@) == build_file_names(),
{
    let r = vec!["build.ninja", "build.gradle", "cmakelists.txt", "containerfile", "configure", "dockerfile", "go.mod", "makefile", "meson.build", "meson.options", "package.json", "pom.xml", "pyproject.toml", "requirements.txt", "sketch.yaml", "sketch.yml", "wscript"];
    assert(str_texts(r@) =~= build_file_names());
    r
}

/// Names of directories that get the folder icon, in lower case.
pub open spec fn directory_names() -> Seq<Seq<char>> {
    seq!["build"@, "builddir"@, "cargo-home"@, "data"@, "debug"@, "deps"@, "dist"@, "icons"@, "images"@, "meson-info"@, "meson-logs"@, "meson-private"@, "node_modules"@, "po"@, "registry"@, "release"@, "src"@, "target"@, "vendor"@]
}

/// Whether a lower-case name is one of the known directory names.
pub fn is_directory_name(lower_name: &str) -> (r: bool)
    ensures
        r == directory_names().contains(lower_name@),
{
    let r = vec!["build", "builddir", "cargo-home", "data", "debug", "deps", "dist", "icons", "images", "meson-info", "meson-logs", "meson-private", "node_modules", "po", "registry", "release", "src", "target", "vendor"];
    assert(str_texts(r@) =~= directory_names());
    list_contains(&r, lower_name)
}

/// The icon of a whole file name (lower case), if it has one of its own.
pub open spec fn full_filename_icon(lower: Seq<char>) -> Option<Seq<char>> {
    if lower == ".editorconfig"@ {
        Some("format-indent-more-symbolic"@)
    } else if lower == ".gitattributes"@ {
        Some("builder-vcs-git-symbolic"@)
    } else if lower == ".gitignore"@ {
        Some("builder-vcs-git-symbolic"@)
    } else if lower == ".gitmodules"@ {
        Some("builder-vcs-git-symbolic"@)
    } else {
        None
    }
}

fn full_filename_icon_of(lower: &str) -> (r: Option<&'static str>)
    ensures
        match r {
            Some(i) => full_filename_icon(lower@) == Some(i@),
            None => full_filename_icon(lower@) is None,
        },
{
    proof {
        reveal_strlit(".editorconfig");
        reveal_strlit(".gitattributes");
        reveal_strlit(".gitignore");
        reveal_strlit(".gitmodules");
    }
    if str_eq(lower, ".editorconfig") {
        Some("format-indent-more-symbolic")
    } else if str_eq(lower, ".gitattributes") {
        Some(VCS_GIT)
    } else if str_eq(lower, ".gitignore") {
        Some(VCS_GIT)
    } else if str_eq(lower, ".gitmodules") {
        Some(VCS_GIT)
    } else {
        None
    }
}

/// The icon that the start of a name (lower-cased) selects, if any.
pub open spec fn prefix_icon(name: Seq<char>) -> Option<Seq<char>> {
    let lower = ascii_lower(name);
    if starts_with(lower, "readme"@) {
        Some("text-x-readme-symbolic"@)
    } else if starts_with(lower, "news"@) || starts_with(lower, "changelog"@) {
        Some("text-x-changelog-symbolic"@)
    } else if starts_with(lower, "copying"@) || starts_with(lower, "license"@) {
        Some("text-x-copying-symbolic"@)
    } else if starts_with(lower, "authors"@) || starts_with(lower, "maintainers"@) {
        Some("text-x-authors-symbolic"@)
    } else if starts_with(lower, "dockerfile"@) || starts_with(lower, "containerfile"@) {
        Some("text-makefile-symbolic"@)
    } else {
        None
    }
}

/// The icon that the start of a name (lower-cased) selects, if any.
pub fn builder_prefix_icon(name: &str) -> (r: Option<&'static str>)
    ensures
        match r {
            Some(i) => prefix_icon(name@) == Some(i@),
            None => prefix_icon(name@) is None,
        },
{
    let lower = to_ascii_lowercase(name);
    let l = lower.as_str();
    if str_starts_with(l, "readme") {
        Some(README)
    } else if str_starts_with(l, "news") || str_starts_with(l, "changelog") {
        Some(CHANGELOG)
    } else if str_starts_with(l, "copying") || str_starts_with(l, "license") {
        Some(COPYING)
    } else if str_starts_with(l, "authors") || str_starts_with(l, "maintainers") {
        Some(MAINTAINERS)
    } else if str_starts_with(l, "dockerfile") || str_starts_with(l, "containerfile") {
        Some(MAKEFILE)
    } else {
        None
    }
}

/// The icon for a file's content, by its extension.
pub open spec fn content_icon(ext: Seq<char>) -> Option<Seq<char>> {
    if ext == "blp"@ {
        Some("text-x-blueprint-symbolic"@)
    } else if ext == "c"@ {
        Some("text-x-csrc-symbolic"@)
    } else if ext == "cc"@ || ext == "cpp"@ || ext == "cxx"@ {
        Some("text-x-c++src-symbolic"@)
    } else if ext == "cmake"@ {
        Some("text-makefile-symbolic"@)
    } else if ext == "css"@ || ext == "scss"@ {
        Some("text-css-symbolic"@)
    } else if ext == "go"@ {
        Some("text-x-go-symbolic"@)
    } else if ext == "h"@ {
        Some("text-x-chdr-symbolic"@)
    } else if ext == "hpp"@ || ext == "hxx"@ {
        Some("text-x-c++src-symbolic"@)
    } else if ext == "html"@ || ext == "htm"@ {
        Some("text-html-symbolic"@)
    } else if ext == "ino"@ {
        Some("text-arduino-symbolic"@)
    } else if ext == "js"@ || ext == "jsx"@ || ext == "json"@ || ext == "ts"@ || ext == "tsx"@ {
        Some("text-x-javascript-symbolic"@)
    } else if ext == "md"@ || ext == "markdown"@ {
        Some("text-markdown-symbolic"@)
    } else if ext == "php"@ {
        Some("application-x-php-symbolic"@)
    } else if ext == "py"@ || ext == "py3"@ || ext == "pyw"@ {
        Some("text-x-python-symbolic"@)
    } else if ext == "rb"@ {
        Some("text-x-ruby-symbolic"@)
    } else if ext == "rs"@ {
        Some("text-rust-symbolic"@)
    } else if ext == "sh"@ || ext == "bash"@ || ext == "zsh"@ || ext == "fish"@ {
        Some("text-x-script-symbolic"@)
    } else if ext == "sql"@ {
        Some("text-sql-symbolic"@)
    } else if ext == "swift"@ {
        Some("text-swift-symbolic"@)
    } else if ext == "ui"@ || ext == "xml"@ {
        Some("text-xml-symbolic"@)
    } else if ext == "vala"@ || ext == "vapi"@ {
        Some("text-x-vala-symbolic"@)
    } else {
        None
    }
}

/// The icon for a file's content, by its extension.
pub fn builder_content_icon(ext: &str) -> (r: Option<&'static str>)
    ensures
        match r {
            Some(i) => content_icon(ext@) == Some(i@),
            None => content_icon(ext@) is None,
        },
{
    proof {
        reveal_strlit("blp");
        reveal_strlit("c");
        reveal_strlit("cc");
        reveal_strlit("cpp");
        reveal_strlit("cxx");
        reveal_strlit("cmake");
        reveal_strlit("css");
        reveal_strlit("scss");
        reveal_strlit("go");
        reveal_strlit("h");
        reveal_strlit("hpp");
        reveal_strlit("hxx");
        reveal_strlit("html");
        reveal_strlit("htm");
        reveal_strlit("ino");
        reveal_strlit("js");
        reveal_strlit("jsx");
        reveal_strlit("json");
        reveal_strlit("ts");
        reveal_strlit("tsx");
        reveal_strlit("md");
        reveal_strlit("markdown");
        reveal_strlit("php");
        reveal_strlit("py");
        reveal_strlit("py3");
        reveal_strlit("pyw");
        reveal_strlit("rb");
        reveal_strlit("rs");
        reveal_strlit("sh");
        reveal_strlit("bash");
        reveal_strlit("zsh");
        reveal_strlit("fish");
        reveal_strlit("sql");
        reveal_strlit("swift");
        reveal_strlit("ui");
        reveal_strlit("xml");
        reveal_strlit("vala");
        reveal_strlit("vapi");
    }
    if str_eq(ext, "blp") {
        Some("text-x-blueprint-symbolic")
    } else if str_eq(ext, "c") {
        Some("text-x-csrc-symbolic")
    } else if str_eq(ext, "cc") || str_eq(ext, "cpp") || str_eq(ext, "cxx") {
        Some("text-x-c++src-symbolic")
    } else if str_eq(ext, "cmake") {
        Some(MAKEFILE)
    } else if str_eq(ext, "css") || str_eq(ext, "scss") {
        Some("text-css-symbolic")
    } else if str_eq(ext, "go") {
        Some("text-x-go-symbolic")
    } else if str_eq(ext, "h") {
        Some("text-x-chdr-symbolic")
    } else if str_eq(ext, "hpp") || str_eq(ext, "hxx") {
        Some("text-x-c++src-symbolic")
    } else if str_eq(ext, "html") || str_eq(ext, "htm") {
        Some("text-html-symbolic")
    } else if str_eq(ext, "ino") {
        Some("text-arduino-symbolic")
    } else if str_eq(ext, "js") || str_eq(ext, "jsx") || str_eq(ext, "json") || str_eq(ext, "ts") || str_eq(ext, "tsx") {
        Some("text-x-javascript-symbolic")
    } else if str_eq(ext, "md") || str_eq(ext, "markdown") {
        Some(MARKDOWN)
    } else if str_eq(ext, "php") {
        Some("application-x-php-symbolic")
    } else if str_eq(ext, "py") || str_eq(ext, "py3") || str_eq(ext, "pyw") {
        Some("text-x-python-symbolic")
    } else if str_eq(ext, "rb") {
        Some("text-x-ruby-symbolic")
    } else if str_eq(ext, "rs") {
        Some("text-rust-symbolic")
    } else if str_eq(ext, "sh") || str_eq(ext, "bash") || str_eq(ext, "zsh") || str_eq(ext, "fish") {
        Some("text-x-script-symbolic")
    } else if str_eq(ext, "sql") {
        Some("text-sql-symbolic")
    } else if str_eq(ext, "swift") {
        Some("text-swift-symbolic")
    } else if str_eq(ext, "ui") || str_eq(ext, "xml") {
        Some("text-xml-symbolic")
    } else if str_eq(ext, "vala") || str_eq(ext, "vapi") {
        Some("text-x-vala-symbolic")
    } else {
        None
    }
}

/// The icon for an entry of a file tree: known directory names (or a folder
/// fallback) get the folder icon; then the start of the name, the whole name,
/// build-file names and the extension decide, in that order; otherwise the
/// fallback.
pub open spec fn icon_for_path(path: Seq<char>, fallback: Seq<char>) -> Seq<char> {
    let name = basename_of(path);
    let lower = ascii_lower(name);
    if directory_names().contains(lower) || fallback == "folder-symbolic"@ {
        "folder-symbolic"@
    } else if prefix_icon(name) is Some {
        prefix_icon(name)->Some_0
    } else if full_filename_icon(lower) is Some {
        full_filename_icon(lower)->Some_0
    } else if build_file_names().contains(lower) {
        "text-makefile-symbolic"@
    } else {
        match extension_of(lower) {
            Some(ext) => match content_icon(ext) {
                Some(icon) => icon,
                None => fallback,
            },
            None => fallback,
        }
    }
}

/// The icon for an entry of a file tree.
#[verifier::rlimit(50)]
pub fn for_path(path_or_name: &str, fallback_icon: &'static str) -> (r: &'static str)
    ensures
        r@ == icon_for_path(path_or_name@, fallback_icon@),
{
    proof {
        reveal_strlit("text-x-changelog-symbolic");
        reveal_strlit("text-x-copying-symbolic");
        reveal_strlit("folder-symbolic");
        reveal_strlit("text-makefile-symbolic");
        reveal_strlit("text-x-authors-symbolic");
        reveal_strlit("text-markdown-symbolic");
        reveal_strlit("text-x-readme-symbolic");
        reveal_strlit("builder-vcs-git-symbolic");
    }
    let name = basename(path_or_name);
    let lower = to_ascii_lowercase(name);
    if is_directory_name(lower.as_str()) || str_eq(fallback_icon, FOLDER) {
        return FOLDER;
    }
    match builder_prefix_icon(name) {
        Some(icon) => {
            return icon;
        },
        None => {},
    }
    match full_filename_icon_of(lower.as_str()) {
        Some(icon) => {
            return icon;
        },
        None => {},
    }
    if list_contains(&build_file_list(), lower.as_str()) {
        return MAKEFILE;
    }
    match extension(lower.as_str()) {
        Some(ext) => match builder_content_icon(ext) {
            Some(icon) => icon,
            None => fallback_icon,
        },
        None => fallback_icon,
    }
}

proof fn lemma_lower_keeps_slashes(p: Seq<char>)
    ensures
        last_index_of(ascii_lower(p), '/') == last_index_of(p, '/'),
    decreases p.len(),
{
    if p.len() > 0 {
        assert(ascii_lower(p).drop_last() =~= ascii_lower(p.drop_last()));
        lemma_lower_keeps_slashes(p.drop_last());
    }
}

proof fn lemma_basename_of_lower(p: Seq<char>)
    ensures
        basename_of(ascii_lower(p)) == ascii_lower(basename_of(p)),
{
    lemma_lower_keeps_slashes(p);
    lemma_last_index_of(p, '/');
    match last_index_of(p, '/') {
        Some(i) => {
            assert(ascii_lower(p).subrange(i + 1, p.len() as int) =~= ascii_lower(p.subrange(i + 1, p.len() as int)));
        },
        None => {},
    }
}

proof fn lemma_lower_twice(s: Seq<char>)
    ensures
        ascii_lower(ascii_lower(s)) == ascii_lower(s),
{
    assert(ascii_lower(ascii_lower(s)) =~= ascii_lower(s));
}

proof fn lemma_last_slash_after_dir(dir: Seq<char>, p: Seq<char>)
    ensures
        last_index_of(dir + seq!['/'] + p, '/') == match last_index_of(p, '/') {
            Some(i) => Some(dir.len() + 1 + i),
            None => Some(dir.len() as int),
        },
    decreases p.len(),
{
    let q = dir + seq!['/'] + p;
    if p.len() == 0 {
        assert(q =~= dir.push('/'));
    } else {
        assert(q.drop_last() =~= dir + seq!['/'] + p.drop_last());
        assert(q.last() == p.last());
        lemma_last_slash_after_dir(dir, p.drop_last());
    }
}

proof fn lemma_basename_after_dir(dir: Seq<char>, p: Seq<char>)
    ensures
        basename_of(dir + seq!['/'] + p) == basename_of(p),
{
    let q = dir + seq!['/'] + p;
    lemma_last_slash_after_dir(dir, p);
    lemma_last_index_of(p, '/');
    match last_index_of(p, '/') {
        Some(i) => {
            assert(q.subrange(dir.len() + 1 + i + 1, q.len() as int) =~= p.subrange(i + 1, p.len() as int));
        },
        None => {
            assert(q.subrange(dir.len() + 1int, q.len() as int) =~= p);
        },
    }
}

/// The icon of an entry depends on the ASCII lower case of the last part of
/// its path alone: lower-casing the path, or putting it in a directory,
/// gives the same icon.
pub proof fn lemma_icon_by_lowered_name(path: Seq<char>, dir: Seq<char>, fallback: Seq<char>)
    ensures
        icon_for_path(ascii_lower(path), fallback) == icon_for_path(path, fallback),
        icon_for_path(dir + "/"@ + path, fallback) == icon_for_path(path, fallback),
{
    reveal_strlit("/");
    assert("/"@ =~= seq!['/']);
    lemma_basename_after_dir(dir, path);
    let name = basename_of(path);
    lemma_basename_of_lower(path);
    lemma_lower_twice(name);
}

proof fn lemma_build_icon_0(path: Seq<char>, fallback: Seq<char>)
    requires
        ascii_lower(basename_of(path)) == "build.ninja"@,
    ensures
        icon_for_path(path, fallback) == (if fallback == "folder-symbolic"@ {
            "folder-symbolic"@
        } else {
            "text-makefile-symbolic"@
        }),
{
    reveal_strlit(".editorconfig");
    assert(".editorconfig"@.len() == 13);
    reveal_strlit(".gitattributes");
    assert(".gitattributes"@.len() == 14);
    reveal_strlit(".gitignore");
    assert(".gitignore"@.len() == 10);
    reveal_strlit(".gitmodules");
    assert(".gitmodules"@.len() == 11);
    reveal_strlit("authors");
    assert("authors"@.len() == 7);
    reveal_strlit("build");
    assert("build"@.len() == 5);
    reveal_strlit("build.ninja");
    assert("build.ninja"@.len() == 11);
    reveal_strlit("builddir");
    assert("builddir"@.len() == 8);
    reveal_strlit("cargo-home");
    assert("cargo-home"@.len() == 10);
    reveal_strlit("changelog");
    assert("changelog"@.len() == 9);
    reveal_strlit("containerfile");
    assert("containerfile"@.len() == 13);
    reveal_strlit("copying");
    assert("copying"@.len() == 7);
    reveal_strlit("data");
    assert("data"@.len() == 4);
    reveal_strlit("debug");
    assert("debug"@.len() == 5);
    reveal_strlit("deps");
    assert("deps"@.len() == 4);
    reveal_strlit("dist");
    assert("dist"@.len() == 4);
    reveal_strlit("dockerfile");
    assert("dockerfile"@.len() == 10);
    reveal_strlit("icons");
    assert("icons"@.len() == 5);
    reveal_strlit("images");
    assert("images"@.len() == 6);
    reveal_strlit("license");
    assert("license"@.len() == 7);
    reveal_strlit("maintainers");
    assert("maintainers"@.len() == 11);
    reveal_strlit("meson-info");
    assert("meson-info"@.len() == 10);
    reveal_strlit("meson-logs");
    assert("meson-logs"@.len() == 10);
    reveal_strlit("meson-private");
    assert("meson-private"@.len() == 13);
    reveal_strlit("news");
    assert("news"@.len() == 4);
    reveal_strlit("node_modules");
    assert("node_modules"@.len() == 12);
    reveal_strlit("po");
    assert("po"@.len() == 2);
    reveal_strlit("readme");
    assert("readme"@.len() == 6);
    reveal_strlit("registry");
    assert("registry"@.len() == 8);
    reveal_strlit("release");
    assert("release"@.len() == 7);
    reveal_strlit("src");
    assert("src"@.len() == 3);
    reveal_strlit("target");
    assert("target"@.len() == 6);
    reveal_strlit("vendor");
    assert("vendor"@.len() == 6);
    assert("build.ninja"@[0] != ".gitmodules"@[0]);
    assert("build.ninja"@.subrange(0, 6)[0] != "readme"@[0]);
    assert("build.ninja"@.subrange(0, 4)[0] != "news"@[0]);
    assert("build.ninja"@.subrange(0, 9)[0] != "changelog"@[0]);
    assert("build.ninja"@.subrange(0, 7)[0] != "copying"@[0]);
    assert("build.ninja"@.subrange(0, 7)[0] != "license"@[0]);
    assert("build.ninja"@.subrange(0, 7)[0] != "authors"@[0]);
    assert("build.ninja"@.subrange(0, 11)[0] != "maintainers"@[0]);
    assert("build.ninja"@.subrange(0, 10)[0] != "dockerfile"@[0]);
    assert(build_file_names()[0] == "build.ninja"@);
}

proof fn lemma_build_icon_1(path: Seq<char>, fallback: Seq<char>)
    requires
        ascii_lower(basename_of(path)) == "build.gradle"@,
    ensures
        icon_for_path(path, fallback) == (if fallback == "folder-symbolic"@ {
            "folder-symbolic"@
        } else {
            "text-makefile-symbolic"@
        }),
{
    reveal_strlit(".editorconfig");
    assert(".editorconfig"@.len() == 13);
    reveal_strlit(".gitattributes");
    assert(".gitattributes"@.len() == 14);
    reveal_strlit(".gitignore");
    assert(".gitignore"@.len() == 10);
    reveal_strlit(".gitmodules");
    assert(".gitmodules"@.len() == 11);
    reveal_strlit("authors");
    assert("authors"@.len() == 7);
    reveal_strlit("build");
    assert("build"@.len() == 5);
    reveal_strlit("build.gradle");
    assert("build.gradle"@.len() == 12);
    reveal_strlit("builddir");
    assert("builddir"@.len() == 8);
    reveal_strlit("cargo-home");
    assert("cargo-home"@.len() == 10);
    reveal_strlit("changelog");
    assert("changelog"@.len() == 9);
    reveal_strlit("containerfile");
    assert("containerfile"@.len() == 13);
    reveal_strlit("copying");
    assert("copying"@.len() == 7);
    reveal_strlit("data");
    assert("data"@.len() == 4);
    reveal_strlit("debug");
    assert("debug"@.len() == 5);
    reveal_strlit("deps");
    assert("deps"@.len() == 4);
    reveal_strlit("dist");
    assert("dist"@.len() == 4);
    reveal_strlit("dockerfile");
    assert("dockerfile"@.len() == 10);
    reveal_strlit("icons");
    assert("icons"@.len() == 5);
    reveal_strlit("images");
    assert("images"@.len() == 6);
    reveal_strlit("license");
    assert("license"@.len() == 7);
    reveal_strlit("maintainers");
    assert("maintainers"@.len() == 11);
    reveal_strlit("meson-info");
    assert("meson-info"@.len() == 10);
    reveal_strlit("meson-logs");
    assert("meson-logs"@.len() == 10);
    reveal_strlit("meson-private");
    assert("meson-private"@.len() == 13);
    reveal_strlit("news");
    assert("news"@.len() == 4);
    reveal_strlit("node_modules");
    assert("node_modules"@.len() == 12);
    reveal_strlit("po");
    assert("po"@.len() == 2);
    reveal_strlit("readme");
    assert("readme"@.len() == 6);
    reveal_strlit("registry");
    assert("registry"@.len() == 8);
    reveal_strlit("release");
    assert("release"@.len() == 7);
    reveal_strlit("src");
    assert("src"@.len() == 3);
    reveal_strlit("target");
    assert("target"@.len() == 6);
    reveal_strlit("vendor");
    assert("vendor"@.len() == 6);
    assert("build.gradle"@[0] != "node_modules"@[0]);
    assert("build.gradle"@.subrange(0, 6)[0] != "readme"@[0]);
    assert("build.gradle"@.subrange(0, 4)[0] != "news"@[0]);
    assert("build.gradle"@.subrange(0, 9)[0] != "changelog"@[0]);
    assert("build.gradle"@.subrange(0, 7)[0] != "copying"@[0]);
    assert("build.gradle"@.subrange(0, 7)[0] != "license"@[0]);
    assert("build.gradle"@.subrange(0, 7)[0] != "authors"@[0]);
    assert("build.gradle"@.subrange(0, 11)[0] != "maintainers"@[0]);
    assert("build.gradle"@.subrange(0, 10)[0] != "dockerfile"@[0]);
    assert(build_file_names()[1] == "build.gradle"@);
}

proof fn lemma_build_icon_2(path: Seq<char>, fallback: Seq<char>)
    requires
        ascii_lower(basename_of(path)) == "cmakelists.txt"@,
    ensures
        icon_for_path(path, fallback) == (if fallback == "folder-symbolic"@ {
            "folder-symbolic"@
        } else {
            "text-makefile-symbolic"@
        }),
{
    reveal_strlit(".editorconfig");
    assert(".editorconfig"@.len() == 13);
    reveal_strlit(".gitattributes");
    assert(".gitattributes"@.len() == 14);
    reveal_strlit(".gitignore");
    assert(".gitignore"@.len() == 10);
    reveal_strlit(".gitmodules");
    assert(".gitmodules"@.len() == 11);
    reveal_strlit("authors");
    assert("authors"@.len() == 7);
    reveal_strlit("build");
    assert("build"@.len() == 5);
    reveal_strlit("builddir");
    assert("builddir"@.len() == 8);
    reveal_strlit("cargo-home");
    assert("cargo-home"@.len() == 10);
    reveal_strlit("changelog");
    assert("changelog"@.len() == 9);
    reveal_strlit("cmakelists.txt");
    assert("cmakelists.txt"@.len() == 14);
    reveal_strlit("containerfile");
    assert("containerfile"@.len() == 13);
    reveal_strlit("copying");
    assert("copying"@.len() == 7);
    reveal_strlit("data");
    assert("data"@.len() == 4);
    reveal_strlit("debug");
    assert("debug"@.len() == 5);
    reveal_strlit("deps");
    assert("deps"@.len() == 4);
    reveal_strlit("dist");
    assert("dist"@.len() == 4);
    reveal_strlit("dockerfile");
    assert("dockerfile"@.len() == 10);
    reveal_strlit("icons");
    assert("icons"@.len() == 5);
    reveal_strlit("images");
    assert("images"@.len() == 6);
    reveal_strlit("license");
    assert("license"@.len() == 7);
    reveal_strlit("maintainers");
    assert("maintainers"@.len() == 11);
    reveal_strlit("meson-info");
    assert("meson-info"@.len() == 10);
    reveal_strlit("meson-logs");
    assert("meson-logs"@.len() == 10);
    reveal_strlit("meson-private");
    assert("meson-private"@.len() == 13);
    reveal_strlit("news");
    assert("news"@.len() == 4);
    reveal_strlit("node_modules");
    assert("node_modules"@.len() == 12);
    reveal_strlit("po");
    assert("po"@.len() == 2);
    reveal_strlit("readme");
    assert("readme"@.len() == 6);
    reveal_strlit("registry");
    assert("registry"@.len() == 8);
    reveal_strlit("release");
    assert("release"@.len() == 7);
    reveal_strlit("src");
    assert("src"@.len() == 3);
    reveal_strlit("target");
    assert("target"@.len() == 6);
    reveal_strlit("vendor");
    assert("vendor"@.len() == 6);
    assert("cmakelists.txt"@[0] != ".gitattributes"@[0]);
    assert("cmakelists.txt"@.subrange(0, 6)[0] != "readme"@[0]);
    assert("cmakelists.txt"@.subrange(0, 4)[0] != "news"@[0]);
    assert("cmakelists.txt"@.subrange(0, 9)[1] != "changelog"@[1]);
    assert("cmakelists.txt"@.subrange(0, 7)[1] != "copying"@[1]);
    assert("cmakelists.txt"@.subrange(0, 7)[0] != "license"@[0]);
    assert("cmakelists.txt"@.subrange(0, 7)[0] != "authors"@[0]);
    assert("cmakelists.txt"@.subrange(0, 11)[0] != "maintainers"@[0]);
    assert("cmakelists.txt"@.subrange(0, 10)[0] != "dockerfile"@[0]);
    assert("cmakelists.txt"@.subrange(0, 13)[1] != "containerfile"@[1]);
    assert(build_file_names()[2] == "cmakelists.txt"@);
}

proof fn lemma_build_icon_3(path: Seq<char>, fallback: Seq<char>)
    requires
        ascii_lower(basename_of(path)) == "containerfile"@,
    ensures
        icon_for_path(path, fallback) == (if fallback == "folder-symbolic"@ {
            "folder-symbolic"@
        } else {
            "text-makefile-symbolic"@
        }),
{
    reveal_strlit(".editorconfig");
    assert(".editorconfig"@.len() == 13);
    reveal_strlit(".gitattributes");
    assert(".gitattributes"@.len() == 14);
    reveal_strlit(".gitignore");
    assert(".gitignore"@.len() == 10);
    reveal_strlit(".gitmodules");
    assert(".gitmodules"@.len() == 11);
    reveal_strlit("authors");
    assert("authors"@.len() == 7);
    reveal_strlit("build");
    assert("build"@.len() == 5);
    reveal_strlit("builddir");
    assert("builddir"@.len() == 8);
    reveal_strlit("cargo-home");
    assert("cargo-home"@.len() == 10);
    reveal_strlit("changelog");
    assert("changelog"@.len() == 9);
    reveal_strlit("containerfile");
    assert("containerfile"@.len() == 13);
    reveal_strlit("copying");
    assert("copying"@.len() == 7);
    reveal_strlit("data");
    assert("data"@.len() == 4);
    reveal_strlit("debug");
    assert("debug"@.len() == 5);
    reveal_strlit("deps");
    assert("deps"@.len() == 4);
    reveal_strlit("dist");
    assert("dist"@.len() == 4);
    reveal_strlit("dockerfile");
    assert("dockerfile"@.len() == 10);
    reveal_strlit("icons");
    assert("icons"@.len() == 5);
    reveal_strlit("images");
    assert("images"@.len() == 6);
    reveal_strlit("license");
    assert("license"@.len() == 7);
    reveal_strlit("maintainers");
    assert("maintainers"@.len() == 11);
    reveal_strlit("meson-info");
    assert("meson-info"@.len() == 10);
    reveal_strlit("meson-logs");
    assert("meson-logs"@.len() == 10);
    reveal_strlit("meson-private");
    assert("meson-private"@.len() == 13);
    reveal_strlit("news");
    assert("news"@.len() == 4);
    reveal_strlit("node_modules");
    assert("node_modules"@.len() == 12);
    reveal_strlit("po");
    assert("po"@.len() == 2);
    reveal_strlit("readme");
    assert("readme"@.len() == 6);
    reveal_strlit("registry");
    assert("registry"@.len() == 8);
    reveal_strlit("release");
    assert("release"@.len() == 7);
    reveal_strlit("src");
    assert("src"@.len() == 3);
    reveal_strlit("target");
    assert("target"@.len() == 6);
    reveal_strlit("vendor");
    assert("vendor"@.len() == 6);
    assert("containerfile"@[0] != "meson-private"@[0]);
    assert("containerfile"@[0] != ".editorconfig"@[0]);
    assert("containerfile"@.subrange(0, 6)[0] != "readme"@[0]);
    assert("containerfile"@.subrange(0, 4)[0] != "news"@[0]);
    assert("containerfile"@.subrange(0, 9)[1] != "changelog"@[1]);
    assert("containerfile"@.subrange(0, 7)[2] != "copying"@[2]);
    assert("containerfile"@.subrange(0, 7)[0] != "license"@[0]);
    assert("containerfile"@.subrange(0, 7)[0] != "authors"@[0]);
    assert("containerfile"@.subrange(0, 11)[0] != "maintainers"@[0]);
    assert("containerfile"@.subrange(0, 10)[0] != "dockerfile"@[0]);
    assert(build_file_names()[3] == "containerfile"@);
}

proof fn lemma_build_icon_4(path: Seq<char>, fallback: Seq<char>)
    requires
        ascii_lower(basename_of(path)) == "configure"@,
    ensures
        icon_for_path(path, fallback) == (if fallback == "folder-symbolic"@ {
            "folder-symbolic"@
        } else {
            "text-makefile-symbolic"@
        }),
{
    reveal_strlit(".editorconfig");
    assert(".editorconfig"@.len() == 13);
    reveal_strlit(".gitattributes");
    assert(".gitattributes"@.len() == 14);
    reveal_strlit(".gitignore");
    assert(".gitignore"@.len() == 10);
    reveal_strlit(".gitmodules");
    assert(".gitmodules"@.len() == 11);
    reveal_strlit("authors");
    assert("authors"@.len() == 7);
    reveal_strlit("build");
    assert("build"@.len() == 5);
    reveal_strlit("builddir");
    assert("builddir"@.len() == 8);
    reveal_strlit("cargo-home");
    assert("cargo-home"@.len() == 10);
    reveal_strlit("changelog");
    assert("changelog"@.len() == 9);
    reveal_strlit("configure");
    assert("configure"@.len() == 9);
    reveal_strlit("containerfile");
    assert("containerfile"@.len() == 13);
    reveal_strlit("copying");
    assert("copying"@.len() == 7);
    reveal_strlit("data");
    assert("data"@.len() == 4);
    reveal_strlit("debug");
    assert("debug"@.len() == 5);
    reveal_strlit("deps");
    assert("deps"@.len() == 4);
    reveal_strlit("dist");
    assert("dist"@.len() == 4);
    reveal_strlit("dockerfile");
    assert("dockerfile"@.len() == 10);
    reveal_strlit("icons");
    assert("icons"@.len() == 5);
    reveal_strlit("images");
    assert("images"@.len() == 6);
    reveal_strlit("license");
    assert("license"@.len() == 7);
    reveal_strlit("maintainers");
    assert("maintainers"@.len() == 11);
    reveal_strlit("meson-info");
    assert("meson-info"@.len() == 10);
    reveal_strlit("meson-logs");
    assert("meson-logs"@.len() == 10);
    reveal_strlit("meson-private");
    assert("meson-private"@.len() == 13);
    reveal_strlit("news");
    assert("news"@.len() == 4);
    reveal_strlit("node_modules");
    assert("node_modules"@.len() == 12);
    reveal_strlit("po");
    assert("po"@.len() == 2);
    reveal_strlit("readme");
    assert("readme"@.len() == 6);
    reveal_strlit("registry");
    assert("registry"@.len() == 8);
    reveal_strlit("release");
    assert("release"@.len() == 7);
    reveal_strlit("src");
    assert("src"@.len() == 3);
    reveal_strlit("target");
    assert("target"@.len() == 6);
    reveal_strlit("vendor");
    assert("vendor"@.len() == 6);
    assert("configure"@.subrange(0, 6)[0] != "readme"@[0]);
    assert("configure"@.subrange(0, 4)[0] != "news"@[0]);
    assert("configure"@.subrange(0, 9)[1] != "changelog"@[1]);
    assert("configure"@.subrange(0, 7)[2] != "copying"@[2]);
    assert("configure"@.subrange(0, 7)[0] != "license"@[0]);
    assert("configure"@.subrange(0, 7)[0] != "authors"@[0]);
    assert(build_file_names()[4] == "configure"@);
}

proof fn lemma_build_icon_5(path: Seq<char>, fallback: Seq<char>)
    requires
        ascii_lower(basename_of(path)) == "dockerfile"@,
    ensures
        icon_for_path(path, fallback) == (if fallback == "folder-symbolic"@ {
            "folder-symbolic"@
        } else {
            "text-makefile-symbolic"@
        }),
{
    reveal_strlit(".editorconfig");
    assert(".editorconfig"@.len() == 13);
    reveal_strlit(".gitattributes");
    assert(".gitattributes"@.len() == 14);
    reveal_strlit(".gitignore");
    assert(".gitignore"@.len() == 10);
    reveal_strlit(".gitmodules");
    assert(".gitmodules"@.len() == 11);
    reveal_strlit("authors");
    assert("authors"@.len() == 7);
    reveal_strlit("build");
    assert("build"@.len() == 5);
    reveal_strlit("builddir");
    assert("builddir"@.len() == 8);
    reveal_strlit("cargo-home");
    assert("cargo-home"@.len() == 10);
    reveal_strlit("changelog");
    assert("changelog"@.len() == 9);
    reveal_strlit("containerfile");
    assert("containerfile"@.len() == 13);
    reveal_strlit("copying");
    assert("copying"@.len() == 7);
    reveal_strlit("data");
    assert("data"@.len() == 4);
    reveal_strlit("debug");
    assert("debug"@.len() == 5);
    reveal_strlit("deps");
    assert("deps"@.len() == 4);
    reveal_strlit("dist");
    assert("dist"@.len() == 4);
    reveal_strlit("dockerfile");
    assert("dockerfile"@.len() == 10);
    reveal_strlit("icons");
    assert("icons"@.len() == 5);
    reveal_strlit("images");
    assert("images"@.len() == 6);
    reveal_strlit("license");
    assert("license"@.len() == 7);
    reveal_strlit("maintainers");
    assert("maintainers"@.len() == 11);
    reveal_strlit("meson-info");
    assert("meson-info"@.len() == 10);
    reveal_strlit("meson-logs");
    assert("meson-logs"@.len() == 10);
    reveal_strlit("meson-private");
    assert("meson-private"@.len() == 13);
    reveal_strlit("news");
    assert("news"@.len() == 4);
    reveal_strlit("node_modules");
    assert("node_modules"@.len() == 12);
    reveal_strlit("po");
    assert("po"@.len() == 2);
    reveal_strlit("readme");
    assert("readme"@.len() == 6);
    reveal_strlit("registry");
    assert("registry"@.len() == 8);
    reveal_strlit("release");
    assert("release"@.len() == 7);
    reveal_strlit("src");
    assert("src"@.len() == 3);
    reveal_strlit("target");
    assert("target"@.len() == 6);
    reveal_strlit("vendor");
    assert("vendor"@.len() == 6);
    assert("dockerfile"@[0] != "cargo-home"@[0]);
    assert("dockerfile"@[0] != "meson-info"@[0]);
    assert("dockerfile"@[0] != "meson-logs"@[0]);
    assert("dockerfile"@[0] != ".gitignore"@[0]);
    assert("dockerfile"@.subrange(0, 6)[0] != "readme"@[0]);
    assert("dockerfile"@.subrange(0, 4)[0] != "news"@[0]);
    assert("dockerfile"@.subrange(0, 9)[0] != "changelog"@[0]);
    assert("dockerfile"@.subrange(0, 7)[0] != "copying"@[0]);
    assert("dockerfile"@.subrange(0, 7)[0] != "license"@[0]);
    assert("dockerfile"@.subrange(0, 7)[0] != "authors"@[0]);
    assert(build_file_names()[5] == "dockerfile"@);
}

proof fn lemma_build_icon_6(path: Seq<char>, fallback: Seq<char>)
    requires
        ascii_lower(basename_of(path)) == "go.mod"@,
    ensures
        icon_for_path(path, fallback) == (if fallback == "folder-symbolic"@ {
            "folder-symbolic"@
        } else {
            "text-makefile-symbolic"@
        }),
{
    reveal_strlit(".editorconfig");
    assert(".editorconfig"@.len() == 13);
    reveal_strlit(".gitattributes");
    assert(".gitattributes"@.len() == 14);
    reveal_strlit(".gitignore");
    assert(".gitignore"@.len() == 10);
    reveal_strlit(".gitmodules");
    assert(".gitmodules"@.len() == 11);
    reveal_strlit("authors");
    assert("authors"@.len() == 7);
    reveal_strlit("build");
    assert("build"@.len() == 5);
    reveal_strlit("builddir");
    assert("builddir"@.len() == 8);
    reveal_strlit("cargo-home");
    assert("cargo-home"@.len() == 10);
    reveal_strlit("changelog");
    assert("changelog"@.len() == 9);
    reveal_strlit("containerfile");
    assert("containerfile"@.len() == 13);
    reveal_strlit("copying");
    assert("copying"@.len() == 7);
    reveal_strlit("data");
    assert("data"@.len() == 4);
    reveal_strlit("debug");
    assert("debug"@.len() == 5);
    reveal_strlit("deps");
    assert("deps"@.len() == 4);
    reveal_strlit("dist");
    assert("dist"@.len() == 4);
    reveal_strlit("dockerfile");
    assert("dockerfile"@.len() == 10);
    reveal_strlit("go.mod");
    assert("go.mod"@.len() == 6);
    reveal_strlit("icons");
    assert("icons"@.len() == 5);
    reveal_strlit("images");
    assert("images"@.len() == 6);
    reveal_strlit("license");
    assert("license"@.len() == 7);
    reveal_strlit("maintainers");
    assert("maintainers"@.len() == 11);
    reveal_strlit("meson-info");
    assert("meson-info"@.len() == 10);
    reveal_strlit("meson-logs");
    assert("meson-logs"@.len() == 10);
    reveal_strlit("meson-private");
    assert("meson-private"@.len() == 13);
    reveal_strlit("news");
    assert("news"@.len() == 4);
    reveal_strlit("node_modules");
    assert("node_modules"@.len() == 12);
    reveal_strlit("po");
    assert("po"@.len() == 2);
    reveal_strlit("readme");
    assert("readme"@.len() == 6);
    reveal_strlit("registry");
    assert("registry"@.len() == 8);
    reveal_strlit("release");
    assert("release"@.len() == 7);
    reveal_strlit("src");
    assert("src"@.len() == 3);
    reveal_strlit("target");
    assert("target"@.len() == 6);
    reveal_strlit("vendor");
    assert("vendor"@.len() == 6);
    assert("go.mod"@[0] != "images"@[0]);
    assert("go.mod"@[0] != "target"@[0]);
    assert("go.mod"@[0] != "vendor"@[0]);
    assert("go.mod"@.subrange(0, 6)[0] != "readme"@[0]);
    assert("go.mod"@.subrange(0, 4)[0] != "news"@[0]);
    assert(build_file_names()[6] == "go.mod"@);
}

proof fn lemma_build_icon_7(path: Seq<char>, fallback: Seq<char>)
    requires
        ascii_lower(basename_of(path)) == "makefile"@,
    ensures
        icon_for_path(path, fallback) == (if fallback == "folder-symbolic"@ {
            "folder-symbolic"@
        } else {
            "text-makefile-symbolic"@
        }),
{
    reveal_strlit(".editorconfig");
    assert(".editorconfig"@.len() == 13);
    reveal_strlit(".gitattributes");
    assert(".gitattributes"@.len() == 14);
    reveal_strlit(".gitignore");
    assert(".gitignore"@.len() == 10);
    reveal_strlit(".gitmodules");
    assert(".gitmodules"@.len() == 11);
    reveal_strlit("authors");
    assert("authors"@.len() == 7);
    reveal_strlit("build");
    assert("build"@.len() == 5);
    reveal_strlit("builddir");
    assert("builddir"@.len() == 8);
    reveal_strlit("cargo-home");
    assert("cargo-home"@.len() == 10);
    reveal_strlit("changelog");
    assert("changelog"@.len() == 9);
    reveal_strlit("containerfile");
    assert("containerfile"@.len() == 13);
    reveal_strlit("copying");
    assert("copying"@.len() == 7);
    reveal_strlit("data");
    assert("data"@.len() == 4);
    reveal_strlit("debug");
    assert("debug"@.len() == 5);
    reveal_strlit("deps");
    assert("deps"@.len() == 4);
    reveal_strlit("dist");
    assert("dist"@.len() == 4);
    reveal_strlit("dockerfile");
    assert("dockerfile"@.len() == 10);
    reveal_strlit("icons");
    assert("icons"@.len() == 5);
    reveal_strlit("images");
    assert("images"@.len() == 6);
    reveal_strlit("license");
    assert("license"@.len() == 7);
    reveal_strlit("maintainers");
    assert("maintainers"@.len() == 11);
    reveal_strlit("makefile");
    assert("makefile"@.len() == 8);
    reveal_strlit("meson-info");
    assert("meson-info"@.len() == 10);
    reveal_strlit("meson-logs");
    assert("meson-logs"@.len() == 10);
    reveal_strlit("meson-private");
    assert("meson-private"@.len() == 13);
    reveal_strlit("news");
    assert("news"@.len() == 4);
    reveal_strlit("node_modules");
    assert("node_modules"@.len() == 12);
    reveal_strlit("po");
    assert("po"@.len() == 2);
    reveal_strlit("readme");
    assert("readme"@.len() == 6);
    reveal_strlit("registry");
    assert("registry"@.len() == 8);
    reveal_strlit("release");
    assert("release"@.len() == 7);
    reveal_strlit("src");
    assert("src"@.len() == 3);
    reveal_strlit("target");
    assert("target"@.len() == 6);
    reveal_strlit("vendor");
    assert("vendor"@.len() == 6);
    assert("makefile"@[0] != "builddir"@[0]);
    assert("makefile"@[0] != "registry"@[0]);
    assert("makefile"@.subrange(0, 6)[0] != "readme"@[0]);
    assert("makefile"@.subrange(0, 4)[0] != "news"@[0]);
    assert("makefile"@.subrange(0, 7)[0] != "copying"@[0]);
    assert("makefile"@.subrange(0, 7)[0] != "license"@[0]);
    assert("makefile"@.subrange(0, 7)[0] != "authors"@[0]);
    assert(build_file_names()[7] == "makefile"@);
}

proof fn lemma_build_icon_8(path: Seq<char>, fallback: Seq<char>)
    requires
        ascii_lower(basename_of(path)) == "meson.build"@,
    ensures
        icon_for_path(path, fallback) == (if fallback == "folder-symbolic"@ {
            "folder-symbolic"@
        } else {
            "text-makefile-symbolic"@
        }),
{
    reveal_strlit(".editorconfig");
    assert(".editorconfig"@.len() == 13);
    reveal_strlit(".gitattributes");
    assert(".gitattributes"@.len() == 14);
    reveal_strlit(".gitignore");
    assert(".gitignore"@.len() == 10);
    reveal_strlit(".gitmodules");
    assert(".gitmodules"@.len() == 11);
    reveal_strlit("authors");
    assert("authors"@.len() == 7);
    reveal_strlit("build");
    assert("build"@.len() == 5);
    reveal_strlit("builddir");
    assert("builddir"@.len() == 8);
    reveal_strlit("cargo-home");
    assert("cargo-home"@.len() == 10);
    reveal_strlit("changelog");
    assert("changelog"@.len() == 9);
    reveal_strlit("containerfile");
    assert("containerfile"@.len() == 13);
    reveal_strlit("copying");
    assert("copying"@.len() == 7);
    reveal_strlit("data");
    assert("data"@.len() == 4);
    reveal_strlit("debug");
    assert("debug"@.len() == 5);
    reveal_strlit("deps");
    assert("deps"@.len() == 4);
    reveal_strlit("dist");
    assert("dist"@.len() == 4);
    reveal_strlit("dockerfile");
    assert("dockerfile"@.len() == 10);
    reveal_strlit("icons");
    assert("icons"@.len() == 5);
    reveal_strlit("images");
    assert("images"@.len() == 6);
    reveal_strlit("license");
    assert("license"@.len() == 7);
    reveal_strlit("maintainers");
    assert("maintainers"@.len() == 11);
    reveal_strlit("meson-info");
    assert("meson-info"@.len() == 10);
    reveal_strlit("meson-logs");
    assert("meson-logs"@.len() == 10);
    reveal_strlit("meson-private");
    assert("meson-private"@.len() == 13);
    reveal_strlit("meson.build");
    assert("meson.build"@.len() == 11);
    reveal_strlit("news");
    assert("news"@.len() == 4);
    reveal_strlit("node_modules");
    assert("node_modules"@.len() == 12);
    reveal_strlit("po");
    assert("po"@.len() == 2);
    reveal_strlit("readme");
    assert("readme"@.len() == 6);
    reveal_strlit("registry");
    assert("registry"@.len() == 8);
    reveal_strlit("release");
    assert("release"@.len() == 7);
    reveal_strlit("src");
    assert("src"@.len() == 3);
    reveal_strlit("target");
    assert("target"@.len() == 6);
    reveal_strlit("vendor");
    assert("vendor"@.len() == 6);
    assert("meson.build"@[0] != ".gitmodules"@[0]);
    assert("meson.build"@.subrange(0, 6)[0] != "readme"@[0]);
    assert("meson.build"@.subrange(0, 4)[0] != "news"@[0]);
    assert("meson.build"@.subrange(0, 9)[0] != "changelog"@[0]);
    assert("meson.build"@.subrange(0, 7)[0] != "copying"@[0]);
    assert("meson.build"@.subrange(0, 7)[0] != "license"@[0]);
    assert("meson.build"@.subrange(0, 7)[0] != "authors"@[0]);
    assert("meson.build"@.subrange(0, 11)[1] != "maintainers"@[1]);
    assert("meson.build"@.subrange(0, 10)[0] != "dockerfile"@[0]);
    assert(build_file_names()[8] == "meson.build"@);
}

proof fn lemma_build_icon_9(path: Seq<char>, fallback: Seq<char>)
    requires
        ascii_lower(basename_of(path)) == "meson.options"@,
    ensures
        icon_for_path(path, fallback) == (if fallback == "folder-symbolic"@ {
            "folder-symbolic"@
        } else {
            "text-makefile-symbolic"@
        }),
{
    reveal_strlit(".editorconfig");
    assert(".editorconfig"@.len() == 13);
    reveal_strlit(".gitattributes");
    assert(".gitattributes"@.len() == 14);
    reveal_strlit(".gitignore");
    assert(".gitignore"@.len() == 10);
    reveal_strlit(".gitmodules");
    assert(".gitmodules"@.len() == 11);
    reveal_strlit("authors");
    assert("authors"@.len() == 7);
    reveal_strlit("build");
    assert("build"@.len() == 5);
    reveal_strlit("builddir");
    assert("builddir"@.len() == 8);
    reveal_strlit("cargo-home");
    assert("cargo-home"@.len() == 10);
    reveal_strlit("changelog");
    assert("changelog"@.len() == 9);
    reveal_strlit("containerfile");
    assert("containerfile"@.len() == 13);
    reveal_strlit("copying");
    assert("copying"@.len() == 7);
    reveal_strlit("data");
    assert("data"@.len() == 4);
    reveal_strlit("debug");
    assert("debug"@.len() == 5);
    reveal_strlit("deps");
    assert("deps"@.len() == 4);
    reveal_strlit("dist");
    assert("dist"@.len() == 4);
    reveal_strlit("dockerfile");
    assert("dockerfile"@.len() == 10);
    reveal_strlit("icons");
    assert("icons"@.len() == 5);
    reveal_strlit("images");
    assert("images"@.len() == 6);
    reveal_strlit("license");
    assert("license"@.len() == 7);
    reveal_strlit("maintainers");
    assert("maintainers"@.len() == 11);
    reveal_strlit("meson-info");
    assert("meson-info"@.len() == 10);
    reveal_strlit("meson-logs");
    assert("meson-logs"@.len() == 10);
    reveal_strlit("meson-private");
    assert("meson-private"@.len() == 13);
    reveal_strlit("meson.options");
    assert("meson.options"@.len() == 13);
    reveal_strlit("news");
    assert("news"@.len() == 4);
    reveal_strlit("node_modules");
    assert("node_modules"@.len() == 12);
    reveal_strlit("po");
    assert("po"@.len() == 2);
    reveal_strlit("readme");
    assert("readme"@.len() == 6);
    reveal_strlit("registry");
    assert("registry"@.len() == 8);
    reveal_strlit("release");
    assert("release"@.len() == 7);
    reveal_strlit("src");
    assert("src"@.len() == 3);
    reveal_strlit("target");
    assert("target"@.len() == 6);
    reveal_strlit("vendor");
    assert("vendor"@.len() == 6);
    assert("meson.options"@[5] != "meson-private"@[5]);
    assert("meson.options"@[0] != ".editorconfig"@[0]);
    assert("meson.options"@.subrange(0, 6)[0] != "readme"@[0]);
    assert("meson.options"@.subrange(0, 4)[0] != "news"@[0]);
    assert("meson.options"@.subrange(0, 9)[0] != "changelog"@[0]);
    assert("meson.options"@.subrange(0, 7)[0] != "copying"@[0]);
    assert("meson.options"@.subrange(0, 7)[0] != "license"@[0]);
    assert("meson.options"@.subrange(0, 7)[0] != "authors"@[0]);
    assert("meson.options"@.subrange(0, 11)[1] != "maintainers"@[1]);
    assert("meson.options"@.subrange(0, 10)[0] != "dockerfile"@[0]);
    assert("meson.options"@.subrange(0, 13)[0] != "containerfile"@[0]);
    assert(build_file_names()[9] == "meson.options"@);
}

proof fn lemma_build_icon_10(path: Seq<char>, fallback: Seq<char>)
    requires
        ascii_lower(basename_of(path)) == "package.json"@,
    ensures
        icon_for_path(path, fallback) == (if fallback == "folder-symbolic"@ {
            "folder-symbolic"@
        } else {
            "text-makefile-symbolic"@
        }),
{
    reveal_strlit(".editorconfig");
    assert(".editorconfig"@.len() == 13);
    reveal_strlit(".gitattributes");
    assert(".gitattributes"@.len() == 14);
    reveal_strlit(".gitignore");
    assert(".gitignore"@.len() == 10);
    reveal_strlit(".gitmodules");
    assert(".gitmodules"@.len() == 11);
    reveal_strlit("authors");
    assert("authors"@.len() == 7);
    reveal_strlit("build");
    assert("build"@.len() == 5);
    reveal_strlit("builddir");
    assert("builddir"@.len() == 8);
    reveal_strlit("cargo-home");
    assert("cargo-home"@.len() == 10);
    reveal_strlit("changelog");
    assert("changelog"@.len() == 9);
    reveal_strlit("containerfile");
    assert("containerfile"@.len() == 13);
    reveal_strlit("copying");
    assert("copying"@.len() == 7);
    reveal_strlit("data");
    assert("data"@.len() == 4);
    reveal_strlit("debug");
    assert("debug"@.len() == 5);
    reveal_strlit("deps");
    assert("deps"@.len() == 4);
    reveal_strlit("dist");
    assert("dist"@.len() == 4);
    reveal_strlit("dockerfile");
    assert("dockerfile"@.len() == 10);
    reveal_strlit("icons");
    assert("icons"@.len() == 5);
    reveal_strlit("images");
    assert("images"@.len() == 6);
    reveal_strlit("license");
    assert("license"@.len() == 7);
    reveal_strlit("maintainers");
    assert("maintainers"@.len() == 11);
    reveal_strlit("meson-info");
    assert("meson-info"@.len() == 10);
    reveal_strlit("meson-logs");
    assert("meson-logs"@.len() == 10);
    reveal_strlit("meson-private");
    assert("meson-private"@.len() == 13);
    reveal_strlit("news");
    assert("news"@.len() == 4);
    reveal_strlit("node_modules");
    assert("node_modules"@.len() == 12);
    reveal_strlit("package.json");
    assert("package.json"@.len() == 12);
    reveal_strlit("po");
    assert("po"@.len() == 2);
    reveal_strlit("readme");
    assert("readme"@.len() == 6);
    reveal_strlit("registry");
    assert("registry"@.len() == 8);
    reveal_strlit("release");
    assert("release"@.len() == 7);
    reveal_strlit("src");
    assert("src"@.len() == 3);
    reveal_strlit("target");
    assert("target"@.len() == 6);
    reveal_strlit("vendor");
    assert("vendor"@.len() == 6);
    assert("package.json"@[0] != "node_modules"@[0]);
    assert("package.json"@.subrange(0, 6)[0] != "readme"@[0]);
    assert("package.json"@.subrange(0, 4)[0] != "news"@[0]);
    assert("package.json"@.subrange(0, 9)[0] != "changelog"@[0]);
    assert("package.json"@.subrange(0, 7)[0] != "copying"@[0]);
    assert("package.json"@.subrange(0, 7)[0] != "license"@[0]);
    assert("package.json"@.subrange(0, 7)[0] != "authors"@[0]);
    assert("package.json"@.subrange(0, 11)[0] != "maintainers"@[0]);
    assert("package.json"@.subrange(0, 10)[0] != "dockerfile"@[0]);
    assert(build_file_names()[10] == "package.json"@);
}

proof fn lemma_build_icon_11(path: Seq<char>, fallback: Seq<char>)
    requires
        ascii_lower(basename_of(path)) == "pom.xml"@,
    ensures
        icon_for_path(path, fallback) == (if fallback == "folder-symbolic"@ {
            "folder-symbolic"@
        } else {
            "text-makefile-symbolic"@
        }),
{
    reveal_strlit(".editorconfig");
    assert(".editorconfig"@.len() == 13);
    reveal_strlit(".gitattributes");
    assert(".gitattributes"@.len() == 14);
    reveal_strlit(".gitignore");
    assert(".gitignore"@.len() == 10);
    reveal_strlit(".gitmodules");
    assert(".gitmodules"@.len() == 11);
    reveal_strlit("authors");
    assert("authors"@.len() == 7);
    reveal_strlit("build");
    assert("build"@.len() == 5);
    reveal_strlit("builddir");
    assert("builddir"@.len() == 8);
    reveal_strlit("cargo-home");
    assert("cargo-home"@.len() == 10);
    reveal_strlit("changelog");
    assert("changelog"@.len() == 9);
    reveal_strlit("containerfile");
    assert("containerfile"@.len() == 13);
    reveal_strlit("copying");
    assert("copying"@.len() == 7);
    reveal_strlit("data");
    assert("data"@.len() == 4);
    reveal_strlit("debug");
    assert("debug"@.len() == 5);
    reveal_strlit("deps");
    assert("deps"@.len() == 4);
    reveal_strlit("dist");
    assert("dist"@.len() == 4);
    reveal_strlit("dockerfile");
    assert("dockerfile"@.len() == 10);
    reveal_strlit("icons");
    assert("icons"@.len() == 5);
    reveal_strlit("images");
    assert("images"@.len() == 6);
    reveal_strlit("license");
    assert("license"@.len() == 7);
    reveal_strlit("maintainers");
    assert("maintainers"@.len() == 11);
    reveal_strlit("meson-info");
    assert("meson-info"@.len() == 10);
    reveal_strlit("meson-logs");
    assert("meson-logs"@.len() == 10);
    reveal_strlit("meson-private");
    assert("meson-private"@.len() == 13);
    reveal_strlit("news");
    assert("news"@.len() == 4);
    reveal_strlit("node_modules");
    assert("node_modules"@.len() == 12);
    reveal_strlit("po");
    assert("po"@.len() == 2);
    reveal_strlit("pom.xml");
    assert("pom.xml"@.len() == 7);
    reveal_strlit("readme");
    assert("readme"@.len() == 6);
    reveal_strlit("registry");
    assert("registry"@.len() == 8);
    reveal_strlit("release");
    assert("release"@.len() == 7);
    reveal_strlit("src");
    assert("src"@.len() == 3);
    reveal_strlit("target");
    assert("target"@.len() == 6);
    reveal_strlit("vendor");
    assert("vendor"@.len() == 6);
    assert("pom.xml"@[0] != "release"@[0]);
    assert("pom.xml"@.subrange(0, 6)[0] != "readme"@[0]);
    assert("pom.xml"@.subrange(0, 4)[0] != "news"@[0]);
    assert("pom.xml"@.subrange(0, 7)[0] != "copying"@[0]);
    assert("pom.xml"@.subrange(0, 7)[0] != "license"@[0]);
    assert("pom.xml"@.subrange(0, 7)[0] != "authors"@[0]);
    assert(build_file_names()[11] == "pom.xml"@);
}

proof fn lemma_build_icon_12(path: Seq<char>, fallback: Seq<char>)
    requires
        ascii_lower(basename_of(path)) == "pyproject.toml"@,
    ensures
        icon_for_path(path, fallback) == (if fallback == "folder-symbolic"@ {
            "folder-symbolic"@
        } else {
            "text-makefile-symbolic"@
        }),
{
    reveal_strlit(".editorconfig");
    assert(".editorconfig"@.len() == 13);
    reveal_strlit(".gitattributes");
    assert(".gitattributes"@.len() == 14);
    reveal_strlit(".gitignore");
    assert(".gitignore"@.len() == 10);
    reveal_strlit(".gitmodules");
    assert(".gitmodules"@.len() == 11);
    reveal_strlit("authors");
    assert("authors"@.len() == 7);
    reveal_strlit("build");
    assert("build"@.len() == 5);
    reveal_strlit("builddir");
    assert("builddir"@.len() == 8);
    reveal_strlit("cargo-home");
    assert("cargo-home"@.len() == 10);
    reveal_strlit("changelog");
    assert("changelog"@.len() == 9);
    reveal_strlit("containerfile");
    assert("containerfile"@.len() == 13);
    reveal_strlit("copying");
    assert("copying"@.len() == 7);
    reveal_strlit("data");
    assert("data"@.len() == 4);
    reveal_strlit("debug");
    assert("debug"@.len() == 5);
    reveal_strlit("deps");
    assert("deps"@.len() == 4);
    reveal_strlit("dist");
    assert("dist"@.len() == 4);
    reveal_strlit("dockerfile");
    assert("dockerfile"@.len() == 10);
    reveal_strlit("icons");
    assert("icons"@.len() == 5);
    reveal_strlit("images");
    assert("images"@.len() == 6);
    reveal_strlit("license");
    assert("license"@.len() == 7);
    reveal_strlit("maintainers");
    assert("maintainers"@.len() == 11);
    reveal_strlit("meson-info");
    assert("meson-info"@.len() == 10);
    reveal_strlit("meson-logs");
    assert("meson-logs"@.len() == 10);
    reveal_strlit("meson-private");
    assert("meson-private"@.len() == 13);
    reveal_strlit("news");
    assert("news"@.len() == 4);
    reveal_strlit("node_modules");
    assert("node_modules"@.len() == 12);
    reveal_strlit("po");
    assert("po"@.len() == 2);
    reveal_strlit("pyproject.toml");
    assert("pyproject.toml"@.len() == 14);
    reveal_strlit("readme");
    assert("readme"@.len() == 6);
    reveal_strlit("registry");
    assert("registry"@.len() == 8);
    reveal_strlit("release");
    assert("release"@.len() == 7);
    reveal_strlit("src");
    assert("src"@.len() == 3);
    reveal_strlit("target");
    assert("target"@.len() == 6);
    reveal_strlit("vendor");
    assert("vendor"@.len() == 6);
    assert("pyproject.toml"@[0] != ".gitattributes"@[0]);
    assert("pyproject.toml"@.subrange(0, 6)[0] != "readme"@[0]);
    assert("pyproject.toml"@.subrange(0, 4)[0] != "news"@[0]);
    assert("pyproject.toml"@.subrange(0, 9)[0] != "changelog"@[0]);
    assert("pyproject.toml"@.subrange(0, 7)[0] != "copying"@[0]);
    assert("pyproject.toml"@.subrange(0, 7)[0] != "license"@[0]);
    assert("pyproject.toml"@.subrange(0, 7)[0] != "authors"@[0]);
    assert("pyproject.toml"@.subrange(0, 11)[0] != "maintainers"@[0]);
    assert("pyproject.toml"@.subrange(0, 10)[0] != "dockerfile"@[0]);
    assert("pyproject.toml"@.subrange(0, 13)[0] != "containerfile"@[0]);
    assert(build_file_names()[12] == "pyproject.toml"@);
}

proof fn lemma_build_icon_13(path: Seq<char>, fallback: Seq<char>)
    requires
        ascii_lower(basename_of(path)) == "requirements.txt"@,
    ensures
        icon_for_path(path, fallback) == (if fallback == "folder-symbolic"@ {
            "folder-symbolic"@
        } else {
            "text-makefile-symbolic"@
        }),
{
    reveal_strlit(".editorconfig");
    assert(".editorconfig"@.len() == 13);
    reveal_strlit(".gitattributes");
    assert(".gitattributes"@.len() == 14);
    reveal_strlit(".gitignore");
    assert(".gitignore"@.len() == 10);
    reveal_strlit(".gitmodules");
    assert(".gitmodules"@.len() == 11);
    reveal_strlit("authors");
    assert("authors"@.len() == 7);
    reveal_strlit("build");
    assert("build"@.len() == 5);
    reveal_strlit("builddir");
    assert("builddir"@.len() == 8);
    reveal_strlit("cargo-home");
    assert("cargo-home"@.len() == 10);
    reveal_strlit("changelog");
    assert("changelog"@.len() == 9);
    reveal_strlit("containerfile");
    assert("containerfile"@.len() == 13);
    reveal_strlit("copying");
    assert("copying"@.len() == 7);
    reveal_strlit("data");
    assert("data"@.len() == 4);
    reveal_strlit("debug");
    assert("debug"@.len() == 5);
    reveal_strlit("deps");
    assert("deps"@.len() == 4);
    reveal_strlit("dist");
    assert("dist"@.len() == 4);
    reveal_strlit("dockerfile");
    assert("dockerfile"@.len() == 10);
    reveal_strlit("icons");
    assert("icons"@.len() == 5);
    reveal_strlit("images");
    assert("images"@.len() == 6);
    reveal_strlit("license");
    assert("license"@.len() == 7);
    reveal_strlit("maintainers");
    assert("maintainers"@.len() == 11);
    reveal_strlit("meson-info");
    assert("meson-info"@.len() == 10);
    reveal_strlit("meson-logs");
    assert("meson-logs"@.len() == 10);
    reveal_strlit("meson-private");
    assert("meson-private"@.len() == 13);
    reveal_strlit("news");
    assert("news"@.len() == 4);
    reveal_strlit("node_modules");
    assert("node_modules"@.len() == 12);
    reveal_strlit("po");
    assert("po"@.len() == 2);
    reveal_strlit("readme");
    assert("readme"@.len() == 6);
    reveal_strlit("registry");
    assert("registry"@.len() == 8);
    reveal_strlit("release");
    assert("release"@.len() == 7);
    reveal_strlit("requirements.txt");
    assert("requirements.txt"@.len() == 16);
    reveal_strlit("src");
    assert("src"@.len() == 3);
    reveal_strlit("target");
    assert("target"@.len() == 6);
    reveal_strlit("vendor");
    assert("vendor"@.len() == 6);
    assert("requirements.txt"@.subrange(0, 6)[2] != "readme"@[2]);
    assert("requirements.txt"@.subrange(0, 4)[0] != "news"@[0]);
    assert("requirements.txt"@.subrange(0, 9)[0] != "changelog"@[0]);
    assert("requirements.txt"@.subrange(0, 7)[0] != "copying"@[0]);
    assert("requirements.txt"@.subrange(0, 7)[0] != "license"@[0]);
    assert("requirements.txt"@.subrange(0, 7)[0] != "authors"@[0]);
    assert("requirements.txt"@.subrange(0, 11)[0] != "maintainers"@[0]);
    assert("requirements.txt"@.subrange(0, 10)[0] != "dockerfile"@[0]);
    assert("requirements.txt"@.subrange(0, 13)[0] != "containerfile"@[0]);
    assert(build_file_names()[13] == "requirements.txt"@);
}

proof fn lemma_build_icon_14(path: Seq<char>, fallback: Seq<char>)
    requires
        ascii_lower(basename_of(path)) == "sketch.yaml"@,
    ensures
        icon_for_path(path, fallback) == (if fallback == "folder-symbolic"@ {
            "folder-symbolic"@
        } else {
            "text-makefile-symbolic"@
        }),
{
    reveal_strlit(".editorconfig");
    assert(".editorconfig"@.len() == 13);
    reveal_strlit(".gitattributes");
    assert(".gitattributes"@.len() == 14);
    reveal_strlit(".gitignore");
    assert(".gitignore"@.len() == 10);
    reveal_strlit(".gitmodules");
    assert(".gitmodules"@.len() == 11);
    reveal_strlit("authors");
    assert("authors"@.len() == 7);
    reveal_strlit("build");
    assert("build"@.len() == 5);
    reveal_strlit("builddir");
    assert("builddir"@.len() == 8);
    reveal_strlit("cargo-home");
    assert("cargo-home"@.len() == 10);
    reveal_strlit("changelog");
    assert("changelog"@.len() == 9);
    reveal_strlit("containerfile");
    assert("containerfile"@.len() == 13);
    reveal_strlit("copying");
    assert("copying"@.len() == 7);
    reveal_strlit("data");
    assert("data"@.len() == 4);
    reveal_strlit("debug");
    assert("debug"@.len() == 5);
    reveal_strlit("deps");
    assert("deps"@.len() == 4);
    reveal_strlit("dist");
    assert("dist"@.len() == 4);
    reveal_strlit("dockerfile");
    assert("dockerfile"@.len() == 10);
    reveal_strlit("icons");
    assert("icons"@.len() == 5);
    reveal_strlit("images");
    assert("images"@.len() == 6);
    reveal_strlit("license");
    assert("license"@.len() == 7);
    reveal_strlit("maintainers");
    assert("maintainers"@.len() == 11);
    reveal_strlit("meson-info");
    assert("meson-info"@.len() == 10);
    reveal_strlit("meson-logs");
    assert("meson-logs"@.len() == 10);
    reveal_strlit("meson-private");
    assert("meson-private"@.len() == 13);
    reveal_strlit("news");
    assert("news"@.len() == 4);
    reveal_strlit("node_modules");
    assert("node_modules"@.len() == 12);
    reveal_strlit("po");
    assert("po"@.len() == 2);
    reveal_strlit("readme");
    assert("readme"@.len() == 6);
    reveal_strlit("registry");
    assert("registry"@.len() == 8);
    reveal_strlit("release");
    assert("release"@.len() == 7);
    reveal_strlit("sketch.yaml");
    assert("sketch.yaml"@.len() == 11);
    reveal_strlit("src");
    assert("src"@.len() == 3);
    reveal_strlit("target");
    assert("target"@.len() == 6);
    reveal_strlit("vendor");
    assert("vendor"@.len() == 6);
    assert("sketch.yaml"@[0] != ".gitmodules"@[0]);
    assert("sketch.yaml"@.subrange(0, 6)[0] != "readme"@[0]);
    assert("sketch.yaml"@.subrange(0, 4)[0] != "news"@[0]);
    assert("sketch.yaml"@.subrange(0, 9)[0] != "changelog"@[0]);
    assert("sketch.yaml"@.subrange(0, 7)[0] != "copying"@[0]);
    assert("sketch.yaml"@.subrange(0, 7)[0] != "license"@[0]);
    assert("sketch.yaml"@.subrange(0, 7)[0] != "authors"@[0]);
    assert("sketch.yaml"@.subrange(0, 11)[0] != "maintainers"@[0]);
    assert("sketch.yaml"@.subrange(0, 10)[0] != "dockerfile"@[0]);
    assert(build_file_names()[14] == "sketch.yaml"@);
}

proof fn lemma_build_icon_15(path: Seq<char>, fallback: Seq<char>)
    requires
        ascii_lower(basename_of(path)) == "sketch.yml"@,
    ensures
        icon_for_path(path, fallback) == (if fallback == "folder-symbolic"@ {
            "folder-symbolic"@
        } else {
            "text-makefile-symbolic"@
        }),
{
    reveal_strlit(".editorconfig");
    assert(".editorconfig"@.len() == 13);
    reveal_strlit(".gitattributes");
    assert(".gitattributes"@.len() == 14);
    reveal_strlit(".gitignore");
    assert(".gitignore"@.len() == 10);
    reveal_strlit(".gitmodules");
    assert(".gitmodules"@.len() == 11);
    reveal_strlit("authors");
    assert("authors"@.len() == 7);
    reveal_strlit("build");
    assert("build"@.len() == 5);
    reveal_strlit("builddir");
    assert("builddir"@.len() == 8);
    reveal_strlit("cargo-home");
    assert("cargo-home"@.len() == 10);
    reveal_strlit("changelog");
    assert("changelog"@.len() == 9);
    reveal_strlit("containerfile");
    assert("containerfile"@.len() == 13);
    reveal_strlit("copying");
    assert("copying"@.len() == 7);
    reveal_strlit("data");
    assert("data"@.len() == 4);
    reveal_strlit("debug");
    assert("debug"@.len() == 5);
    reveal_strlit("deps");
    assert("deps"@.len() == 4);
    reveal_strlit("dist");
    assert("dist"@.len() == 4);
    reveal_strlit("dockerfile");
    assert("dockerfile"@.len() == 10);
    reveal_strlit("icons");
    assert("icons"@.len() == 5);
    reveal_strlit("images");
    assert("images"@.len() == 6);
    reveal_strlit("license");
    assert("license"@.len() == 7);
    reveal_strlit("maintainers");
    assert("maintainers"@.len() == 11);
    reveal_strlit("meson-info");
    assert("meson-info"@.len() == 10);
    reveal_strlit("meson-logs");
    assert("meson-logs"@.len() == 10);
    reveal_strlit("meson-private");
    assert("meson-private"@.len() == 13);
    reveal_strlit("news");
    assert("news"@.len() == 4);
    reveal_strlit("node_modules");
    assert("node_modules"@.len() == 12);
    reveal_strlit("po");
    assert("po"@.len() == 2);
    reveal_strlit("readme");
    assert("readme"@.len() == 6);
    reveal_strlit("registry");
    assert("registry"@.len() == 8);
    reveal_strlit("release");
    assert("release"@.len() == 7);
    reveal_strlit("sketch.yml");
    assert("sketch.yml"@.len() == 10);
    reveal_strlit("src");
    assert("src"@.len() == 3);
    reveal_strlit("target");
    assert("target"@.len() == 6);
    reveal_strlit("vendor");
    assert("vendor"@.len() == 6);
    assert("sketch.yml"@[0] != "cargo-home"@[0]);
    assert("sketch.yml"@[0] != "meson-info"@[0]);
    assert("sketch.yml"@[0] != "meson-logs"@[0]);
    assert("sketch.yml"@[0] != ".gitignore"@[0]);
    assert("sketch.yml"@.subrange(0, 6)[0] != "readme"@[0]);
    assert("sketch.yml"@.subrange(0, 4)[0] != "news"@[0]);
    assert("sketch.yml"@.subrange(0, 9)[0] != "changelog"@[0]);
    assert("sketch.yml"@.subrange(0, 7)[0] != "copying"@[0]);
    assert("sketch.yml"@.subrange(0, 7)[0] != "license"@[0]);
    assert("sketch.yml"@.subrange(0, 7)[0] != "authors"@[0]);
    assert("sketch.yml"@.subrange(0, 10)[0] != "dockerfile"@[0]);
    assert(build_file_names()[15] == "sketch.yml"@);
}

proof fn lemma_build_icon_16(path: Seq<char>, fallback: Seq<char>)
    requires
        ascii_lower(basename_of(path)) == "wscript"@,
    ensures
        icon_for_path(path, fallback) == (if fallback == "folder-symbolic"@ {
            "folder-symbolic"@
        } else {
            "text-makefile-symbolic"@
        }),
{
    reveal_strlit(".editorconfig");
    assert(".editorconfig"@.len() == 13);
    reveal_strlit(".gitattributes");
    assert(".gitattributes"@.len() == 14);
    reveal_strlit(".gitignore");
    assert(".gitignore"@.len() == 10);
    reveal_strlit(".gitmodules");
    assert(".gitmodules"@.len() == 11);
    reveal_strlit("authors");
    assert("authors"@.len() == 7);
    reveal_strlit("build");
    assert("build"@.len() == 5);
    reveal_strlit("builddir");
    assert("builddir"@.len() == 8);
    reveal_strlit("cargo-home");
    assert("cargo-home"@.len() == 10);
    reveal_strlit("changelog");
    assert("changelog"@.len() == 9);
    reveal_strlit("containerfile");
    assert("containerfile"@.len() == 13);
    reveal_strlit("copying");
    assert("copying"@.len() == 7);
    reveal_strlit("data");
    assert("data"@.len() == 4);
    reveal_strlit("debug");
    assert("debug"@.len() == 5);
    reveal_strlit("deps");
    assert("deps"@.len() == 4);
    reveal_strlit("dist");
    assert("dist"@.len() == 4);
    reveal_strlit("dockerfile");
    assert("dockerfile"@.len() == 10);
    reveal_strlit("icons");
    assert("icons"@.len() == 5);
    reveal_strlit("images");
    assert("images"@.len() == 6);
    reveal_strlit("license");
    assert("license"@.len() == 7);
    reveal_strlit("maintainers");
    assert("maintainers"@.len() == 11);
    reveal_strlit("meson-info");
    assert("meson-info"@.len() == 10);
    reveal_strlit("meson-logs");
    assert("meson-logs"@.len() == 10);
    reveal_strlit("meson-private");
    assert("meson-private"@.len() == 13);
    reveal_strlit("news");
    assert("news"@.len() == 4);
    reveal_strlit("node_modules");
    assert("node_modules"@.len() == 12);
    reveal_strlit("po");
    assert("po"@.len() == 2);
    reveal_strlit("readme");
    assert("readme"@.len() == 6);
    reveal_strlit("registry");
    assert("registry"@.len() == 8);
    reveal_strlit("release");
    assert("release"@.len() == 7);
    reveal_strlit("src");
    assert("src"@.len() == 3);
    reveal_strlit("target");
    assert("target"@.len() == 6);
    reveal_strlit("vendor");
    assert("vendor"@.len() == 6);
    reveal_strlit("wscript");
    assert("wscript"@.len() == 7);
    assert("wscript"@[0] != "release"@[0]);
    assert("wscript"@.subrange(0, 6)[0] != "readme"@[0]);
    assert("wscript"@.subrange(0, 4)[0] != "news"@[0]);
    assert("wscript"@.subrange(0, 7)[0] != "copying"@[0]);
    assert("wscript"@.subrange(0, 7)[0] != "license"@[0]);
    assert("wscript"@.subrange(0, 7)[0] != "authors"@[0]);
    assert(build_file_names()[16] == "wscript"@);
}

/// A build file gets the makefile icon, whatever its extension and the case
/// of its letters, wherever it stands; only a folder fallback overrides it.
pub proof fn lemma_build_files_get_makefile_icon(path: Seq<char>, fallback: Seq<char>)
    requires
        build_file_names().contains(ascii_lower(basename_of(path))),
    ensures
        icon_for_path(path, fallback) == (if fallback == "folder-symbolic"@ {
            "folder-symbolic"@
        } else {
            "text-makefile-symbolic"@
        }),
{
    let lower = ascii_lower(basename_of(path));
    let k = choose|k: int| 0 <= k < build_file_names().len() && build_file_names()[k] == lower;
    if k == 0 {
        lemma_build_icon_0(path, fallback);
    } else if k == 1 {
        lemma_build_icon_1(path, fallback);
    } else if k == 2 {
        lemma_build_icon_2(path, fallback);
    } else if k == 3 {
        lemma_build_icon_3(path, fallback);
    } else if k == 4 {
        lemma_build_icon_4(path, fallback);
    } else if k == 5 {
        lemma_build_icon_5(path, fallback);
    } else if k == 6 {
        lemma_build_icon_6(path, fallback);
    } else if k == 7 {
        lemma_build_icon_7(path, fallback);
    } else if k == 8 {
        lemma_build_icon_8(path, fallback);
    } else if k == 9 {
        lemma_build_icon_9(path, fallback);
    } else if k == 10 {
        lemma_build_icon_10(path, fallback);
    } else if k == 11 {
        lemma_build_icon_11(path, fallback);
    } else if k == 12 {
        lemma_build_icon_12(path, fallback);
    } else if k == 13 {
        lemma_build_icon_13(path, fallback);
    } else if k == 14 {
        lemma_build_icon_14(path, fallback);
    } else if k == 15 {
        lemma_build_icon_15(path, fallback);
    } else if k == 16 {
        lemma_build_icon_16(path, fallback);
    }
}

/// A known directory name, in any case and wherever it stands, gets the
/// folder icon, and so does every entry whose fallback is the folder icon.
pub proof fn lemma_folders_get_folder_icon(path: Seq<char>, fallback: Seq<char>)
    ensures
        (directory_names().contains(ascii_lower(basename_of(path))) || fallback == "folder-symbolic"@)
            ==> icon_for_path(path, fallback) == "folder-symbolic"@,
{
}

} // verus!
