//! Icon names used by the catalog.
use vstd::prelude::*;

verus! {

pub const CHANGELOG: &'static str = "text-x-changelog-symbolic";

pub const COPYING: &'static str = "text-x-copying-symbolic";

pub const FOLDER: &'static str = "folder-symbolic";

pub const MAKEFILE: &'static str = "text-makefile-symbolic";

pub const MAINTAINERS: &'static str = "text-x-authors-symbolic";

pub const MARKDOWN: &'static str = "text-markdown-symbolic";

pub const README: &'static str = "text-x-readme-symbolic";

pub const VCS_GIT: &'static str = "builder-vcs-git-symbolic";

} // verus!
