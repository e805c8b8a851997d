use vstd::prelude::*;

verus! {

/// Owner of the repository that publishes the resources.
pub const GITHUB_USER: &'static str = "jakewilliami";

/// Name of the repository that publishes the resources.
pub const GITHUB_REPO_NAME: &'static str = "tex-macros";

/// Branch whose head is the canonical revision.
pub const MAIN_BRANCH: &'static str = "master";

/// Qualifier that a resource identifier may carry in front of its repository path.
pub const REPOSITORY_PREFIX: &'static str = "jakewilliami/tex-macros/";

/// Directory of the repository that holds the class files.
pub const RESOURCE_PARENT: &'static str = "class/";

pub const CLS_RESOURCE: &'static str = "class/arteacle.cls";
pub const TMPL_RESOURCE: &'static str = "templates/arteacle.tex";
pub const LTR_RESOURCE: &'static str = "class/lettear.cls";
pub const LTR_TMPL_RESOURCE: &'static str = "templates/letter/lettear.tex";
pub const LTR_FML_TMPL_RESOURCE: &'static str = "templates/letter/lettear-formal.tex";
pub const BMR_RESOURCE: &'static str = "class/teamer.cls";
pub const BMR_TMPL_RESOURCE: &'static str = "templates/teamer.tex";
pub const BMR_THEME_PATH: &'static str = "class/teamer/";
pub const BMR_THEME_COLOUR: &'static str = "beamercolorthemetea.sty";
pub const BMR_THEME_INNER: &'static str = "beamerinnerthemetea.sty";
pub const BMR_THEME_OUTER: &'static str = "beamerouterthemetea.sty";
pub const BMR_THEME_MAIN: &'static str = "beamerthemetea.sty";

/// Directory under the home directory that holds the local mirror.
pub const RESOURCE_ROOT: &'static str = "projects";

/// Number of hex digits in a short revision identifier.
pub const SHORT_HASH_LENGTH: usize = 7;

} // verus!
