//! Where the agent's entry point is looked for.
//!
//! Two directories are candidates: the `agent` directory under the bundled
//! resources of the shell, where the shell has such resources, and an
//! installation directory, which the environment may override. A candidate
//! qualifies when the entry file `dist/index.js` exists under it. The bundled
//! directory is preferred: it wins whenever it qualifies, whatever the
//! installation directory holds.

use vstd::prelude::*;
use vstd::string::*;

verus! {

/// The environment variable that overrides the installation directory.
pub const INSTALL_DIR_VARIABLE: &'static str = "EDGECODER_INSTALL_DIR";

/// The directory of the agent below the bundled-resource root.
pub open spec fn bundle_subdir() -> Seq<char> {
    "agent"@
}

/// The entry file, relative to the agent's directory.
pub open spec fn entry_file() -> Seq<char> {
    "dist/index.js"@
}

/// The installation directory where the environment names none.
pub open spec fn default_install_dir() -> Seq<char> {
    "/opt/edgecoder/app"@
}

/// The path of `relative` below `base`: the two are joined by one `/`,
/// which is left out where `base` is empty or ends in `/` already.
pub open spec fn joined(base: Seq<char>, relative: Seq<char>) -> Seq<char> {
    if base.len() == 0 || base.last() == '/' {
        base + relative
    } else {
        base + seq!['/'] + relative
    }
}

/// Joins the relative path `relative` to the directory `base`.
pub fn join(base: &str, relative: &str) -> (path: String)
    ensures
        path@ == joined(base@, relative@),
{
    let n: usize = base.unicode_len();
    let mut path = String::from_str(base);
    if n > 0 && base.get_char(n - 1) != '/' {
        proof {
            reveal_strlit("/");
        }
        path.append("/");
    }
    path.append(relative);
    path
}

/// The path of the entry file of the agent directory `dir`.
pub fn entry_path(dir: &str) -> (path: String)
    ensures
        path@ == joined(dir@, entry_file()),
{
    join(dir, "dist/index.js")
}

/// Which candidate a location came from.
#[derive(Clone, Copy, Debug, PartialEq, Eq, Structural)]
pub enum Origin {
    /// The directory bundled with the shell.
    Bundled,
    /// The installation directory.
    Installed,
}

/// The directories in which one launch looks for the agent.
#[derive(Debug, PartialEq, Eq)]
pub struct Candidates {
    /// The bundled agent directory; `None` where the shell has no
    /// bundled-resource root.
    pub bundled: Option<String>,
    /// The installation directory.
    pub installed: String,
}

/// The mathematical content of [`Candidates`].
pub struct CandidatesView {
    pub bundled: Option<Seq<char>>,
    pub installed: Seq<char>,
}

impl View for Candidates {
    type V = CandidatesView;

    open spec fn view(&self) -> CandidatesView {
        CandidatesView { bundled: self.bundled.deep_view(), installed: self.installed@ }
    }
}

/// The candidates that follow from the bundled-resource root and from the
/// installation directory that the environment names.
pub open spec fn candidates_of(
    resource_root: Option<Seq<char>>,
    install_override: Option<Seq<char>>,
) -> CandidatesView {
    CandidatesView {
        bundled: match resource_root {
            Some(root) => Some(joined(root, bundle_subdir())),
            None => None,
        },
        installed: match install_override {
            Some(dir) => dir,
            None => default_install_dir(),
        },
    }
}

impl Candidates {
    /// The candidates of a launch. `resource_root` is the root of the
    /// resources bundled with the shell, if it has any; `install_override`
    /// is the value of [`INSTALL_DIR_VARIABLE`], if it is set.
    pub fn new(resource_root: Option<&str>, install_override: Option<&str>) -> (c: Candidates)
        ensures
            c@ == candidates_of(resource_root.deep_view(), install_override.deep_view()),
    {
        let bundled = match resource_root {
            Some(root) => Some(join(root, "agent")),
            None => None,
        };
        let installed = match install_override {
            Some(dir) => String::from_str(dir),
            None => String::from_str("/opt/edgecoder/app"),
        };
        Candidates { bundled, installed }
    }
}

/// A directory that holds the agent's entry file.
#[derive(Debug, PartialEq, Eq)]
pub struct AgentLocation {
    /// The agent's directory: the working directory of the agent process.
    pub dir: String,
    /// The candidate that the directory came from.
    pub origin: Origin,
}

/// The mathematical content of [`AgentLocation`].
pub struct AgentLocationView {
    pub dir: Seq<char>,
    pub origin: Origin,
}

impl View for AgentLocation {
    type V = AgentLocationView;

    open spec fn view(&self) -> AgentLocationView {
        AgentLocationView { dir: self.dir@, origin: self.origin }
    }
}

impl DeepView for AgentLocation {
    type V = AgentLocationView;

    open spec fn deep_view(&self) -> AgentLocationView {
        self@
    }
}

/// The bundled directory as a location.
pub open spec fn at_bundled(c: CandidatesView) -> AgentLocationView
    recommends
        c.bundled is Some,
{
    AgentLocationView { dir: c.bundled->0, origin: Origin::Bundled }
}

/// The installation directory as a location.
pub open spec fn at_installed(c: CandidatesView) -> AgentLocationView {
    AgentLocationView { dir: c.installed, origin: Origin::Installed }
}

/// The location that the candidates resolve to, given for each whether the
/// entry file was found under it: the bundled directory where it has the
/// file, else the installation directory where that one has it, else none.
pub open spec fn located(
    c: CandidatesView,
    bundled_has_entry: bool,
    installed_has_entry: bool,
) -> Option<AgentLocationView> {
    if c.bundled is Some && bundled_has_entry {
        Some(at_bundled(c))
    } else if installed_has_entry {
        Some(at_installed(c))
    } else {
        None
    }
}

/// Resolves the agent's location. `bundled_has_entry` says whether the entry
/// file exists under the bundled directory and is ignored where there is no
/// such directory; `installed_has_entry` says the same of the installation
/// directory.
pub fn locate(
    c: &Candidates,
    bundled_has_entry: bool,
    installed_has_entry: bool,
) -> (found: Option<AgentLocation>)
    ensures
        found.deep_view() == located(c@, bundled_has_entry, installed_has_entry),
{
    if bundled_has_entry {
        if let Some(dir) = &c.bundled {
            return Some(AgentLocation { dir: dir.clone(), origin: Origin::Bundled });
        }
    }
    if installed_has_entry {
        Some(AgentLocation { dir: c.installed.clone(), origin: Origin::Installed })
    } else {
        None
    }
}

/// The bundle wins: where the bundled directory holds the entry file, the
/// agent is located there, whether or not the installation directory holds
/// one too.
pub proof fn lemma_bundle_wins(c: CandidatesView, installed_has_entry: bool)
    requires
        c.bundled is Some,
    ensures
        located(c, true, installed_has_entry) == Some(at_bundled(c)),
{
}

/// The installation directory is the fallback: it is chosen exactly when it
/// holds the entry file and the bundled directory does not qualify.
pub proof fn lemma_installed_is_fallback(
    c: CandidatesView,
    bundled_has_entry: bool,
    installed_has_entry: bool,
)
    ensures
        located(c, bundled_has_entry, installed_has_entry) == Some(at_installed(c)) <==> (
        installed_has_entry && !(c.bundled is Some && bundled_has_entry)),
{
}

/// Nothing is located exactly when neither candidate qualifies.
pub proof fn lemma_not_found(c: CandidatesView, bundled_has_entry: bool, installed_has_entry: bool)
    ensures
        located(c, bundled_has_entry, installed_has_entry) is None <==> (!installed_has_entry && !(
        c.bundled is Some && bundled_has_entry)),
{
}

} // verus!
