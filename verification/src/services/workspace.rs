//! Workspaces: where a command's database lives, and how it is found from the
//! current directory.
//!
//! The resolution order is: a `.granary/` directory in the current directory;
//! the registry (the deepest registered root among the directory and its
//! ancestors); a `.granary/` directory in an ancestor, walking up from the
//! parent and stopping before the home directory; the default workspace in
//! the configuration directory. Which directories hold a `.granary/` is found
//! by the application and handed in.
use vstd::prelude::*;
use crate::error::GranaryError;
use crate::path::{components_of, file_name_of, is_name, join_path, path_components, path_join};
use crate::services::workspace_registry::{
    RootView, WorkspaceRegistry, lookup_from, lookup_spec, roots_of, walk_floor,
};
use crate::text::{owned, push_str, text_eq, views};

verus! {

/// The name of the workspace directory.
pub const WORKSPACE_DIR: &'static str = ".granary";
/// The name of the database file.
pub const DB_FILE: &'static str = "granary.db";
/// The name of the session pointer file.
pub const SESSION_FILE: &'static str = "session";
/// Environment variable that overrides the workspace path.
pub const WORKSPACE_ENV: &'static str = "GRANARY_HOME";
/// Environment variable of the current session.
pub const SESSION_ENV: &'static str = "GRANARY_SESSION";

/// How a workspace was resolved.
#[derive(Debug, Clone)]
pub enum WorkspaceMode {
    /// The default workspace in the configuration directory.
    Default,
    /// A named workspace under the configuration directory.
    Named(String),
    /// A local `.granary/` directory in the project tree.
    Local,
}

impl WorkspaceMode {
    /// The label of a mode.
    pub open spec fn label_spec(self) -> Seq<char> {
        match self {
            WorkspaceMode::Default => "default"@,
            WorkspaceMode::Named(_) => "named"@,
            WorkspaceMode::Local => "local"@,
        }
    }

    /// `default`, `named` or `local`.
    pub fn label(&self) -> (r: &'static str)
        ensures
            r@ == self.label_spec(),
    {
        match self {
            WorkspaceMode::Default => "default",
            WorkspaceMode::Named(_) => "named",
            WorkspaceMode::Local => "local",
        }
    }
}

/// A workspace: where its data lives and how it was found.
#[derive(Debug)]
pub struct Workspace {
    /// Name, for a named workspace.
    pub name: Option<String>,
    /// Root directory.
    pub root: String,
    /// Directory of the workspace's files.
    pub granary_dir: String,
    /// Database file.
    pub db_path: String,
    /// How the workspace was resolved.
    pub mode: WorkspaceMode,
}

/// `w` is the local workspace rooted at `root`.
pub open spec fn is_local_at(w: Workspace, root: Seq<char>) -> bool {
    &&& w.name is None
    &&& w.root@ == root
    &&& w.granary_dir@ == path_join(root, ".granary"@)
    &&& w.db_path@ == path_join(path_join(root, ".granary"@), "granary.db"@)
    &&& w.mode is Local
}

/// The data directory of the named workspace `name`.
pub open spec fn named_dir(config_dir: Seq<char>, name: Seq<char>) -> Seq<char> {
    path_join(path_join(config_dir, "workspaces"@), name)
}

/// `w` is the named workspace `name`, entered from `root`.
pub open spec fn is_named(w: Workspace, root: Seq<char>, config_dir: Seq<char>, name: Seq<char>) -> bool {
    &&& w.name matches Some(n) && n@ == name
    &&& w.root@ == root
    &&& w.granary_dir@ == named_dir(config_dir, name)
    &&& w.db_path@ == path_join(named_dir(config_dir, name), "granary.db"@)
    &&& w.mode matches WorkspaceMode::Named(m) && m@ == name
}

/// `w` is the default workspace.
pub open spec fn is_default(w: Workspace, cwd: Seq<char>, home: Option<Seq<char>>, config_dir: Seq<char>) -> bool {
    &&& w.name is None
    &&& w.root@ == match home {
        Some(h) => h,
        None => cwd,
    }
    &&& w.granary_dir@ == config_dir
    &&& w.db_path@ == path_join(config_dir, "granary.db"@)
    &&& w.mode is Default
}

/// The text of a path made of components, as `Path` joins them.
pub open spec fn parts_text(cs: Seq<Seq<char>>) -> Seq<char>
    decreases cs.len(),
{
    if cs.len() == 0 {
        Seq::empty()
    } else {
        path_join(parts_text(cs.drop_last()), cs.last())
    }
}

/// The directory of the first `k` components holds a `.granary/` directory,
/// as the probes `local` tell (a missing probe counts as no).
pub open spec fn has_local(local: Seq<bool>, k: nat) -> bool {
    k < local.len() && local[k as int]
}

/// How a directory resolves to a workspace.
pub enum Resolution {
    /// The local workspace at the first `k` components.
    LocalAt(nat),
    /// The named workspace.
    Named(Seq<char>),
    /// The default workspace.
    Default,
}

/// The walk up from the first `k` components, stopping before `home`.
pub open spec fn ancestor_walk(cs: Seq<Seq<char>>, home: Option<Seq<Seq<char>>>, local: Seq<bool>, k: nat) -> Resolution
    decreases k,
{
    if home matches Some(h) && cs.take(k as int) == h {
        Resolution::Default
    } else if has_local(local, k) {
        Resolution::LocalAt(k)
    } else if k <= walk_floor(cs) {
        Resolution::Default
    } else {
        ancestor_walk(cs, home, local, (k - 1) as nat)
    }
}

/// How the directory with components `cs` resolves.
pub open spec fn resolution(
    cs: Seq<Seq<char>>,
    home: Option<Seq<Seq<char>>>,
    roots: Option<Seq<RootView>>,
    local: Seq<bool>,
) -> Resolution {
    if has_local(local, cs.len()) {
        Resolution::LocalAt(cs.len())
    } else if roots matches Some(rs) && lookup_from(rs, cs, cs.len()) is Some {
        Resolution::Named(lookup_from(roots->Some_0, cs, cs.len())->Some_0)
    } else if cs.len() > walk_floor(cs) {
        ancestor_walk(cs, home, local, (cs.len() - 1) as nat)
    } else {
        Resolution::Default
    }
}

/// `r` is the workspace that the directory `cwd` resolves to (see
/// [`resolution`]), with the home directory `home`, the configuration
/// directory `config_dir`, the registered roots `roots` and the probes
/// `local`.
pub open spec fn workspace_found(
    r: Workspace,
    cwd: Seq<char>,
    home: Option<Seq<char>>,
    config_dir: Seq<char>,
    roots: Option<Seq<RootView>>,
    local: Seq<bool>,
) -> bool {
    let home_cs = match home {
        Some(h) => Some(components_of(h)),
        None => None,
    };
    match resolution(components_of(cwd), home_cs, roots, local) {
        Resolution::LocalAt(k) => is_local_at(
            r,
            if k == components_of(cwd).len() {
                cwd
            } else {
                parts_text(components_of(cwd).take(k as int))
            },
        ),
        Resolution::Named(w) => is_named(r, cwd, config_dir, w),
        Resolution::Default => is_default(r, cwd, home, config_dir),
    }
}

/// A directory with no `.granary/` of its own inside a registered root (the
/// directory itself or an ancestor) uses the named workspace of the deepest
/// such root, as the registry looks it up: its files are under
/// `<config_dir>/workspaces/<name>`.
pub proof fn law_registered_root_gives_named_workspace(
    r: Workspace,
    cwd: Seq<char>,
    home: Option<Seq<char>>,
    config_dir: Seq<char>,
    roots: Seq<RootView>,
    local: Seq<bool>,
    name: Seq<char>,
)
    requires
        workspace_found(r, cwd, home, config_dir, Some(roots), local),
        !(components_of(cwd).len() < local.len() && local[components_of(cwd).len() as int]),
        lookup_spec(roots, cwd) == Some(name),
    ensures
        r.mode matches WorkspaceMode::Named(m) && m@ == name,
        r.name matches Some(n) && n@ == name,
        r.root@ == cwd,
        r.granary_dir@ == path_join(path_join(config_dir, "workspaces"@), name),
        r.db_path@ == path_join(path_join(path_join(config_dir, "workspaces"@), name), "granary.db"@),
{
}

/// The local workspace rooted at `root`.
fn local_workspace(root: String) -> (r: Workspace)
    ensures
        is_local_at(r, root@),
{
    let granary_dir = join_path(root.as_str(), WORKSPACE_DIR);
    let db_path = join_path(granary_dir.as_str(), DB_FILE);
    Workspace { name: None, root, granary_dir, db_path, mode: WorkspaceMode::Local }
}

/// The named workspace `name`, entered from `root`, with its files under
/// the configuration directory `config_dir` (see [`is_named`]).
pub fn named_workspace(root: String, config_dir: &str, name: &str) -> (r: Workspace)
    ensures
        is_named(r, root@, config_dir@, name@),
{
    let dir = join_path(config_dir, "workspaces");
    let granary_dir = join_path(dir.as_str(), name);
    let db_path = join_path(granary_dir.as_str(), DB_FILE);
    Workspace {
        name: Some(owned(name)),
        root,
        granary_dir,
        db_path,
        mode: WorkspaceMode::Named(owned(name)),
    }
}

/// The default workspace.
fn default_workspace(cwd: &str, home_dir: Option<&str>, config_dir: &str) -> (r: Workspace)
    ensures
        is_default(r, cwd@, opt_text(home_dir), config_dir@),
{
    let root = match home_dir {
        Some(h) => owned(h),
        None => owned(cwd),
    };
    Workspace {
        name: None,
        root,
        granary_dir: owned(config_dir),
        db_path: join_path(config_dir, DB_FILE),
        mode: WorkspaceMode::Default,
    }
}

/// The text of the first `k` components.
fn prefix_text(cs: &Vec<String>, k: usize) -> (r: String)
    requires
        k <= cs@.len(),
    ensures
        r@ == parts_text(views(cs@).take(k as int)),
{
    let mut out = String::new();
    let mut i: usize = 0;
    assert(views(cs@).take(0).len() == 0);
    while i < k
        invariant
            0 <= i <= k <= cs@.len(),
            out@ == parts_text(views(cs@).take(i as int)),
        decreases k - i,
    {
        let next = join_path(out.as_str(), cs[i].as_str());
        proof {
            let t = views(cs@).take(i as int + 1);
            assert(t.drop_last() =~= views(cs@).take(i as int));
            assert(t.last() == cs@[i as int]@);
        }
        out = next;
        i = i + 1;
    }
    out
}

/// `a` equals the first `k` elements of `b`.
fn parts_prefix_eq(a: &Vec<String>, b: &Vec<String>, k: usize) -> (r: bool)
    requires
        k <= b@.len(),
    ensures
        r == (views(a@) == views(b@).take(k as int)),
{
    if a.len() != k {
        proof {
            assert(views(a@).len() != views(b@).take(k as int).len());
        }
        return false;
    }
    let mut i: usize = 0;
    while i < k
        invariant
            a@.len() == k,
            k <= b@.len(),
            0 <= i <= k,
            forall|j: int| 0 <= j < i ==> a@[j]@ == b@[j]@,
        decreases k - i,
    {
        if !text_eq(a[i].as_str(), b[i].as_str()) {
            proof {
                assert(views(a@)[i as int] != views(b@).take(k as int)[i as int]);
            }
            return false;
        }
        i = i + 1;
    }
    assert(views(a@) =~= views(b@).take(k as int));
    true
}

/// The components of an optional path.
pub open spec fn opt_components(p: Option<&str>) -> Option<Seq<Seq<char>>> {
    match p {
        Some(s) => Some(components_of(s@)),
        None => None,
    }
}

/// The view of an optional path.
pub open spec fn opt_text(p: Option<&str>) -> Option<Seq<char>> {
    match p {
        Some(s) => Some(s@),
        None => None,
    }
}

/// The roots of an optional registry.
pub open spec fn opt_roots(r: Option<&WorkspaceRegistry>) -> Option<Seq<RootView>> {
    match r {
        Some(reg) => Some(reg.roots_spec()),
        None => None,
    }
}

impl Workspace {
    /// The workspace's display name: its name, `default`, or for a local
    /// workspace the name of its root directory (the root itself when that
    /// has no name).
    pub fn display_name(&self) -> (r: String)
        ensures
            r@ == match self.mode {
                WorkspaceMode::Default => "default"@,
                WorkspaceMode::Named(n) => n@,
                WorkspaceMode::Local => match file_name_of(components_of(self.root@)) {
                    Some(n) => n,
                    None => self.root@,
                },
            },
    {
        match &self.mode {
            WorkspaceMode::Default => owned("default"),
            WorkspaceMode::Named(n) => owned(n.as_str()),
            WorkspaceMode::Local => {
                let cs = path_components(self.root.as_str());
                proof {
                    reveal_strlit("/");
                    reveal_strlit(".");
                    reveal_strlit("..");
                }
                if cs.len() > 0 {
                    let last = &cs[cs.len() - 1];
                    assert(views(cs@).last() == last@);
                    if !text_eq(last.as_str(), "/") && !text_eq(last.as_str(), ".") && !text_eq(last.as_str(), "..") {
                        return owned(last.as_str());
                    }
                }
                owned(self.root.as_str())
            },
        }
    }

    /// Resolves the workspace of the directory `cwd` (see the module's
    /// resolution order). `local_dirs[k]` tells whether the directory made of
    /// the first `k` components of `cwd` holds a `.granary/` directory.
    pub fn find_in(
        cwd: &str,
        home_dir: Option<&str>,
        config_dir: &str,
        registry: Option<&WorkspaceRegistry>,
        local_dirs: &[bool],
    ) -> (r: Workspace)
        ensures
            workspace_found(r, cwd@, opt_text(home_dir), config_dir@, opt_roots(registry), local_dirs@),
    {
        let cs = path_components(cwd);
        let n = cs.len();
        let ghost comps = components_of(cwd@);
        if n < local_dirs.len() && local_dirs[n] {
            return local_workspace(owned(cwd));
        }
        if let Some(reg) = registry {
            if let Some(w) = reg.lookup_root(cwd) {
                return named_workspace(owned(cwd), config_dir, w);
            }
        }
        let floor: usize = if n > 0 && text_eq(cs[0].as_str(), "/") { 1 } else { 0 };
        proof {
            if n > 0 {
                assert(views(cs@)[0] == cs@[0]@);
            }
            assert(floor == walk_floor(comps));
        }
        if n > floor {
            let home_parts: Option<Vec<String>> = match home_dir {
                Some(h) => Some(path_components(h)),
                None => None,
            };
            let ghost home_cs = opt_components(home_dir);
            assert(resolution(comps, home_cs, opt_roots(registry), local_dirs@) == ancestor_walk(
                comps,
                home_cs,
                local_dirs@,
                (n - 1) as nat,
            ));
            let mut k: usize = n - 1;
            loop
                invariant
                    views(cs@) == comps,
                    comps == components_of(cwd@),
                    n == cs@.len(),
                    floor == walk_floor(comps),
                    k < n,
                    floor <= k,
                    home_cs == opt_components(home_dir),
                    match home_parts {
                        Some(hp) => home_cs matches Some(h) && views(hp@) == h,
                        None => home_cs is None,
                    },
                    resolution(comps, home_cs, opt_roots(registry), local_dirs@) == ancestor_walk(
                        comps,
                        home_cs,
                        local_dirs@,
                        k as nat,
                    ),
                decreases k,
            {
                let at_home = match &home_parts {
                    Some(hp) => parts_prefix_eq(hp, &cs, k),
                    None => false,
                };
                if at_home {
                    return default_workspace(cwd, home_dir, config_dir);
                }
                if k < local_dirs.len() && local_dirs[k] {
                    let root = prefix_text(&cs, k);
                    return local_workspace(root);
                }
                if k <= floor {
                    return default_workspace(cwd, home_dir, config_dir);
                }
                k = k - 1;
            }
        }
        default_workspace(cwd, home_dir, config_dir)
    }
}

/// The error of a workspace that is not found at `path`.
pub open spec fn not_found_at(e: GranaryError, path: Seq<char>) -> bool {
    e matches GranaryError::WorkspaceNotFound(m) && m@ == path
}

impl Workspace {
    /// The workspace that the override variable points at: a root holding
    /// `.granary/`, or a directory that is itself a workspace directory
    /// (holding the database file); else [`GranaryError::WorkspaceNotFound`].
    pub fn from_override(path: &str, granary_dir_exists: bool, db_in_root_exists: bool) -> (r: Result<Workspace, GranaryError>)
        ensures
            granary_dir_exists ==> (r matches Ok(w) && is_local_at(w, path@)),
            !granary_dir_exists && db_in_root_exists ==> (r matches Ok(w) && w.name is None && w.root@ == path@
                && w.granary_dir@ == path@ && w.db_path@ == path_join(path@, "granary.db"@) && w.mode is Local),
            !granary_dir_exists && !db_in_root_exists ==> (r matches Err(e) && not_found_at(e, path@)),
    {
        if granary_dir_exists {
            return Ok(local_workspace(owned(path)));
        }
        if db_in_root_exists {
            return Ok(Workspace {
                name: None,
                root: owned(path),
                granary_dir: owned(path),
                db_path: join_path(path, DB_FILE),
                mode: WorkspaceMode::Local,
            });
        }
        Err(GranaryError::WorkspaceNotFound(owned(path)))
    }

    /// Creates a local workspace at `root`; one that exists already gives
    /// [`GranaryError::WorkspaceAlreadyExists`] with its directory.
    pub fn create(root: &str, granary_dir_exists: bool) -> (r: Result<Workspace, GranaryError>)
        ensures
            granary_dir_exists ==> (r matches Err(GranaryError::WorkspaceAlreadyExists(m)) && m@ == path_join(
                root@,
                ".granary"@,
            )),
            !granary_dir_exists ==> (r matches Ok(w) && is_local_at(w, root@)),
    {
        if granary_dir_exists {
            return Err(GranaryError::WorkspaceAlreadyExists(join_path(root, WORKSPACE_DIR)));
        }
        Ok(local_workspace(owned(root)))
    }

    /// The local workspace at `root`: the one there, or a new one. Says
    /// whether it is new, in which case the caller makes its directory and
    /// database.
    pub fn find_or_create(root: &str, granary_dir_exists: bool) -> (r: (Workspace, bool))
        ensures
            is_local_at(r.0, root@),
            r.1 == !granary_dir_exists,
    {
        (local_workspace(owned(root)), !granary_dir_exists)
    }

    /// Opens the workspace at `root`: the local one when `root` holds
    /// `.granary/`, else the named workspace the registry maps `root` to,
    /// else [`GranaryError::WorkspaceNotFound`].
    pub fn open(root: &str, local_exists: bool, registry: Option<&WorkspaceRegistry>) -> (r: Result<Workspace, GranaryError>)
        ensures
            local_exists ==> (r matches Ok(w) && is_local_at(w, root@)),
            !local_exists ==> match registry {
                Some(reg) => match lookup_spec(reg.roots_spec(), root@) {
                    Some(name) => (r matches Ok(w) && exists|home: Seq<char>| is_named(
                        w,
                        root@,
                        crate::services::global_config::granary_dir_in(home),
                        name,
                    )) || (r matches Err(e) && not_found_at(e, root@)),
                    None => r matches Err(e) && not_found_at(e, root@),
                },
                None => r matches Err(e) && not_found_at(e, root@),
            },
    {
        if local_exists {
            return Ok(local_workspace(owned(root)));
        }
        if let Some(reg) = registry {
            if let Some(name) = reg.lookup_root(root) {
                if let Ok(dir) = crate::services::global_config::config_dir() {
                    return Ok(named_workspace(owned(root), dir.as_str(), name));
                }
            }
        }
        Err(GranaryError::WorkspaceNotFound(owned(root)))
    }

    /// The root matched in the registry, for a named workspace: the first
    /// root that belongs to it.
    pub fn matched_root(&self, registry: &WorkspaceRegistry) -> (r: Option<String>)
        ensures
            match self.mode {
                WorkspaceMode::Named(n) => if roots_of(registry.roots_spec(), n@).len() > 0 {
                    r matches Some(p) && p@ == roots_of(registry.roots_spec(), n@)[0]
                } else {
                    r is None
                },
                _ => r is None,
            },
    {
        match &self.mode {
            WorkspaceMode::Named(n) => {
                let paths = registry.root_paths_of(n.as_str());
                assert(views(paths@).len() == paths@.len());
                if paths.len() > 0 {
                    assert(views(paths@)[0] == paths@[0]@);
                    Some(paths[0].clone())
                } else {
                    None
                }
            },
            _ => None,
        }
    }
}

/// The current session: the environment variable when it is set, else the
/// session file's content, trimmed, when that is not empty.
pub fn session_id_from(env_value: Option<String>, file_content: Option<&str>) -> (r: Option<String>)
    ensures
        match env_value {
            Some(v) => r == Some(v),
            None => match file_content {
                Some(c) => if crate::text::trim(c@).len() > 0 {
                    r matches Some(s) && s@ == crate::text::trim(c@)
                } else {
                    r is None
                },
                None => r is None,
            },
        },
{
    match env_value {
        Some(v) => Some(v),
        None => match file_content {
            Some(c) => {
                let id = crate::text::trimmed(c);
                if id.as_str().is_empty() {
                    None
                } else {
                    Some(id)
                }
            },
            None => None,
        },
    }
}

/// The outcome of a diagnostic check.
#[derive(Debug, Clone, Copy, PartialEq, Eq, Structural)]
pub enum DiagnosticStatus {
    Passed,
    Warning,
    Error,
    Info,
    Fix,
}

/// One line of a workspace diagnosis.
#[derive(Debug)]
pub struct DiagnosticResult {
    pub check: String,
    pub status: DiagnosticStatus,
    pub message: String,
}

impl DiagnosticResult {
    /// The tag of a status: `[OK]`, `[WARN]`, `[ERR]`, `[INFO]`, `[FIX]`.
    pub fn status_symbol(&self) -> (r: &'static str)
        ensures
            r@ == match self.status {
                DiagnosticStatus::Passed => "[OK]"@,
                DiagnosticStatus::Warning => "[WARN]"@,
                DiagnosticStatus::Error => "[ERR]"@,
                DiagnosticStatus::Info => "[INFO]"@,
                DiagnosticStatus::Fix => "[FIX]"@,
            },
    {
        match self.status {
            DiagnosticStatus::Passed => "[OK]",
            DiagnosticStatus::Warning => "[WARN]",
            DiagnosticStatus::Error => "[ERR]",
            DiagnosticStatus::Info => "[INFO]",
            DiagnosticStatus::Fix => "[FIX]",
        }
    }

    /// The name of a status: `ok`, `warning`, `error`, `info`, `fixed`.
    pub fn status_str(&self) -> (r: &'static str)
        ensures
            r@ == match self.status {
                DiagnosticStatus::Passed => "ok"@,
                DiagnosticStatus::Warning => "warning"@,
                DiagnosticStatus::Error => "error"@,
                DiagnosticStatus::Info => "info"@,
                DiagnosticStatus::Fix => "fixed"@,
            },
    {
        match self.status {
            DiagnosticStatus::Passed => "ok",
            DiagnosticStatus::Warning => "warning",
            DiagnosticStatus::Error => "error",
            DiagnosticStatus::Info => "info",
            DiagnosticStatus::Fix => "fixed",
        }
    }
}

/// What the database answered to the diagnostic queries.
#[derive(Debug)]
pub struct DatabaseChecks {
    /// The journal mode, or the query's error.
    pub journal_mode: Result<String, String>,
    /// The foreign-keys setting, or the query's error.
    pub foreign_keys: Result<i32, String>,
    pub project_count: i64,
    pub task_count: i64,
    pub session_count: i64,
}

/// What the diagnosis of a workspace found on disk and in its database.
#[derive(Debug)]
pub struct DoctorFindings {
    pub db_exists: bool,
    pub granary_dir_exists: bool,
    /// The root matched in the registry, for a named workspace.
    pub matched_root: Option<String>,
    /// The database's answers, or why it could not be opened.
    pub connection: Result<DatabaseChecks, String>,
    pub current_session: Option<String>,
}

/// A line of the diagnosis, as contracts see it.
pub open spec fn diag(check: Seq<char>, status: DiagnosticStatus, message: Seq<char>) -> (Seq<char>, DiagnosticStatus, Seq<char>) {
    (check, status, message)
}

/// The status of a check that something exists.
pub open spec fn exists_status(b: bool) -> DiagnosticStatus {
    if b {
        DiagnosticStatus::Passed
    } else {
        DiagnosticStatus::Error
    }
}

/// The lines about the database connection.
pub open spec fn connection_lines(c: Result<DatabaseChecks, String>) -> Seq<(Seq<char>, DiagnosticStatus, Seq<char>)> {
    match c {
        Ok(d) => seq![
            diag("Database connection"@, DiagnosticStatus::Passed, "Connected successfully"@),
            diag(
                "WAL mode"@,
                match d.journal_mode {
                    Ok(m) => if crate::text::lowercase(m@) == "wal"@ {
                        DiagnosticStatus::Passed
                    } else {
                        DiagnosticStatus::Warning
                    },
                    Err(_) => DiagnosticStatus::Error,
                },
                match d.journal_mode {
                    Ok(m) => m@,
                    Err(e) => e@,
                },
            ),
            diag(
                "Foreign keys"@,
                match d.foreign_keys {
                    Ok(v) => if v == 1 {
                        DiagnosticStatus::Passed
                    } else {
                        DiagnosticStatus::Warning
                    },
                    Err(_) => DiagnosticStatus::Error,
                },
                match d.foreign_keys {
                    Ok(v) => if v == 1 {
                        "Enabled"@
                    } else {
                        "Disabled"@
                    },
                    Err(e) => e@,
                },
            ),
            diag(
                "Data summary"@,
                DiagnosticStatus::Passed,
                crate::text::int_text(d.project_count as int) + " projects, "@ + crate::text::int_text(
                    d.task_count as int,
                ) + " tasks, "@ + crate::text::int_text(d.session_count as int) + " sessions"@,
            ),
        ],
        Err(e) => seq![diag("Database connection"@, DiagnosticStatus::Error, e@)],
    }
}

/// The lines of a workspace's diagnosis.
pub open spec fn doctor_lines(w: Workspace, display: Seq<char>, f: DoctorFindings) -> Seq<(Seq<char>, DiagnosticStatus, Seq<char>)> {
    seq![
        diag("Workspace"@, DiagnosticStatus::Info, display),
        diag("Mode"@, DiagnosticStatus::Info, w.mode.label_spec()),
        diag("Database"@, exists_status(f.db_exists), w.db_path@),
    ] + match f.matched_root {
        Some(root) => seq![diag("Root"@, DiagnosticStatus::Info, root@ + " (matched from registry)"@)],
        None => Seq::empty(),
    } + seq![
        diag("Workspace directory"@, exists_status(f.granary_dir_exists), w.granary_dir@),
        diag("Database file"@, exists_status(f.db_exists), w.db_path@),
    ] + connection_lines(f.connection) + seq![
        match f.current_session {
            Some(id) => diag("Current session"@, DiagnosticStatus::Passed, id@),
            None => diag("Current session"@, DiagnosticStatus::Info, "None"@),
        },
    ]
}

/// The view of a diagnostic line.
pub open spec fn diag_view(d: DiagnosticResult) -> (Seq<char>, DiagnosticStatus, Seq<char>) {
    (d.check@, d.status, d.message@)
}

/// The views of diagnostic lines.
pub open spec fn diag_views(v: Seq<DiagnosticResult>) -> Seq<(Seq<char>, DiagnosticStatus, Seq<char>)> {
    v.map_values(|d: DiagnosticResult| diag_view(d))
}

/// Appends a diagnostic line.
fn push_diag(out: &mut Vec<DiagnosticResult>, check: &str, status: DiagnosticStatus, message: String)
    ensures
        diag_views(final(out)@) == diag_views(old(out)@).push(diag(check@, status, message@)),
{
    let ghost before = out@;
    out.push(DiagnosticResult { check: owned(check), status, message });
    assert(diag_views(out@) =~= diag_views(before).push(diag(check@, status, message@)));
}

/// Appends the lines about the database connection.
fn push_connection(out: &mut Vec<DiagnosticResult>, c: &Result<DatabaseChecks, String>)
    ensures
        diag_views(final(out)@) == diag_views(old(out)@) + connection_lines(*c),
{
    let ghost before = diag_views(out@);
    match c {
        Ok(d) => {
            push_diag(out, "Database connection", DiagnosticStatus::Passed, owned("Connected successfully"));
            let (wal_status, wal_message) = match &d.journal_mode {
                Ok(m) => {
                    let lower = crate::text::to_lowercase(m.as_str());
                    if text_eq(lower.as_str(), "wal") {
                        (DiagnosticStatus::Passed, owned(m.as_str()))
                    } else {
                        (DiagnosticStatus::Warning, owned(m.as_str()))
                    }
                },
                Err(e) => (DiagnosticStatus::Error, owned(e.as_str())),
            };
            push_diag(out, "WAL mode", wal_status, wal_message);
            let (fk_status, fk_message) = match &d.foreign_keys {
                Ok(v) => if *v == 1 {
                    (DiagnosticStatus::Passed, owned("Enabled"))
                } else {
                    (DiagnosticStatus::Warning, owned("Disabled"))
                },
                Err(e) => (DiagnosticStatus::Error, owned(e.as_str())),
            };
            push_diag(out, "Foreign keys", fk_status, fk_message);
            let mut summary = String::new();
            crate::text::push_int(&mut summary, d.project_count);
            push_str(&mut summary, " projects, ");
            crate::text::push_int(&mut summary, d.task_count);
            push_str(&mut summary, " tasks, ");
            crate::text::push_int(&mut summary, d.session_count);
            push_str(&mut summary, " sessions");
            push_diag(out, "Data summary", DiagnosticStatus::Passed, summary);
            assert(diag_views(out@) =~= before + connection_lines(*c));
        },
        Err(e) => {
            push_diag(out, "Database connection", DiagnosticStatus::Error, owned(e.as_str()));
            assert(diag_views(out@) =~= before + connection_lines(*c));
        },
    }
}

/// Appends the lines before the database connection's.
fn push_head(out: &mut Vec<DiagnosticResult>, w: &Workspace, display: String, f: &DoctorFindings)
    ensures
        diag_views(final(out)@) == diag_views(old(out)@) + seq![
            diag("Workspace"@, DiagnosticStatus::Info, display@),
            diag("Mode"@, DiagnosticStatus::Info, w.mode.label_spec()),
            diag("Database"@, exists_status(f.db_exists), w.db_path@),
        ] + match f.matched_root {
            Some(root) => seq![diag("Root"@, DiagnosticStatus::Info, root@ + " (matched from registry)"@)],
            None => Seq::empty(),
        } + seq![
            diag("Workspace directory"@, exists_status(f.granary_dir_exists), w.granary_dir@),
            diag("Database file"@, exists_status(f.db_exists), w.db_path@),
        ],
{
    let ghost before = diag_views(out@);
    let ghost disp = display@;
    push_diag(out, "Workspace", DiagnosticStatus::Info, display);
    push_diag(out, "Mode", DiagnosticStatus::Info, owned(w.mode.label()));
    let db_status = if f.db_exists { DiagnosticStatus::Passed } else { DiagnosticStatus::Error };
    push_diag(out, "Database", db_status, owned(w.db_path.as_str()));
    let ghost mid = diag_views(out@);
    match &f.matched_root {
        Some(root) => {
            let mut m = owned(root.as_str());
            push_str(&mut m, " (matched from registry)");
            push_diag(out, "Root", DiagnosticStatus::Info, m);
        },
        None => {
            assert(diag_views(out@) =~= mid + Seq::empty());
        },
    }
    let dir_status = if f.granary_dir_exists { DiagnosticStatus::Passed } else { DiagnosticStatus::Error };
    push_diag(out, "Workspace directory", dir_status, owned(w.granary_dir.as_str()));
    push_diag(out, "Database file", db_status, owned(w.db_path.as_str()));
    assert(diag_views(out@) =~= before + seq![
        diag("Workspace"@, DiagnosticStatus::Info, disp),
        diag("Mode"@, DiagnosticStatus::Info, w.mode.label_spec()),
        diag("Database"@, exists_status(f.db_exists), w.db_path@),
    ] + match f.matched_root {
        Some(root) => seq![diag("Root"@, DiagnosticStatus::Info, root@ + " (matched from registry)"@)],
        None => Seq::empty(),
    } + seq![
        diag("Workspace directory"@, exists_status(f.granary_dir_exists), w.granary_dir@),
        diag("Database file"@, exists_status(f.db_exists), w.db_path@),
    ]);
}

impl Workspace {
    /// The diagnosis of the workspace, from what was found on disk and in
    /// its database: its name and mode, its database and directory (present
    /// or not), its registry root, the database's settings and contents, and
    /// the current session.
    pub fn doctor(&self, findings: DoctorFindings) -> (r: Vec<DiagnosticResult>)
        ensures
            diag_views(r@) == doctor_lines(
                *self,
                match self.mode {
                    WorkspaceMode::Default => "default"@,
                    WorkspaceMode::Named(n) => n@,
                    WorkspaceMode::Local => match file_name_of(components_of(self.root@)) {
                        Some(n) => n,
                        None => self.root@,
                    },
                },
                findings,
            ),
    {
        let mut out: Vec<DiagnosticResult> = Vec::new();
        let display = self.display_name();
        let ghost disp = display@;
        push_head(&mut out, self, display, &findings);
        push_connection(&mut out, &findings.connection);
        let ghost before_last = diag_views(out@);
        match &findings.current_session {
            Some(id) => push_diag(&mut out, "Current session", DiagnosticStatus::Passed, owned(id.as_str())),
            None => push_diag(&mut out, "Current session", DiagnosticStatus::Info, owned("None")),
        }
        assert(diag_views(out@) =~= doctor_lines(*self, disp, findings));
        out
    }
}

} // verus!
