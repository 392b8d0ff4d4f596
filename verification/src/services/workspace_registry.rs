//! The registry of named workspaces and the directory roots mapped to them.
//!
//! A root is matched by its path components, as `Path` compares paths: a
//! directory belongs to the workspace of the deepest registered root among
//! itself and its ancestors.
use vstd::prelude::*;
use crate::error::GranaryError;
use crate::path::{components_of, path_components};
use crate::services::global_config::{config_path_result, home_path, parts2, parts3, path_under, under_config};
use crate::text::{copy_strings, owned, push_str, text_eq, views};

verus! {

/// When a workspace was created.
#[derive(Debug)]
pub struct WorkspaceMetadata {
    pub created_at: String,
}

impl Clone for WorkspaceMetadata {
    fn clone(&self) -> (r: Self)
        ensures
            r == *self,
    {
        WorkspaceMetadata { created_at: self.created_at.clone() }
    }
}

/// A registered root: its path, the path's components, and its workspace.
#[derive(Debug)]
struct RootEntry {
    path: String,
    parts: Vec<String>,
    workspace: String,
}

/// A root, as the registry's contracts see it.
pub struct RootView {
    pub parts: Seq<Seq<char>>,
    pub path: Seq<char>,
    pub workspace: Seq<char>,
}

/// The number of leading components that a walk to the parent directories
/// never drops: the root of an absolute path.
pub open spec fn walk_floor(cs: Seq<Seq<char>>) -> nat {
    if cs.len() > 0 && cs[0] == "/"@ {
        1
    } else {
        0
    }
}

/// The workspace of the root whose components are `cs`.
pub open spec fn root_at(roots: Seq<RootView>, cs: Seq<Seq<char>>) -> Option<Seq<char>>
    decreases roots.len(),
{
    if roots.len() == 0 {
        None
    } else if roots[0].parts == cs {
        Some(roots[0].workspace)
    } else {
        root_at(roots.drop_first(), cs)
    }
}

/// The workspace of the deepest root among the first `k` components of `cs`,
/// then fewer, down to the walk's floor.
pub open spec fn lookup_from(roots: Seq<RootView>, cs: Seq<Seq<char>>, k: nat) -> Option<Seq<char>>
    decreases k,
{
    match root_at(roots, cs.take(k as int)) {
        Some(w) => Some(w),
        None => if k <= walk_floor(cs) {
            None
        } else {
            lookup_from(roots, cs, (k - 1) as nat)
        },
    }
}

/// The workspace a directory belongs to: that of the deepest registered root
/// among the directory and its ancestors.
pub open spec fn lookup_spec(roots: Seq<RootView>, path: Seq<char>) -> Option<Seq<char>> {
    lookup_from(roots, components_of(path), components_of(path).len())
}

/// The workspace named `name`.
pub open spec fn workspace_named(ws: Seq<(String, WorkspaceMetadata)>, name: Seq<char>) -> Option<WorkspaceMetadata>
    decreases ws.len(),
{
    if ws.len() == 0 {
        None
    } else if ws[0].0@ == name {
        Some(ws[0].1)
    } else {
        workspace_named(ws.drop_first(), name)
    }
}

/// Named workspaces, and the directory roots that belong to them.
#[derive(Debug)]
pub struct WorkspaceRegistry {
    roots: Vec<RootEntry>,
    workspaces: Vec<(String, WorkspaceMetadata)>,
}

/// The view of a root entry.
spec fn root_view(e: RootEntry) -> RootView {
    RootView { parts: views(e.parts@), path: e.path@, workspace: e.workspace@ }
}

impl WorkspaceRegistry {
    #[verifier::type_invariant]
    spec fn wf(self) -> bool {
        &&& forall|i: int| 0 <= i < self.roots@.len() ==> views((#[trigger] self.roots@[i]).parts@) == components_of(
            self.roots@[i].path@,
        )
        &&& forall|i: int, j: int| 0 <= i < j < self.roots@.len() ==> views(self.roots@[i].parts@) != views(
            self.roots@[j].parts@,
        )
        &&& forall|i: int, j: int| 0 <= i < j < self.workspaces@.len() ==> self.workspaces@[i].0@
            != self.workspaces@[j].0@
    }

    /// The registered roots, in order.
    pub closed spec fn roots_spec(self) -> Seq<RootView> {
        entries_view(self.roots@)
    }

    /// The workspaces, in order.
    pub closed spec fn workspaces_spec(self) -> Seq<(String, WorkspaceMetadata)> {
        self.workspaces@
    }

    /// An empty registry.
    pub fn new() -> (r: WorkspaceRegistry)
        ensures
            r.roots_spec().len() == 0,
            r.workspaces_spec().len() == 0,
    {
        WorkspaceRegistry { roots: Vec::new(), workspaces: Vec::new() }
    }
}

/// `a` equals the first `k` elements of `b`, element by element.
fn parts_eq(a: &Vec<String>, b: &Vec<String>, k: usize) -> (r: bool)
    requires
        k <= b@.len(),
    ensures
        r == (views(a@) == views(b@).take(k as int)),
{
    if a.len() != k {
        proof {
            assert(views(a@).len() != views(b@).take(k as int).len());
        }
        return false;
    }
    let mut i: usize = 0;
    while i < k
        invariant
            a@.len() == k,
            k <= b@.len(),
            0 <= i <= k,
            forall|j: int| 0 <= j < i ==> a@[j]@ == b@[j]@,
        decreases k - i,
    {
        if !text_eq(a[i].as_str(), b[i].as_str()) {
            proof {
                assert(views(a@)[i as int] != views(b@).take(k as int)[i as int]);
            }
            return false;
        }
        i = i + 1;
    }
    assert(views(a@) =~= views(b@).take(k as int));
    true
}

/// The views of root entries.
pub closed spec fn entries_view(roots: Seq<RootEntry>) -> Seq<RootView> {
    roots.map_values(|e: RootEntry| root_view(e))
}

/// The index of the root whose components are the first `k` of `cs`.
fn root_index(roots: &Vec<RootEntry>, cs: &Vec<String>, k: usize) -> (r: Option<usize>)
    requires
        k <= cs@.len(),
    ensures
        match r {
            Some(i) => i < roots@.len() && entries_view(roots@)[i as int].parts == views(cs@).take(k as int)
                && root_at(entries_view(roots@), views(cs@).take(k as int)) == Some(entries_view(roots@)[i as int].workspace),
            None => root_at(entries_view(roots@), views(cs@).take(k as int)) is None,
        },
{
    let ghost target = views(cs@).take(k as int);
    let ghost rs = entries_view(roots@);
    let mut i: usize = 0;
    assert(rs.subrange(0, rs.len() as int) =~= rs);
    while i < roots.len()
        invariant
            0 <= i <= roots@.len(),
            rs == entries_view(roots@),
            rs.len() == roots@.len(),
            target == views(cs@).take(k as int),
            k <= cs@.len(),
            root_at(rs, target) == root_at(rs.subrange(i as int, rs.len() as int), target),
        decreases roots@.len() - i,
    {
        let ghost rest = rs.subrange(i as int, rs.len() as int);
        assert(rest.drop_first() =~= rs.subrange(i as int + 1, rs.len() as int));
        assert(rest[0] == rs[i as int]);
        assert(rs[i as int] == root_view(roots@[i as int]));
        if parts_eq(&roots[i].parts, cs, k) {
            return Some(i);
        }
        i = i + 1;
    }
    None
}

impl WorkspaceRegistry {
    /// The workspace of the directory `path`: that of the deepest registered
    /// root among the directory and its ancestors (see [`lookup_spec`]).
    pub fn lookup_root(&self, path: &str) -> (r: Option<&str>)
        ensures
            match lookup_spec(self.roots_spec(), path@) {
                Some(w) => r matches Some(s) && s@ == w,
                None => r is None,
            },
    {
        let cs = path_components(path);
        let ghost comps = components_of(path@);
        let floor: usize = if cs.len() > 0 && text_eq(cs[0].as_str(), "/") { 1 } else { 0 };
        proof {
            if cs@.len() > 0 {
                assert(views(cs@)[0] == cs@[0]@);
            }
            assert(floor == walk_floor(comps));
        }
        let mut k: usize = cs.len();
        loop
            invariant
                views(cs@) == comps,
                comps == components_of(path@),
                floor == walk_floor(comps),
                k <= cs@.len(),
                floor <= cs@.len() ==> floor <= k,
                lookup_spec(self.roots_spec(), path@) == lookup_from(self.roots_spec(), comps, k as nat),
            decreases k,
        {
            match root_index(&self.roots, &cs, k) {
                Some(i) => {
                    return Some(self.roots[i].workspace.as_str());
                },
                None => {
                    if k <= floor {
                        return None;
                    }
                },
            }
            k = k - 1;
        }
    }

    /// The workspace of the root registered exactly at `path`.
    pub fn get_root(&self, path: &str) -> (r: Option<&str>)
        ensures
            match root_at(self.roots_spec(), components_of(path@)) {
                Some(w) => r matches Some(s) && s@ == w,
                None => r is None,
            },
    {
        let cs = path_components(path);
        assert(views(cs@).take(cs@.len() as int) =~= views(cs@));
        match root_index(&self.roots, &cs, cs.len()) {
            Some(i) => Some(self.roots[i].workspace.as_str()),
            None => None,
        }
    }

    /// The number of registered roots.
    pub fn root_count(&self) -> (r: usize)
        ensures
            r == self.roots_spec().len(),
    {
        self.roots.len()
    }

    /// The number of workspaces.
    pub fn workspace_count(&self) -> (r: usize)
        ensures
            r == self.workspaces_spec().len(),
    {
        self.workspaces.len()
    }

    /// The index of the workspace named `name`.
    fn workspace_index(&self, name: &str) -> (r: Option<usize>)
        ensures
            match r {
                Some(i) => i < self.workspaces@.len() && self.workspaces@[i as int].0@ == name@
                    && workspace_named(self.workspaces@, name@) == Some(self.workspaces@[i as int].1),
                None => workspace_named(self.workspaces@, name@) is None,
            },
    {
        let mut i: usize = 0;
        assert(self.workspaces@.subrange(0, self.workspaces@.len() as int) =~= self.workspaces@);
        while i < self.workspaces.len()
            invariant
                0 <= i <= self.workspaces@.len(),
                workspace_named(self.workspaces@, name@) == workspace_named(
                    self.workspaces@.subrange(i as int, self.workspaces@.len() as int),
                    name@,
                ),
            decreases self.workspaces@.len() - i,
        {
            let ghost rest = self.workspaces@.subrange(i as int, self.workspaces@.len() as int);
            assert(rest.drop_first() =~= self.workspaces@.subrange(i as int + 1, self.workspaces@.len() as int));
            if text_eq(self.workspaces[i].0.as_str(), name) {
                return Some(i);
            }
            i = i + 1;
        }
        None
    }

    /// The workspace named `name`, if there is one.
    pub fn get_workspace(&self, name: &str) -> (r: Option<&WorkspaceMetadata>)
        ensures
            r == (match workspace_named(self.workspaces_spec(), name@) {
                Some(m) => Some(&m),
                None => None::<&WorkspaceMetadata>,
            }),
    {
        match self.workspace_index(name) {
            Some(i) => Some(&self.workspaces[i].1),
            None => None,
        }
    }
}

/// Roots with distinct components.
pub open spec fn roots_distinct(rs: Seq<RootView>) -> bool {
    forall|i: int, j: int| 0 <= i < j < rs.len() ==> rs[i].parts != rs[j].parts
}

proof fn lemma_root_at_index(rs: Seq<RootView>, i: int)
    requires
        roots_distinct(rs),
        0 <= i < rs.len(),
    ensures
        root_at(rs, rs[i].parts) == Some(rs[i].workspace),
    decreases i,
{
    if i > 0 {
        assert(rs[0].parts != rs[i].parts);
        assert(rs.drop_first()[i - 1] == rs[i]);
        lemma_root_at_index(rs.drop_first(), i - 1);
    }
}

proof fn lemma_root_at_none(rs: Seq<RootView>, cs: Seq<Seq<char>>)
    requires
        forall|j: int| 0 <= j < rs.len() ==> rs[j].parts != cs,
    ensures
        root_at(rs, cs) is None,
    decreases rs.len(),
{
    if rs.len() > 0 {
        assert forall|j: int| 0 <= j < rs.drop_first().len() implies rs.drop_first()[j].parts != cs by {
            assert(rs.drop_first()[j] == rs[j + 1]);
        }
        lemma_root_at_none(rs.drop_first(), cs);
    }
}

proof fn lemma_root_at_some(rs: Seq<RootView>, cs: Seq<Seq<char>>)
    requires
        root_at(rs, cs) is Some,
    ensures
        exists|j: int| 0 <= j < rs.len() && rs[j].parts == cs && root_at(rs, cs) == Some(rs[j].workspace),
    decreases rs.len(),
{
    if rs[0].parts != cs {
        lemma_root_at_some(rs.drop_first(), cs);
        let j = choose|j: int| 0 <= j < rs.drop_first().len() && rs.drop_first()[j].parts == cs && root_at(
            rs.drop_first(),
            cs,
        ) == Some(rs.drop_first()[j].workspace);
        assert(rs[j + 1] == rs.drop_first()[j]);
    }
}

proof fn lemma_root_at_same_except(a: Seq<RootView>, b: Seq<RootView>, i: int, key: Seq<Seq<char>>)
    requires
        a.len() == b.len(),
        0 <= i < a.len(),
        a[i].parts != key,
        b[i].parts != key,
        forall|j: int| 0 <= j < a.len() && j != i ==> b[j] == a[j],
    ensures
        root_at(b, key) == root_at(a, key),
    decreases a.len(),
{
    if i > 0 {
        assert(a.drop_first()[i - 1] == a[i]);
        assert(b.drop_first()[i - 1] == b[i]);
        assert forall|j: int| 0 <= j < a.drop_first().len() && j != i - 1 implies b.drop_first()[j] == a.drop_first()[j] by {
            assert(b.drop_first()[j] == b[j + 1]);
            assert(a.drop_first()[j] == a[j + 1]);
        }
        lemma_root_at_same_except(a.drop_first(), b.drop_first(), i - 1, key);
    } else {
        assert(a.drop_first() =~= b.drop_first());
    }
}

proof fn lemma_root_at_push(rs: Seq<RootView>, v: RootView, key: Seq<Seq<char>>)
    ensures
        root_at(rs.push(v), key) == if root_at(rs, key) is Some {
            root_at(rs, key)
        } else if v.parts == key {
            Some(v.workspace)
        } else {
            None
        },
    decreases rs.len(),
{
    if rs.len() > 0 {
        assert(rs.push(v)[0] == rs[0]);
        assert(rs.push(v).drop_first() =~= rs.drop_first().push(v));
        lemma_root_at_push(rs.drop_first(), v, key);
    } else {
        assert(rs.push(v)[0] == v);
        assert(rs.push(v).drop_first().len() == 0);
        assert(root_at(rs.push(v).drop_first(), key) is None);
        assert(root_at(rs, key) is None);
    }
}

proof fn lemma_root_at_remove(rs: Seq<RootView>, i: int, key: Seq<Seq<char>>)
    requires
        0 <= i < rs.len(),
        rs[i].parts != key,
    ensures
        root_at(rs.remove(i), key) == root_at(rs, key),
    decreases rs.len(),
{
    if i == 0 {
        assert(rs.remove(0) =~= rs.drop_first());
    } else {
        assert(rs.remove(i)[0] == rs[0]);
        assert(rs.remove(i).drop_first() =~= rs.drop_first().remove(i - 1));
        assert(rs.drop_first()[i - 1] == rs[i]);
        lemma_root_at_remove(rs.drop_first(), i - 1, key);
    }
}

/// Roots that agree on every component list other than `key`, and where
/// `key` has `value`.
pub open spec fn roots_set(before: Seq<RootView>, after: Seq<RootView>, key: Seq<Seq<char>>, value: Option<Seq<char>>) -> bool {
    &&& root_at(after, key) == value
    &&& forall|cs: Seq<Seq<char>>| cs != key ==> root_at(after, cs) == root_at(before, cs)
}

/// The message of a root that is registered already.
pub open spec fn registered_message(path: Seq<char>, existing: Seq<char>) -> Seq<char> {
    path + " is already part of workspace \""@ + existing + "\""@
}

/// The message of a workspace that does not exist.
pub open spec fn missing_workspace_message(name: Seq<char>) -> Seq<char> {
    "Workspace \""@ + name + "\" does not exist. Create it first."@
}

impl WorkspaceRegistry {
    proof fn lemma_view_distinct(&self)
        requires
            self.wf(),
        ensures
            roots_distinct(self.roots_spec()),
            self.roots_spec().len() == self.roots@.len(),
            forall|i: int| 0 <= i < self.roots@.len() ==> #[trigger] self.roots_spec()[i] == root_view(self.roots@[i]),
    {
        assert forall|i: int, j: int| 0 <= i < j < self.roots_spec().len() implies self.roots_spec()[i].parts
            != self.roots_spec()[j].parts by {
            assert(self.roots_spec()[i] == root_view(self.roots@[i]));
            assert(self.roots_spec()[j] == root_view(self.roots@[j]));
        }
    }

    /// Maps the directory `path` to `workspace`, replacing the workspace of a
    /// root registered at the same path (the map's insertion).
    pub fn insert_root(&mut self, path: String, workspace: String)
        ensures
            roots_set(old(self).roots_spec(), final(self).roots_spec(), components_of(path@), Some(workspace@)),
            final(self).workspaces_spec() == old(self).workspaces_spec(),
    {
        proof {
            use_type_invariant(&*self);
            self.lemma_view_distinct();
        }
        let cs = path_components(path.as_str());
        assert(views(cs@).take(cs@.len() as int) =~= views(cs@));
        let ghost before = self.roots_spec();
        let ghost key = components_of(path@);
        let mut roots: Vec<RootEntry> = Vec::new();
        std::mem::swap(&mut roots, &mut self.roots);
        let ghost old_roots = roots@;
        assert(entries_view(old_roots) == before);
        match root_index(&roots, &cs, cs.len()) {
            Some(i) => {
                let e = RootEntry { path: roots[i].path.clone(), parts: copy_strings(&roots[i].parts), workspace };
                roots.set(i, e);
                proof {
                    let after = entries_view(roots@);
                    assert(after =~= before.update(i as int, root_view(e)));
                    assert(root_view(e).parts == before[i as int].parts);
                    assert forall|a: int, b: int| 0 <= a < b < after.len() implies after[a].parts != after[b].parts by {
                        assert(before[a].parts != before[b].parts);
                    }
                    lemma_root_at_index(after, i as int);
                    assert forall|c: Seq<Seq<char>>| c != key implies root_at(after, c) == root_at(before, c) by {
                        lemma_root_at_same_except(before, after, i as int, c);
                    }
                    assert forall|a: int| 0 <= a < roots@.len() implies views((#[trigger] roots@[a]).parts@)
                        == components_of(roots@[a].path@) by {
                        if a != i {
                            assert(roots@[a] == old_roots[a]);
                        }
                    }
                    assert forall|a: int, b: int| 0 <= a < b < roots@.len() implies views(roots@[a].parts@) != views(
                        roots@[b].parts@,
                    ) by {
                        assert(after[a] == root_view(roots@[a]));
                        assert(after[b] == root_view(roots@[b]));
                    }
                }
            },
            None => {
                let e = RootEntry { path, parts: cs, workspace };
                roots.push(e);
                proof {
                    let after = entries_view(roots@);
                    assert(after =~= before.push(root_view(e)));
                    assert forall|a: int| 0 <= a < before.len() implies before[a].parts != key by {
                        if before[a].parts == key {
                            lemma_root_at_index(before, a);
                        }
                    }
                    lemma_root_at_push(before, root_view(e), key);
                    assert forall|c: Seq<Seq<char>>| c != key implies root_at(after, c) == root_at(before, c) by {
                        lemma_root_at_push(before, root_view(e), c);
                    }
                    assert forall|a: int| 0 <= a < roots@.len() implies views((#[trigger] roots@[a]).parts@)
                        == components_of(roots@[a].path@) by {
                        if a < old_roots.len() {
                            assert(roots@[a] == old_roots[a]);
                        }
                    }
                    assert forall|a: int, b: int| 0 <= a < b < roots@.len() implies views(roots@[a].parts@) != views(
                        roots@[b].parts@,
                    ) by {
                        assert(after[a] == root_view(roots@[a]));
                        assert(after[b] == root_view(roots@[b]));
                        if b < old_roots.len() {
                            assert(before[a].parts != before[b].parts);
                        }
                    }
                }
            },
        }
        self.roots = roots;
    }
}

impl WorkspaceRegistry {
    /// Maps the directory `path` to the existing workspace `workspace`. A path
    /// registered already gives [`GranaryError::Conflict`]; an unknown
    /// workspace gives [`GranaryError::InvalidArgument`]; the registry is then
    /// left as it was.
    pub fn add_root(&mut self, path: String, workspace: &str) -> (r: Result<(), GranaryError>)
        ensures
            match root_at(old(self).roots_spec(), components_of(path@)) {
                Some(existing) => r matches Err(GranaryError::Conflict(m)) && m@ == registered_message(path@, existing),
                None => match workspace_named(old(self).workspaces_spec(), workspace@) {
                    None => r matches Err(GranaryError::InvalidArgument(m)) && m@ == missing_workspace_message(workspace@),
                    Some(_) => r is Ok,
                },
            },
            r is Ok ==> roots_set(old(self).roots_spec(), final(self).roots_spec(), components_of(path@), Some(workspace@)),
            r is Err ==> final(self).roots_spec() == old(self).roots_spec(),
            final(self).workspaces_spec() == old(self).workspaces_spec(),
    {
        if let Some(existing) = self.get_root(path.as_str()) {
            let mut m = owned(path.as_str());
            push_str(&mut m, " is already part of workspace \"");
            push_str(&mut m, existing);
            push_str(&mut m, "\"");
            return Err(GranaryError::Conflict(m));
        }
        if self.get_workspace(workspace).is_none() {
            let mut m = owned("Workspace \"");
            push_str(&mut m, workspace);
            push_str(&mut m, "\" does not exist. Create it first.");
            return Err(GranaryError::InvalidArgument(m));
        }
        self.insert_root(path, owned(workspace));
        Ok(())
    }

    /// Removes the root registered at `path`, telling whether there was one.
    pub fn remove_root(&mut self, path: &str) -> (r: Result<bool, GranaryError>)
        ensures
            r == Ok::<bool, GranaryError>(root_at(old(self).roots_spec(), components_of(path@)) is Some),
            roots_set(old(self).roots_spec(), final(self).roots_spec(), components_of(path@), None),
            final(self).workspaces_spec() == old(self).workspaces_spec(),
    {
        proof {
            use_type_invariant(&*self);
            self.lemma_view_distinct();
        }
        let cs = path_components(path);
        assert(views(cs@).take(cs@.len() as int) =~= views(cs@));
        let ghost before = self.roots_spec();
        let ghost key = components_of(path@);
        let mut roots: Vec<RootEntry> = Vec::new();
        std::mem::swap(&mut roots, &mut self.roots);
        let ghost old_roots = roots@;
        let found = match root_index(&roots, &cs, cs.len()) {
            Some(i) => {
                roots.remove(i);
                proof {
                    let after = entries_view(roots@);
                    assert(after =~= before.remove(i as int));
                    assert forall|a: int| 0 <= a < after.len() implies after[a].parts != key by {
                        let a2 = if a < i { a } else { a + 1 };
                        assert(after[a] == before[a2]);
                        assert(before[a2].parts != before[i as int].parts || a2 == i);
                    }
                    lemma_root_at_none(after, key);
                    assert forall|c: Seq<Seq<char>>| c != key implies root_at(after, c) == root_at(before, c) by {
                        lemma_root_at_remove(before, i as int, c);
                    }
                    assert forall|a: int| 0 <= a < roots@.len() implies views((#[trigger] roots@[a]).parts@)
                        == components_of(roots@[a].path@) by {
                        let a2 = if a < i { a } else { a + 1 };
                        assert(roots@[a] == old_roots[a2]);
                    }
                    assert forall|a: int, b: int| 0 <= a < b < roots@.len() implies views(roots@[a].parts@) != views(
                        roots@[b].parts@,
                    ) by {
                        let a2 = if a < i { a } else { a + 1 };
                        let b2 = if b < i { b } else { b + 1 };
                        assert(roots@[a] == old_roots[a2]);
                        assert(roots@[b] == old_roots[b2]);
                    }
                }
                true
            },
            None => false,
        };
        self.roots = roots;
        Ok(found)
    }

    /// Records the workspace `name`, replacing the metadata of one of that
    /// name (the map's insertion).
    pub fn insert_workspace(&mut self, name: String, meta: WorkspaceMetadata)
        ensures
            workspace_named(final(self).workspaces_spec(), name@) == Some(meta),
            forall|other: Seq<char>| other != name@ ==> workspace_named(final(self).workspaces_spec(), other)
                == workspace_named(old(self).workspaces_spec(), other),
            final(self).roots_spec() == old(self).roots_spec(),
    {
        proof {
            use_type_invariant(&*self);
        }
        let ghost before = self.workspaces@;
        let mut ws: Vec<(String, WorkspaceMetadata)> = Vec::new();
        std::mem::swap(&mut ws, &mut self.workspaces);
        let found = self.workspace_index_in(&ws, name.as_str());
        match found {
            Some(i) => {
                ws.set(i, (name, meta));
                proof {
                    lemma_workspace_at(ws@, i as int);
                    assert forall|other: Seq<char>| other != ws@[i as int].0@ implies workspace_named(ws@, other)
                        == workspace_named(before, other) by {
                        lemma_workspace_same_except(before, ws@, i as int, other);
                    }
                }
            },
            None => {
                let ghost e = (name, meta);
                ws.push((name, meta));
                proof {
                    assert(ws@ == before.push(e));
                    lemma_workspace_push(before, e);
                }
            },
        }
        self.workspaces = ws;
    }

    /// Creates the workspace `name`, created at `created_at`. An existing
    /// workspace of that name gives [`GranaryError::Conflict`] and changes
    /// nothing.
    pub fn create_workspace_at(&mut self, name: &str, created_at: String) -> (r: Result<(), GranaryError>)
        ensures
            match workspace_named(old(self).workspaces_spec(), name@) {
                Some(_) => r matches Err(GranaryError::Conflict(m)) && m@ == "Workspace \""@ + name@
                    + "\" already exists"@ && final(self).workspaces_spec() == old(self).workspaces_spec(),
                None => r is Ok && workspace_named(final(self).workspaces_spec(), name@) == Some(
                    WorkspaceMetadata { created_at },
                ) && forall|other: Seq<char>| other != name@ ==> workspace_named(final(self).workspaces_spec(), other)
                    == workspace_named(old(self).workspaces_spec(), other),
            },
            final(self).roots_spec() == old(self).roots_spec(),
    {
        if self.get_workspace(name).is_some() {
            let mut m = owned("Workspace \"");
            push_str(&mut m, name);
            push_str(&mut m, "\" already exists");
            return Err(GranaryError::Conflict(m));
        }
        self.insert_workspace(owned(name), WorkspaceMetadata { created_at });
        Ok(())
    }

    /// Creates the workspace `name` now, as [`Self::create_workspace_at`]
    /// does, with the time the clock reads as its creation time. An existing
    /// workspace of that name gives [`GranaryError::Conflict`] and changes
    /// nothing. (Its directory on disk is made by the caller.)
    pub fn create_workspace(&mut self, name: &str) -> (r: Result<(), GranaryError>)
        ensures
            match workspace_named(old(self).workspaces_spec(), name@) {
                Some(_) => r matches Err(GranaryError::Conflict(m)) && m@ == "Workspace \""@ + name@
                    + "\" already exists"@ && final(self).workspaces_spec() == old(self).workspaces_spec(),
                None => r is Ok && workspace_named(final(self).workspaces_spec(), name@) is Some
                    && forall|other: Seq<char>| other != name@ ==> workspace_named(final(self).workspaces_spec(), other)
                    == workspace_named(old(self).workspaces_spec(), other),
            },
            final(self).roots_spec() == old(self).roots_spec(),
    {
        if self.get_workspace(name).is_some() {
            let mut m = owned("Workspace \"");
            push_str(&mut m, name);
            push_str(&mut m, "\" already exists");
            return Err(GranaryError::Conflict(m));
        }
        let now = crate::clock::now_rfc3339();
        self.create_workspace_at(name, now)
    }

    /// The index of the workspace named `name` in `ws`.
    fn workspace_index_in(&self, ws: &Vec<(String, WorkspaceMetadata)>, name: &str) -> (r: Option<usize>)
        ensures
            match r {
                Some(i) => i < ws@.len() && ws@[i as int].0@ == name@,
                None => forall|j: int| 0 <= j < ws@.len() ==> ws@[j].0@ != name@,
            },
    {
        let mut i: usize = 0;
        while i < ws.len()
            invariant
                0 <= i <= ws@.len(),
                forall|j: int| 0 <= j < i ==> ws@[j].0@ != name@,
            decreases ws@.len() - i,
        {
            if text_eq(ws[i].0.as_str(), name) {
                return Some(i);
            }
            i = i + 1;
        }
        None
    }
}

proof fn lemma_workspace_at(ws: Seq<(String, WorkspaceMetadata)>, i: int)
    requires
        0 <= i < ws.len(),
        forall|j: int| 0 <= j < i ==> ws[j].0@ != ws[i].0@,
    ensures
        workspace_named(ws, ws[i].0@) == Some(ws[i].1),
    decreases i,
{
    if i > 0 {
        assert(ws.drop_first()[i - 1] == ws[i]);
        lemma_workspace_at(ws.drop_first(), i - 1);
    }
}

proof fn lemma_workspace_same_except(
    a: Seq<(String, WorkspaceMetadata)>,
    b: Seq<(String, WorkspaceMetadata)>,
    i: int,
    key: Seq<char>,
)
    requires
        a.len() == b.len(),
        0 <= i < a.len(),
        a[i].0@ == b[i].0@,
        b[i].0@ != key,
        forall|j: int| 0 <= j < a.len() && j != i ==> b[j] == a[j],
    ensures
        workspace_named(b, key) == workspace_named(a, key),
    decreases a.len(),
{
    if i > 0 {
        assert(a.drop_first()[i - 1] == a[i]);
        assert(b.drop_first()[i - 1] == b[i]);
        assert forall|j: int| 0 <= j < a.drop_first().len() && j != i - 1 implies b.drop_first()[j] == a.drop_first()[j] by {
            assert(b.drop_first()[j] == b[j + 1]);
            assert(a.drop_first()[j] == a[j + 1]);
        }
        lemma_workspace_same_except(a.drop_first(), b.drop_first(), i - 1, key);
    } else {
        assert(a.drop_first() =~= b.drop_first());
    }
}

proof fn lemma_workspace_push(ws: Seq<(String, WorkspaceMetadata)>, e: (String, WorkspaceMetadata))
    requires
        forall|j: int| 0 <= j < ws.len() ==> ws[j].0@ != e.0@,
    ensures
        workspace_named(ws.push(e), e.0@) == Some(e.1),
        forall|other: Seq<char>| other != e.0@ ==> workspace_named(ws.push(e), other) == workspace_named(ws, other),
    decreases ws.len(),
{
    if ws.len() > 0 {
        assert(ws.push(e)[0] == ws[0]);
        assert(ws.push(e).drop_first() =~= ws.drop_first().push(e));
        assert forall|j: int| 0 <= j < ws.drop_first().len() implies ws.drop_first()[j].0@ != e.0@ by {
            assert(ws.drop_first()[j] == ws[j + 1]);
        }
        lemma_workspace_push(ws.drop_first(), e);
        assert forall|other: Seq<char>| other != e.0@ implies workspace_named(ws.push(e), other) == workspace_named(ws, other) by {
            if ws[0].0@ != other {
                assert(workspace_named(ws.drop_first().push(e), other) == workspace_named(ws.drop_first(), other));
            }
        }
    } else {
        assert(ws.push(e)[0] == e);
        assert(ws.push(e).drop_first().len() == 0);
        assert forall|other: Seq<char>| other != e.0@ implies workspace_named(ws.push(e), other) == workspace_named(ws, other) by {
            assert(workspace_named(ws.push(e).drop_first(), other) is None);
            assert(workspace_named(ws, other) is None);
        }
    }
}

/// The paths of the roots that belong to the workspace `name`, in order.
pub open spec fn roots_of(rs: Seq<RootView>, name: Seq<char>) -> Seq<Seq<char>>
    decreases rs.len(),
{
    if rs.len() == 0 {
        Seq::empty()
    } else {
        roots_of(rs.drop_last(), name) + if rs.last().workspace == name {
            seq![rs.last().path]
        } else {
            Seq::empty()
        }
    }
}

impl WorkspaceRegistry {
    /// The paths of the roots that belong to the workspace `name`.
    pub fn root_paths_of(&self, name: &str) -> (r: Vec<String>)
        ensures
            views(r@) == roots_of(self.roots_spec(), name@),
    {
        let ghost rs = self.roots_spec();
        let mut out: Vec<String> = Vec::new();
        let mut i: usize = 0;
        assert(rs.take(0) =~= Seq::<RootView>::empty());
        while i < self.roots.len()
            invariant
                0 <= i <= self.roots@.len(),
                rs == self.roots_spec(),
                rs.len() == self.roots@.len(),
                views(out@) == roots_of(rs.take(i as int), name@),
            decreases self.roots@.len() - i,
        {
            let ghost before = out@;
            assert(rs.take(i as int + 1).drop_last() =~= rs.take(i as int));
            assert(rs.take(i as int + 1).last() == rs[i as int]);
            assert(rs[i as int] == root_view(self.roots@[i as int]));
            if text_eq(self.roots[i].workspace.as_str(), name) {
                out.push(self.roots[i].path.clone());
                assert(views(out@) =~= views(before) + seq![self.roots@[i as int].path@]);
            } else {
                assert(views(out@) =~= views(before) + Seq::<Seq<char>>::empty());
            }
            i = i + 1;
        }
        assert(rs.take(rs.len() as int) =~= rs);
        out
    }

    /// Every workspace, in order, with its metadata and the paths of its
    /// roots.
    pub fn list_workspaces(&self) -> (r: Vec<(String, WorkspaceMetadata, Vec<String>)>)
        ensures
            r@.len() == self.workspaces_spec().len(),
            forall|i: int| 0 <= i < r@.len() ==> {
                &&& (#[trigger] r@[i]).0@ == self.workspaces_spec()[i].0@
                &&& r@[i].1 == self.workspaces_spec()[i].1
                &&& views(r@[i].2@) == roots_of(self.roots_spec(), self.workspaces_spec()[i].0@)
            },
            forall|i: int, j: int| 0 <= i < j < r@.len() ==> r@[i].0@ != r@[j].0@,
    {
        proof {
            use_type_invariant(self);
        }
        let mut out: Vec<(String, WorkspaceMetadata, Vec<String>)> = Vec::new();
        let mut i: usize = 0;
        while i < self.workspaces.len()
            invariant
                0 <= i <= self.workspaces@.len(),
                out@.len() == i,
                forall|j: int| 0 <= j < i ==> {
                    &&& (#[trigger] out@[j]).0@ == self.workspaces@[j].0@
                    &&& out@[j].1 == self.workspaces@[j].1
                    &&& views(out@[j].2@) == roots_of(self.roots_spec(), self.workspaces@[j].0@)
                },
            decreases self.workspaces@.len() - i,
        {
            let name = self.workspaces[i].0.clone();
            let meta = self.workspaces[i].1.clone();
            let paths = self.root_paths_of(name.as_str());
            out.push((name, meta, paths));
            i = i + 1;
        }
        out
    }

    /// `~/.granary/workspaces/registry.json`
    pub fn registry_path() -> (r: Result<String, GranaryError>)
        ensures
            config_path_result(r, seq!["workspaces"@, "registry.json"@]),
    {
        home_path(&parts2("workspaces", "registry.json"))
    }

    /// The registry file under the home directory `home`:
    /// `<home>/.granary/workspaces/registry.json`.
    pub fn registry_path_in(home: &str) -> (r: String)
        ensures
            r@ == under_config(home@, seq!["workspaces"@, "registry.json"@]),
    {
        path_under(home, &parts2("workspaces", "registry.json"))
    }

    /// `~/.granary/workspaces/<name>/granary.db`
    pub fn workspace_db_path(name: &str) -> (r: Result<String, GranaryError>)
        ensures
            config_path_result(r, seq!["workspaces"@, name@, "granary.db"@]),
    {
        home_path(&parts3("workspaces", name, "granary.db"))
    }

    /// The database of the workspace `name` under the home directory `home`:
    /// `<home>/.granary/workspaces/<name>/granary.db` (the name is joined as
    /// it is).
    pub fn workspace_db_path_in(home: &str, name: &str) -> (r: String)
        ensures
            r@ == under_config(home@, seq!["workspaces"@, name@, "granary.db"@]),
    {
        path_under(home, &parts3("workspaces", name, "granary.db"))
    }
}

/// A directory registered as a root belongs to that root's workspace.
pub proof fn law_registered_root_is_found(
    before: Seq<RootView>,
    after: Seq<RootView>,
    path: Seq<char>,
    workspace: Seq<char>,
)
    requires
        roots_set(before, after, components_of(path), Some(workspace)),
    ensures
        lookup_spec(after, path) == Some(workspace),
{
    let cs = components_of(path);
    assert(cs.take(cs.len() as int) =~= cs);
}

/// The workspace a directory belongs to is that of its deepest registered
/// ancestor (itself included): there is a root at the first `k` components
/// of the directory, and none at any deeper prefix.
pub proof fn law_lookup_finds_deepest(roots: Seq<RootView>, path: Seq<char>)
    requires
        lookup_spec(roots, path) is Some,
    ensures
        exists|k: nat| #![trigger components_of(path).take(k as int)]
            k <= components_of(path).len() && root_at(roots, components_of(path).take(k as int)) == lookup_spec(
                roots,
                path,
            ) && forall|d: nat| k < d <= components_of(path).len() ==> root_at(
                roots,
                #[trigger] components_of(path).take(d as int),
            ) is None,
{
    let cs = components_of(path);
    lemma_lookup_from_deepest(roots, cs, cs.len());
}

proof fn lemma_lookup_from_deepest(roots: Seq<RootView>, cs: Seq<Seq<char>>, k: nat)
    requires
        k <= cs.len(),
        lookup_from(roots, cs, k) is Some,
    ensures
        exists|j: nat| #![trigger cs.take(j as int)]
            j <= k && root_at(roots, cs.take(j as int)) == lookup_from(roots, cs, k) && forall|d: nat|
                j < d <= k ==> root_at(roots, #[trigger] cs.take(d as int)) is None,
    decreases k,
{
    if root_at(roots, cs.take(k as int)) is Some {
        assert(root_at(roots, cs.take(k as int)) == lookup_from(roots, cs, k));
    } else {
        lemma_lookup_from_deepest(roots, cs, (k - 1) as nat);
        let j = choose|j: nat| #![trigger cs.take(j as int)]
            j <= (k - 1) as nat && root_at(roots, cs.take(j as int)) == lookup_from(roots, cs, (k - 1) as nat)
                && forall|d: nat| j < d <= (k - 1) as nat ==> root_at(roots, #[trigger] cs.take(d as int)) is None;
        assert(root_at(roots, cs.take(j as int)) == lookup_from(roots, cs, k));
    }
}

} // verus!
