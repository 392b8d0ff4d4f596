//! The user-level configuration: where its files live under `~/.granary`, and
//! the runners and inline actions that `config.toml` defines.
//!
//! Reading and writing the files is left to the application; the functions
//! here compute paths and edit a loaded configuration.
use vstd::prelude::*;
use crate::error::GranaryError;
use crate::models::config::{ActionConfig, EnvVars};
use crate::path::{join_path, path_exists, path_join};
use crate::json::{member, member_exec, JsonValue};
use crate::text::{
    chars_of, copy_opt, copy_pairs, copy_strings, join, owned, push_str, split_char, split_ranges,
    string_of_range, text_eq, text_lt, views,
};

verus! {

/// `dirs::home_dir`, as text. Nothing is claimed of the answer, which depends
/// on the environment.
#[verifier::external_body]
fn home_dir() -> Option<String> {
    dirs::home_dir().map(|p| p.to_string_lossy().into_owned())
}

/// The configuration directory under a home directory.
pub open spec fn granary_dir_in(home: Seq<char>) -> Seq<char> {
    path_join(home, ".granary"@)
}

/// The error given when there is no home directory.
pub open spec fn no_home(e: GranaryError) -> bool {
    e matches GranaryError::GlobalConfig(m) && m@ == "Could not determine home directory"@
}

/// The configuration directory for a home directory, if there is one.
pub fn config_dir_for(home: Option<&str>) -> (r: Result<String, GranaryError>)
    ensures
        match home {
            Some(h) => r matches Ok(p) && p@ == granary_dir_in(h@),
            None => r matches Err(e) && no_home(e),
        },
{
    match home {
        Some(h) => Ok(join_path(h, ".granary")),
        None => Err(GranaryError::GlobalConfig(owned("Could not determine home directory"))),
    }
}

/// The configuration directory, `~/.granary`.
pub fn config_dir() -> (r: Result<String, GranaryError>)
    ensures
        r matches Ok(p) ==> exists|home: Seq<char>| p@ == granary_dir_in(home),
        r matches Err(e) ==> no_home(e),
{
    let home = home_dir();
    match &home {
        Some(h) => config_dir_for(Some(h.as_str())),
        None => config_dir_for(None),
    }
}

/// A path under the configuration directory: `rel` joined onto it, part by
/// part.
pub open spec fn under_config(home: Seq<char>, rel: Seq<Seq<char>>) -> Seq<char>
    decreases rel.len(),
{
    if rel.len() == 0 {
        granary_dir_in(home)
    } else {
        path_join(under_config(home, rel.drop_last()), rel.last())
    }
}

/// The result of a path function: on success a path below the configuration
/// directory of some home, else the missing-home error.
pub open spec fn config_path_result(r: Result<String, GranaryError>, rel: Seq<Seq<char>>) -> bool {
    &&& r matches Ok(p) ==> exists|home: Seq<char>| p@ == under_config(home, rel)
    &&& r matches Err(e) ==> no_home(e)
}

/// The path below the configuration directory of the home directory
/// `home`: `rel` joined onto it, part by part.
pub fn path_under(home: &str, rel: &Vec<String>) -> (r: String)
    ensures
        r@ == under_config(home@, views(rel@)),
{
    let mut p = join_path(home, ".granary");
    let mut i: usize = 0;
    while i < rel.len()
        invariant
            i <= rel.len(),
            p@ == under_config(home@, views(rel@).take(i as int)),
        decreases rel.len() - i,
    {
        let q = join_path(p.as_str(), rel[i].as_str());
        proof {
            assert(views(rel@).take(i as int + 1).drop_last() =~= views(rel@).take(i as int));
        }
        p = q;
        i = i + 1;
    }
    assert(views(rel@).take(rel.len() as int) =~= views(rel@));
    p
}

/// The path below the configuration directory of `home` (see
/// [`path_under`]); without a home directory, the missing-home error.
pub fn config_path_in(home: Option<&str>, rel: &Vec<String>) -> (r: Result<String, GranaryError>)
    ensures
        match home {
            Some(h) => r matches Ok(p) && p@ == under_config(h@, views(rel@)),
            None => r matches Err(e) && no_home(e),
        },
{
    match home {
        Some(h) => Ok(path_under(h, rel)),
        None => Err(GranaryError::GlobalConfig(owned("Could not determine home directory"))),
    }
}

/// The path below the configuration directory of the home directory that
/// `dirs` reports: [`config_path_in`] on its answer.
pub(crate) fn home_path(rel: &Vec<String>) -> (r: Result<String, GranaryError>)
    ensures
        config_path_result(r, views(rel@)),
{
    let home = home_dir();
    match &home {
        Some(h) => config_path_in(Some(h.as_str()), rel),
        None => config_path_in(None, rel),
    }
}

/// The parts of a relative path, as owned strings.
fn parts1(a: &str) -> (r: Vec<String>)
    ensures
        views(r@) == seq![a@],
{
    let r = vec![owned(a)];
    assert(views(r@) =~= seq![a@]);
    r
}

/// The parts of a two-part relative path, as owned strings.
pub(crate) fn parts2(a: &str, b: &str) -> (r: Vec<String>)
    ensures
        views(r@) == seq![a@, b@],
{
    let r = vec![owned(a), owned(b)];
    assert(views(r@) =~= seq![a@, b@]);
    r
}

/// The parts of a three-part relative path, as owned strings.
pub(crate) fn parts3(a: &str, b: &str, c: &str) -> (r: Vec<String>)
    ensures
        views(r@) == seq![a@, b@, c@],
{
    let r = vec![owned(a), owned(b), owned(c)];
    assert(views(r@) =~= seq![a@, b@, c@]);
    r
}

/// This is the first run on this system: `~/.granary` does not exist yet.
/// The directory probed is [`path_under`] the home directory with no
/// further parts; whether it exists is the filesystem's answer.
pub fn is_first_run() -> (r: Result<bool, GranaryError>)
    ensures
        r matches Err(e) ==> no_home(e),
{
    let none: Vec<String> = Vec::new();
    match home_path(&none) {
        Ok(d) => Ok(!path_exists(d.as_str())),
        Err(e) => Err(e),
    }
}

/// `~/.granary/config.toml`
pub fn config_path() -> (r: Result<String, GranaryError>)
    ensures
        config_path_result(r, seq!["config.toml"@]),
{
    home_path(&parts1("config.toml"))
}

/// `~/.granary/workers.db`
pub fn global_db_path() -> (r: Result<String, GranaryError>)
    ensures
        config_path_result(r, seq!["workers.db"@]),
{
    home_path(&parts1("workers.db"))
}

/// `~/.granary/logs`
pub fn logs_dir() -> (r: Result<String, GranaryError>)
    ensures
        config_path_result(r, seq!["logs"@]),
{
    home_path(&parts1("logs"))
}

/// `~/.granary/daemon`
pub fn daemon_dir() -> (r: Result<String, GranaryError>)
    ensures
        config_path_result(r, seq!["daemon"@]),
{
    home_path(&parts1("daemon"))
}

/// `~/.granary/daemon/granaryd.sock`
pub fn daemon_socket_path() -> (r: Result<String, GranaryError>)
    ensures
        config_path_result(r, seq!["daemon"@, "granaryd.sock"@]),
{
    home_path(&parts2("daemon", "granaryd.sock"))
}

/// `~/.granary/daemon/granaryd.pid`
pub fn daemon_pid_path() -> (r: Result<String, GranaryError>)
    ensures
        config_path_result(r, seq!["daemon"@, "granaryd.pid"@]),
{
    home_path(&parts2("daemon", "granaryd.pid"))
}

/// `~/.granary/daemon/daemon.log`
pub fn daemon_log_path() -> (r: Result<String, GranaryError>)
    ensures
        config_path_result(r, seq!["daemon"@, "daemon.log"@]),
{
    home_path(&parts2("daemon", "daemon.log"))
}

/// `~/.granary/daemon/auth.token`
pub fn daemon_auth_token_path() -> (r: Result<String, GranaryError>)
    ensures
        config_path_result(r, seq!["daemon"@, "auth.token"@]),
{
    home_path(&parts2("daemon", "auth.token"))
}

/// `~/.granary/logs/<worker_id>`
pub fn worker_logs_dir(worker_id: &str) -> (r: Result<String, GranaryError>)
    ensures
        config_path_result(r, seq!["logs"@, worker_id@]),
{
    home_path(&parts2("logs", worker_id))
}

/// `~/.granary/actions`
pub fn actions_dir() -> (r: Result<String, GranaryError>)
    ensures
        config_path_result(r, seq!["actions"@]),
{
    home_path(&parts1("actions"))
}

/// A runner defined in the configuration.
#[derive(Debug)]
pub struct RunnerConfig {
    pub command: String,
    pub args: Vec<String>,
    pub concurrency: Option<u32>,
    pub on: Option<String>,
    pub env: EnvVars,
}

/// Two runner settings agree field by field.
pub open spec fn same_runner(a: RunnerConfig, b: RunnerConfig) -> bool {
    &&& a.command == b.command
    &&& a.args@ == b.args@
    &&& a.concurrency == b.concurrency
    &&& a.on == b.on
    &&& a.env@ == b.env@
}

impl Clone for RunnerConfig {
    fn clone(&self) -> (r: Self)
        ensures
            same_runner(r, *self),
    {
        RunnerConfig {
            command: self.command.clone(),
            args: copy_strings(&self.args),
            concurrency: self.concurrency,
            on: copy_opt(&self.on),
            env: copy_pairs(&self.env),
        }
    }
}

/// No name occurs twice among named entries.
pub open spec fn names_distinct<T>(entries: Seq<(String, T)>) -> bool {
    forall|i: int, j: int| 0 <= i < j < entries.len() ==> entries[i].0@ != entries[j].0@
}

/// The entry named `name`.
pub open spec fn entry_named<T>(entries: Seq<(String, T)>, name: Seq<char>) -> Option<T>
    decreases entries.len(),
{
    if entries.len() == 0 {
        None
    } else if entries.last().0@ == name {
        Some(entries.last().1)
    } else {
        entry_named(entries.drop_last(), name)
    }
}

/// The settings of `config.toml`: runners and inline actions, each by name.
#[derive(Debug)]
pub struct GlobalConfig {
    runners: Vec<(String, RunnerConfig)>,
    actions: Vec<(String, ActionConfig)>,
}

impl GlobalConfig {
    #[verifier::type_invariant]
    spec fn wf(self) -> bool {
        names_distinct(self.runners@) && names_distinct(self.actions@)
    }

    /// The runners, by name.
    pub closed spec fn runners_spec(self) -> Seq<(String, RunnerConfig)> {
        self.runners@
    }

    /// The inline actions, by name.
    pub closed spec fn actions_spec(self) -> Seq<(String, ActionConfig)> {
        self.actions@
    }

    /// A configuration with no runners and no actions.
    pub fn new() -> (r: GlobalConfig)
        ensures
            r.runners_spec().len() == 0,
            r.actions_spec().len() == 0,
    {
        GlobalConfig { runners: Vec::new(), actions: Vec::new() }
    }

    /// The runners, in order.
    pub fn runners(&self) -> (r: &Vec<(String, RunnerConfig)>)
        ensures
            r@ == self.runners_spec(),
            names_distinct(r@),
    {
        proof {
            use_type_invariant(self);
        }
        &self.runners
    }

    /// The inline actions, in order.
    pub fn actions(&self) -> (r: &Vec<(String, ActionConfig)>)
        ensures
            r@ == self.actions_spec(),
            names_distinct(r@),
    {
        proof {
            use_type_invariant(self);
        }
        &self.actions
    }
}

impl Clone for GlobalConfig {
    fn clone(&self) -> (r: Self)
        ensures
            names_of(r.runners_spec()) == names_of(self.runners_spec()),
            names_of(r.actions_spec()) == names_of(self.actions_spec()),
    {
        proof {
            use_type_invariant(self);
        }
        GlobalConfig { runners: clone_entries(&self.runners), actions: clone_entries(&self.actions) }
    }
}

/// The names of named entries.
pub open spec fn names_of<T>(entries: Seq<(String, T)>) -> Seq<Seq<char>> {
    entries.map_values(|e: (String, T)| e.0@)
}

/// A copy of named entries; the names are kept.
fn clone_entries<T: Clone>(entries: &Vec<(String, T)>) -> (r: Vec<(String, T)>)
    ensures
        names_of(r@) == names_of(entries@),
        names_distinct(entries@) ==> names_distinct(r@),
{
    let mut out: Vec<(String, T)> = Vec::new();
    let mut i: usize = 0;
    while i < entries.len()
        invariant
            0 <= i <= entries@.len(),
            out@.len() == i,
            forall|j: int| 0 <= j < i ==> (#[trigger] out@[j]).0@ == entries@[j].0@,
        decreases entries@.len() - i,
    {
        out.push((entries[i].0.clone(), entries[i].1.clone()));
        i = i + 1;
    }
    assert(names_of(out@) =~= names_of(entries@));
    out
}

/// The index of the entry named `name`, if any.
fn index_of<T>(entries: &Vec<(String, T)>, name: &str) -> (r: Option<usize>)
    ensures
        match r {
            Some(i) => i < entries@.len() && entries@[i as int].0@ == name@,
            None => forall|j: int| 0 <= j < entries@.len() ==> entries@[j].0@ != name@,
        },
{
    let mut i: usize = 0;
    while i < entries.len()
        invariant
            0 <= i <= entries.len(),
            forall|j: int| 0 <= j < i ==> entries@[j].0@ != name@,
        decreases entries.len() - i,
    {
        if text_eq(entries[i].0.as_str(), name) {
            return Some(i);
        }
        i = i + 1;
    }
    None
}

/// In entries with distinct names, the entry at `i` is the one named by its
/// name.
proof fn lemma_entry_named_at<T>(entries: Seq<(String, T)>, i: int)
    requires
        names_distinct(entries),
        0 <= i < entries.len(),
    ensures
        entry_named(entries, entries[i].0@) == Some(entries[i].1),
    decreases entries.len(),
{
    if i < entries.len() - 1 {
        lemma_entry_named_at(entries.drop_last(), i);
    }
}

/// A name that no entry has names nothing.
proof fn lemma_entry_named_none<T>(entries: Seq<(String, T)>, name: Seq<char>)
    requires
        forall|j: int| 0 <= j < entries.len() ==> entries[j].0@ != name,
    ensures
        entry_named(entries, name) is None,
    decreases entries.len(),
{
    if entries.len() > 0 {
        lemma_entry_named_none(entries.drop_last(), name);
    }
}

/// Setting `name` in entries with distinct names: the name gets `value`,
/// every other name keeps its entry, and names stay distinct.
fn set_entry<T>(entries: &mut Vec<(String, T)>, name: &str, value: T)
    requires
        names_distinct(old(entries)@),
    ensures
        names_distinct(final(entries)@),
        entry_named(final(entries)@, name@) == Some(value),
        forall|other: Seq<char>| other != name@ ==> entry_named(final(entries)@, other) == entry_named(old(entries)@, other),
{
    let ghost before = entries@;
    match index_of(entries, name) {
        Some(i) => {
            entries.set(i, (owned(name), value));
            proof {
                lemma_entry_named_at(entries@, i as int);
                assert forall|other: Seq<char>| other != name@ implies entry_named(entries@, other) == entry_named(before, other) by {
                    lemma_entry_named_same_except(before, entries@, i as int, other);
                }
            }
        },
        None => {
            entries.push((owned(name), value));
            proof {
                assert(entries@.drop_last() =~= before);
                assert forall|a: int, b: int| 0 <= a < b < entries@.len() implies entries@[a].0@ != entries@[b].0@ by {
                    assert(entries@[a] == before[a] || a == entries@.len() - 1);
                    if b < entries@.len() - 1 {
                        assert(entries@[b] == before[b]);
                    }
                }
            }
        },
    }
}

/// Entries that differ only at `i`, where neither has the name `key`, name
/// the same for `key`.
proof fn lemma_entry_named_same_except<T>(a: Seq<(String, T)>, b: Seq<(String, T)>, i: int, key: Seq<char>)
    requires
        a.len() == b.len(),
        0 <= i < a.len(),
        a[i].0@ != key || b[i].0@ != key,
        a[i].0@ == b[i].0@,
        forall|j: int| 0 <= j < a.len() && j != i ==> b[j] == a[j],
    ensures
        entry_named(b, key) == entry_named(a, key),
    decreases a.len(),
{
    if i < a.len() - 1 {
        lemma_entry_named_same_except(a.drop_last(), b.drop_last(), i, key);
    } else {
        assert(a.drop_last() =~= b.drop_last());
    }
}

/// Removes the entry named `name`, telling whether there was one.
fn remove_entry<T>(entries: &mut Vec<(String, T)>, name: &str) -> (r: bool)
    requires
        names_distinct(old(entries)@),
    ensures
        r == (entry_named(old(entries)@, name@) is Some),
        names_distinct(final(entries)@),
        entry_named(final(entries)@, name@) is None,
        forall|other: Seq<char>| other != name@ ==> entry_named(final(entries)@, other) == entry_named(old(entries)@, other),
{
    let ghost before = entries@;
    match index_of(entries, name) {
        Some(i) => {
            entries.remove(i);
            proof {
                lemma_entry_named_at(before, i as int);
                lemma_entry_named_remove(before, i as int);
            }
            true
        },
        None => {
            proof {
                lemma_entry_named_none(before, name@);
            }
            false
        },
    }
}

/// Removing the entry at `i` from entries with distinct names removes its name
/// and keeps the rest.
proof fn lemma_entry_named_remove<T>(s: Seq<(String, T)>, i: int)
    requires
        names_distinct(s),
        0 <= i < s.len(),
    ensures
        names_distinct(s.remove(i)),
        entry_named(s.remove(i), s[i].0@) is None,
        forall|other: Seq<char>| other != s[i].0@ ==> entry_named(s.remove(i), other) == entry_named(s, other),
    decreases s.len(),
{
    let r = s.remove(i);
    assert forall|a: int, b: int| 0 <= a < b < r.len() implies r[a].0@ != r[b].0@ by {
        let a2 = if a < i { a } else { a + 1 };
        let b2 = if b < i { b } else { b + 1 };
        assert(r[a] == s[a2] && r[b] == s[b2]);
    }
    assert forall|j: int| 0 <= j < r.len() implies r[j].0@ != s[i].0@ by {
        let j2 = if j < i { j } else { j + 1 };
        assert(r[j] == s[j2]);
    }
    lemma_entry_named_none(r, s[i].0@);
    assert forall|other: Seq<char>| other != s[i].0@ implies entry_named(r, other) == entry_named(s, other) by {
        lemma_entry_named_remove_other(s, i, other);
    }
}

proof fn lemma_entry_named_remove_other<T>(s: Seq<(String, T)>, i: int, other: Seq<char>)
    requires
        0 <= i < s.len(),
        other != s[i].0@,
    ensures
        entry_named(s.remove(i), other) == entry_named(s, other),
    decreases s.len(),
{
    if i == s.len() - 1 {
        assert(s.remove(i) =~= s.drop_last());
    } else {
        assert(s.remove(i).drop_last() =~= s.drop_last().remove(i));
        assert(s.remove(i).last() == s.last());
        lemma_entry_named_remove_other(s.drop_last(), i, other);
    }
}

/// Setting an entry (a runner or an inline action) and then removing it
/// leaves no entry under its name and every other entry as it was before.
pub proof fn law_remove_undoes_set<T>(
    before: Seq<(String, T)>,
    mid: Seq<(String, T)>,
    after: Seq<(String, T)>,
    name: Seq<char>,
    value: T,
)
    requires
        entry_named(mid, name) == Some(value),
        forall|o: Seq<char>| o != name ==> entry_named(mid, o) == entry_named(before, o),
        entry_named(after, name) is None,
        forall|o: Seq<char>| o != name ==> entry_named(after, o) == entry_named(mid, o),
    ensures
        entry_named(after, name) is None,
        forall|o: Seq<char>| o != name ==> entry_named(after, o) == entry_named(before, o),
{
}

/// The runner named `name`.
pub fn get_runner(config: &GlobalConfig, name: &str) -> (r: Option<RunnerConfig>)
    ensures
        match entry_named(config.runners_spec(), name@) {
            Some(x) => r matches Some(y) && same_runner(y, x),
            None => r is None,
        },
{
    let runners = config.runners();
    match index_of(runners, name) {
        Some(i) => {
            proof {
                lemma_entry_named_at(runners@, i as int);
            }
            Some(runners[i].1.clone())
        },
        None => {
            proof {
                lemma_entry_named_none(runners@, name@);
            }
            None
        },
    }
}

/// Adds or replaces the runner named `name`.
pub fn set_runner(config: &mut GlobalConfig, name: &str, runner: RunnerConfig)
    ensures
        entry_named(final(config).runners_spec(), name@) == Some(runner),
        forall|other: Seq<char>| other != name@ ==> entry_named(final(config).runners_spec(), other)
            == entry_named(old(config).runners_spec(), other),
        final(config).actions_spec() == old(config).actions_spec(),
{
    proof {
        use_type_invariant(&*config);
    }
    let mut runners: Vec<(String, RunnerConfig)> = Vec::new();
    std::mem::swap(&mut runners, &mut config.runners);
    set_entry(&mut runners, name, runner);
    config.runners = runners;
}

/// Removes the runner named `name`, telling whether there was one.
pub fn remove_runner(config: &mut GlobalConfig, name: &str) -> (r: bool)
    ensures
        r == (entry_named(old(config).runners_spec(), name@) is Some),
        entry_named(final(config).runners_spec(), name@) is None,
        forall|other: Seq<char>| other != name@ ==> entry_named(final(config).runners_spec(), other)
            == entry_named(old(config).runners_spec(), other),
        final(config).actions_spec() == old(config).actions_spec(),
{
    proof {
        use_type_invariant(&*config);
    }
    let mut runners: Vec<(String, RunnerConfig)> = Vec::new();
    std::mem::swap(&mut runners, &mut config.runners);
    let r = remove_entry(&mut runners, name);
    config.runners = runners;
    r
}

/// The names of the runners.
pub fn list_runners(config: &GlobalConfig) -> (r: Vec<String>)
    ensures
        r@.len() == config.runners_spec().len(),
        forall|i: int| 0 <= i < r@.len() ==> (#[trigger] r@[i])@ == config.runners_spec()[i].0@,
{
    let runners = config.runners();
    let mut out: Vec<String> = Vec::new();
    let mut i: usize = 0;
    while i < runners.len()
        invariant
            0 <= i <= runners@.len(),
            out@.len() == i,
            forall|j: int| 0 <= j < i ==> (#[trigger] out@[j])@ == runners@[j].0@,
        decreases runners@.len() - i,
    {
        out.push(runners[i].0.clone());
        i = i + 1;
    }
    out
}

/// Adds or replaces the inline action named `name`.
pub fn set_action(config: &mut GlobalConfig, name: &str, action: ActionConfig)
    ensures
        entry_named(final(config).actions_spec(), name@) == Some(action),
        forall|other: Seq<char>| other != name@ ==> entry_named(final(config).actions_spec(), other)
            == entry_named(old(config).actions_spec(), other),
        final(config).runners_spec() == old(config).runners_spec(),
{
    proof {
        use_type_invariant(&*config);
    }
    let mut actions: Vec<(String, ActionConfig)> = Vec::new();
    std::mem::swap(&mut actions, &mut config.actions);
    set_entry(&mut actions, name, action);
    config.actions = actions;
}

/// Removes the inline action named `name`, telling whether there was one.
pub fn remove_action(config: &mut GlobalConfig, name: &str) -> (r: bool)
    ensures
        r == (entry_named(old(config).actions_spec(), name@) is Some),
        entry_named(final(config).actions_spec(), name@) is None,
        forall|other: Seq<char>| other != name@ ==> entry_named(final(config).actions_spec(), other)
            == entry_named(old(config).actions_spec(), other),
        final(config).runners_spec() == old(config).runners_spec(),
{
    proof {
        use_type_invariant(&*config);
    }
    let mut actions: Vec<(String, ActionConfig)> = Vec::new();
    std::mem::swap(&mut actions, &mut config.actions);
    let r = remove_entry(&mut actions, name);
    config.actions = actions;
    r
}

/// The inline action named `name`, which takes precedence over an action
/// file of the same name.
pub fn inline_action<'a>(config: &'a GlobalConfig, name: &str) -> (r: Option<&'a ActionConfig>)
    ensures
        r == (match entry_named(config.actions_spec(), name@) {
            Some(a) => Some(&a),
            None => None::<&ActionConfig>,
        }),
{
    let actions = config.actions();
    match index_of(actions, name) {
        Some(i) => {
            proof {
                lemma_entry_named_at(actions@, i as int);
            }
            Some(&actions[i].1)
        },
        None => {
            proof {
                lemma_entry_named_none(actions@, name@);
            }
            None
        },
    }
}

/// Some entry of `entries` is named `name`.
pub open spec fn has_name<T>(entries: Seq<(String, T)>, name: Seq<char>) -> bool {
    exists|j: int| 0 <= j < entries.len() && #[trigger] entries[j].0@ == name
}

/// `x` placed into `s` (ordered by name) after every entry whose name does
/// not come after its own.
pub open spec fn insert_by_name(s: Seq<(String, ActionConfig)>, x: (String, ActionConfig)) -> Seq<(String, ActionConfig)>
    decreases s.len(),
{
    if s.len() == 0 {
        seq![x]
    } else if text_lt(x.0@, s[0].0@) {
        seq![x] + s
    } else {
        seq![s[0]] + insert_by_name(s.drop_first(), x)
    }
}

/// The entries ordered by name, entries of the same name keeping their
/// order.
pub open spec fn sorted_by_name(s: Seq<(String, ActionConfig)>) -> Seq<(String, ActionConfig)>
    decreases s.len(),
{
    if s.len() == 0 {
        s
    } else {
        insert_by_name(sorted_by_name(s.drop_last()), s.last())
    }
}

/// The action files not overridden by an inline action of the same name.
pub open spec fn kept_files(inline: Seq<(String, ActionConfig)>, files: Seq<(String, ActionConfig)>) -> Seq<(String, ActionConfig)> {
    files.filter(|e: (String, ActionConfig)| !has_name(inline, e.0@))
}

/// All actions: the action files not overridden inline, and the inline
/// actions, ordered by name.
pub open spec fn merged_actions(inline: Seq<(String, ActionConfig)>, files: Seq<(String, ActionConfig)>) -> Seq<(String, ActionConfig)> {
    sorted_by_name(kept_files(inline, files) + inline)
}

/// Where `insert_by_name` puts `x` in `s`.
pub open spec fn name_position(s: Seq<(String, ActionConfig)>, x: (String, ActionConfig)) -> int
    decreases s.len(),
{
    if s.len() == 0 {
        0
    } else if text_lt(x.0@, s[0].0@) {
        0
    } else {
        1 + name_position(s.drop_first(), x)
    }
}

proof fn lemma_insert_by_name_is_insert(s: Seq<(String, ActionConfig)>, x: (String, ActionConfig))
    ensures
        0 <= name_position(s, x) <= s.len(),
        insert_by_name(s, x) == s.insert(name_position(s, x), x),
    decreases s.len(),
{
    if s.len() == 0 {
        assert(s.insert(0, x) =~= seq![x]);
    } else if text_lt(x.0@, s[0].0@) {
        assert(s.insert(0, x) =~= seq![x] + s);
    } else {
        lemma_insert_by_name_is_insert(s.drop_first(), x);
        assert(seq![s[0]] + s.drop_first().insert(name_position(s.drop_first(), x), x) =~= s.insert(
            name_position(s, x),
            x,
        ));
    }
}

proof fn lemma_name_position_bounds(s: Seq<(String, ActionConfig)>, x: (String, ActionConfig), j: int)
    requires
        0 <= j <= s.len(),
        forall|k: int| 0 <= k < j ==> !text_lt(x.0@, #[trigger] s[k].0@),
        j == s.len() || text_lt(x.0@, s[j].0@),
    ensures
        name_position(s, x) == j,
    decreases j,
{
    if j > 0 {
        let t = s.drop_first();
        assert forall|k: int| 0 <= k < j - 1 implies !text_lt(x.0@, #[trigger] t[k].0@) by {
            assert(t[k] == s[k + 1]);
        }
        lemma_name_position_bounds(t, x, j - 1);
    }
}

/// Moves the action files that no inline action overrides out of `files`,
/// in order.
fn keep_files(inline: &Vec<(String, ActionConfig)>, files: Vec<(String, ActionConfig)>) -> (r: Vec<(String, ActionConfig)>)
    ensures
        r@ == kept_files(inline@, files@),
{
    let ghost all = files@;
    let ghost pred = |e: (String, ActionConfig)| !has_name(inline@, e.0@);
    let mut rest = files;
    let total: usize = rest.len();
    let mut out: Vec<(String, ActionConfig)> = Vec::new();
    let mut i: usize = 0;
    while rest.len() > 0
        invariant
            i + rest.len() == all.len(),
            all.len() == total,
            rest@ == all.skip(i as int),
            pred == (|e: (String, ActionConfig)| !has_name(inline@, e.0@)),
            out@ == all.take(i as int).filter(pred),
        decreases rest.len(),
    {
        let e = rest.remove(0);
        assert(e == all[i as int]);
        assert(rest@ =~= all.skip(i as int + 1));
        assert(all.take(i as int + 1).drop_last() =~= all.take(i as int));
        proof { reveal_with_fuel(Seq::filter, 1); }
        match index_of(inline, e.0.as_str()) {
            Some(j) => {
                assert(inline@[j as int].0@ == e.0@);
            },
            None => {
                out.push(e);
            },
        }
        i = i + 1;
    }
    assert(all.take(i as int) =~= all);
    out
}

/// Puts an entry into a list ordered by name (see [`insert_by_name`]).
fn insert_sorted(out: &mut Vec<(String, ActionConfig)>, x: (String, ActionConfig))
    ensures
        final(out)@ == insert_by_name(old(out)@, x),
{
    let mut j: usize = 0;
    while j < out.len() && !crate::text::text_before(x.0.as_str(), out[j].0.as_str())
        invariant
            j <= out.len(),
            forall|k: int| 0 <= k < j ==> !text_lt(x.0@, #[trigger] out@[k].0@),
        decreases out.len() - j,
    {
        j = j + 1;
    }
    proof {
        lemma_name_position_bounds(out@, x, j as int);
        lemma_insert_by_name_is_insert(out@, x);
    }
    out.insert(j, x);
}

/// Names in order: no name comes before the one ahead of it.
pub open spec fn names_sorted(s: Seq<String>) -> bool {
    forall|i: int, j: int| 0 <= i < j < s.len() ==> !text_lt(#[trigger] s[j]@, #[trigger] s[i]@)
}

/// The names of the action files in order (the order `String`'s `Ord`
/// gives): the same names, each as many times, sorted.
pub fn sort_names(names: Vec<String>) -> (r: Vec<String>)
    ensures
        names_sorted(r@),
        r@.to_multiset() == names@.to_multiset(),
{
    let mut out: Vec<String> = Vec::new();
    let mut i: usize = 0;
    assert(out@ =~= names@.take(0));
    while i < names.len()
        invariant
            i <= names.len(),
            names_sorted(out@),
            out@.to_multiset() == names@.take(i as int).to_multiset(),
        decreases names.len() - i,
    {
        let x = names[i].clone();
        let mut p: usize = 0;
        while p < out.len() && !crate::text::text_before(x.as_str(), out[p].as_str())
            invariant
                p <= out.len(),
                forall|k: int| 0 <= k < p ==> !text_lt(x@, #[trigger] out@[k]@),
            decreases out.len() - p,
        {
            p = p + 1;
        }
        let ghost before = out@;
        proof {
            assert forall|k: int| p <= k < before.len() implies !text_lt(#[trigger] before[k]@, x@) by {
                if text_lt(before[k]@, x@) {
                    if k == p {
                        crate::text::lemma_text_lt_asymmetric(x@, before[p as int]@);
                    } else {
                        crate::text::lemma_text_lt_transitive(before[k]@, x@, before[p as int]@);
                    }
                }
            }
        }
        out.insert(p, x);
        proof {
            let after = out@;
            assert(after =~= before.insert(p as int, x));
            assert forall|a: int, b: int| 0 <= a < b < after.len() implies !text_lt(#[trigger] after[b]@, #[trigger] after[a]@) by {
                if b < p {
                    assert(after[a] == before[a] && after[b] == before[b]);
                } else if b == p {
                    assert(after[a] == before[a]);
                } else if a < p {
                    assert(after[a] == before[a] && after[b] == before[b - 1]);
                } else if a == p {
                    assert(after[b] == before[b - 1]);
                } else {
                    assert(after[a] == before[a - 1] && after[b] == before[b - 1]);
                }
            }
            vstd::seq_lib::to_multiset_insert(before, p as int, x);
            assert(names@.take(i as int + 1) =~= names@.take(i as int).push(names@[i as int]));
            vstd::seq_lib::to_multiset_build(names@.take(i as int), names@[i as int]);
        }
        i = i + 1;
    }
    assert(names@.take(names.len() as int) =~= names@);
    out
}

/// All actions: inline actions, and the action files whose name no inline
/// action takes, ordered by name (see [`merged_actions`]). `files` are the
/// actions read from the action files, by name.
pub fn merge_actions(inline: Vec<(String, ActionConfig)>, files: Vec<(String, ActionConfig)>) -> (r: Vec<(String, ActionConfig)>)
    ensures
        r@ == merged_actions(inline@, files@),
{
    let mut all = keep_files(&inline, files);
    let mut extra = inline;
    let ghost joined = all@ + extra@;
    all.append(&mut extra);
    assert(all@ == joined);
    let ghost src = all@;
    let mut rest = all;
    let total: usize = rest.len();
    let mut out: Vec<(String, ActionConfig)> = Vec::new();
    let mut i: usize = 0;
    while rest.len() > 0
        invariant
            i + rest.len() == src.len(),
            src.len() == total,
            rest@ == src.skip(i as int),
            out@ == sorted_by_name(src.take(i as int)),
        decreases rest.len(),
    {
        let e = rest.remove(0);
        assert(e == src[i as int]);
        assert(rest@ =~= src.skip(i as int + 1));
        assert(src.take(i as int + 1).drop_last() =~= src.take(i as int));
        insert_sorted(&mut out, e);
        i = i + 1;
    }
    assert(src.take(i as int) =~= src);
    out
}

/// Entries ordered by name: no name comes before the one ahead of it.
pub open spec fn is_sorted_by_name(s: Seq<(String, ActionConfig)>) -> bool {
    forall|i: int, j: int| 0 <= i < j < s.len() ==> !text_lt(#[trigger] s[j].0@, #[trigger] s[i].0@)
}

proof fn lemma_insert_keeps_lower_bound(x: (String, ActionConfig), s: Seq<(String, ActionConfig)>, y: (String, ActionConfig))
    requires
        forall|k: int| 0 <= k < s.len() ==> !text_lt(#[trigger] s[k].0@, x.0@),
        !text_lt(y.0@, x.0@),
    ensures
        forall|k: int| 0 <= k < insert_by_name(s, y).len() ==> !text_lt(#[trigger] insert_by_name(s, y)[k].0@, x.0@),
    decreases s.len(),
{
    if s.len() > 0 && !text_lt(y.0@, s[0].0@) {
        let t = s.drop_first();
        assert forall|k: int| 0 <= k < t.len() implies !text_lt(#[trigger] t[k].0@, x.0@) by {
            assert(t[k] == s[k + 1]);
        }
        lemma_insert_keeps_lower_bound(x, t, y);
        let r = insert_by_name(s, y);
        assert forall|k: int| 0 <= k < r.len() implies !text_lt(#[trigger] r[k].0@, x.0@) by {
            if k > 0 {
                assert(r[k] == insert_by_name(t, y)[k - 1]);
            }
        }
    }
}

proof fn lemma_insert_by_name_sorted(s: Seq<(String, ActionConfig)>, x: (String, ActionConfig))
    requires
        is_sorted_by_name(s),
    ensures
        is_sorted_by_name(insert_by_name(s, x)),
    decreases s.len(),
{
    if s.len() == 0 {
    } else if text_lt(x.0@, s[0].0@) {
        let r = insert_by_name(s, x);
        assert forall|i: int, j: int| 0 <= i < j < r.len() implies !text_lt(#[trigger] r[j].0@, #[trigger] r[i].0@) by {
            if i == 0 {
                assert(r[j] == s[j - 1]);
                if text_lt(s[j - 1].0@, x.0@) {
                    if j - 1 == 0 {
                        crate::text::lemma_text_lt_asymmetric(x.0@, s[0].0@);
                    } else {
                        crate::text::lemma_text_lt_transitive(s[j - 1].0@, x.0@, s[0].0@);
                    }
                }
            } else {
                assert(r[i] == s[i - 1] && r[j] == s[j - 1]);
            }
        }
    } else {
        let t = s.drop_first();
        assert(is_sorted_by_name(t)) by {
            assert forall|i: int, j: int| 0 <= i < j < t.len() implies !text_lt(#[trigger] t[j].0@, #[trigger] t[i].0@) by {
                assert(t[i] == s[i + 1] && t[j] == s[j + 1]);
            }
        }
        lemma_insert_by_name_sorted(t, x);
        assert forall|k: int| 0 <= k < t.len() implies !text_lt(#[trigger] t[k].0@, s[0].0@) by {
            assert(t[k] == s[k + 1]);
        }
        lemma_insert_keeps_lower_bound(s[0], t, x);
        let it = insert_by_name(t, x);
        let r = insert_by_name(s, x);
        assert forall|i: int, j: int| 0 <= i < j < r.len() implies !text_lt(#[trigger] r[j].0@, #[trigger] r[i].0@) by {
            assert(r[j] == it[j - 1]);
            if i > 0 {
                assert(r[i] == it[i - 1]);
            }
        }
    }
}

proof fn lemma_sorted_by_name(s: Seq<(String, ActionConfig)>)
    ensures
        is_sorted_by_name(sorted_by_name(s)),
        sorted_by_name(s).to_multiset() == s.to_multiset(),
    decreases s.len(),
{
    if s.len() > 0 {
        let pre = s.drop_last();
        lemma_sorted_by_name(pre);
        lemma_insert_by_name_sorted(sorted_by_name(pre), s.last());
        lemma_insert_by_name_is_insert(sorted_by_name(pre), s.last());
        vstd::seq_lib::to_multiset_insert(sorted_by_name(pre), name_position(sorted_by_name(pre), s.last()), s.last());
        assert(s =~= pre.push(s.last()));
        vstd::seq_lib::to_multiset_build(pre, s.last());
    } else {
        assert(sorted_by_name(s) == s);
    }
}

/// The list of all actions is ordered by name; every inline action is in
/// it; and every entry in it is an inline action, or an action file whose
/// name no inline action takes.
pub proof fn law_inline_actions_take_precedence(inline: Seq<(String, ActionConfig)>, files: Seq<(String, ActionConfig)>)
    ensures
        is_sorted_by_name(merged_actions(inline, files)),
        forall|x: (String, ActionConfig)| #[trigger] inline.contains(x) ==> merged_actions(inline, files).contains(x),
        forall|x: (String, ActionConfig)| #[trigger] merged_actions(inline, files).contains(x) ==> inline.contains(x)
            || (files.contains(x) && !has_name(inline, x.0@)),
{
    let kept = kept_files(inline, files);
    let all = kept + inline;
    lemma_sorted_by_name(all);
    let m = merged_actions(inline, files);
    let pred = |e: (String, ActionConfig)| !has_name(inline, e.0@);
    assert forall|x: (String, ActionConfig)| #[trigger] inline.contains(x) implies m.contains(x) by {
        let j = choose|j: int| 0 <= j < inline.len() && inline[j] == x;
        assert(all[kept.len() + j] == x);
        vstd::seq_lib::to_multiset_contains(all, x);
        vstd::seq_lib::to_multiset_contains(m, x);
    }
    assert forall|x: (String, ActionConfig)| #[trigger] m.contains(x) implies inline.contains(x)
        || (files.contains(x) && !has_name(inline, x.0@)) by {
        vstd::seq_lib::to_multiset_contains(m, x);
        vstd::seq_lib::to_multiset_contains(all, x);
        let k = choose|k: int| 0 <= k < all.len() && all[k] == x;
        if k < kept.len() {
            assert(kept.contains(x));
            files.lemma_filter_contains_rev(pred, x);
        } else {
            assert(inline[k - kept.len()] == x);
        }
    }
}

/// What a dotted key reaches in the settings (as JSON), from its segment
/// `i` on: the value, or the message of why it cannot be reached.
pub open spec fn config_walk(v: JsonValue, segs: Seq<Seq<char>>, i: nat) -> Result<JsonValue, Seq<char>>
    decreases segs.len() - i,
{
    if i >= segs.len() {
        Ok(v)
    } else {
        match v {
            JsonValue::Object(ms, _) => match member(ms@, segs[i as int]) {
                Some(c) => config_walk(c, segs, i + 1),
                None => Err("Key not found: "@ + join(segs.take(i as int + 1), "."@)),
            },
            _ => Err("'"@ + join(segs.take(i as int), "."@) + "' is not a table/section, cannot traverse further"@),
        }
    }
}

/// What the key `key` (dotted, as in `runners.coder.command`) names in the
/// settings: all of them without a key or with an empty one.
pub open spec fn config_lookup(v: JsonValue, key: Option<Seq<char>>) -> Result<JsonValue, Seq<char>> {
    match key {
        None => Ok(v),
        Some(k) => if k.len() == 0 { Ok(v) } else { config_walk(v, split_char(k, '.'), 0) },
    }
}

fn key_segments(key: &str) -> (r: Vec<String>)
    ensures
        crate::text::views(r@) == split_char(key@, '.'),
{
    let chars = chars_of(key);
    let ranges = split_ranges(&chars, '.');
    let ghost parts = split_char(key@, '.');
    let mut out: Vec<String> = Vec::new();
    let mut k: usize = 0;
    while k < ranges.len()
        invariant
            chars@ == key@,
            parts == split_char(key@, '.'),
            ranges@.len() == parts.len(),
            forall|j: int| #![trigger ranges@[j]] 0 <= j < ranges@.len() ==> {
                &&& ranges@[j].0 <= ranges@[j].1 <= chars@.len()
                &&& chars@.subrange(ranges@[j].0 as int, ranges@[j].1 as int) == parts[j]
            },
            k <= ranges.len(),
            crate::text::views(out@) == parts.take(k as int),
        decreases ranges.len() - k,
    {
        let (a, b) = ranges[k];
        assert(chars@.subrange(ranges@[k as int].0 as int, ranges@[k as int].1 as int) == parts[k as int]);
        let seg = string_of_range(&chars, a, b);
        let ghost before = out@;
        let ghost sv = seg@;
        out.push(seg);
        assert(crate::text::views(out@) =~= crate::text::views(before).push(sv));
        assert(parts.take(k as int + 1) =~= parts.take(k as int).push(parts[k as int]));
        assert(crate::text::views(out@) =~= parts.take(k as int + 1));
        k = k + 1;
    }
    assert(parts.take(k as int) =~= parts);
    out
}

/// The part of the settings (as JSON) that a dotted key names (see
/// [`config_lookup`]); a key that cannot be followed gives
/// [`GranaryError::GlobalConfig`] saying where it stopped.
pub fn config_value_at<'a>(v: &'a JsonValue, key: Option<&str>) -> (r: Result<&'a JsonValue, GranaryError>)
    ensures
        match config_lookup(*v, match key {
            Some(k) => Some(k@),
            None => None,
        }) {
            Ok(x) => r == Ok::<&JsonValue, GranaryError>(&x),
            Err(m) => r matches Err(GranaryError::GlobalConfig(e)) && e@ == m,
        },
{
    let k = match key {
        None => {
            return Ok(v);
        },
        Some(k) => k,
    };
    let segs = key_segments(k);
    if chars_of(k).len() == 0 {
        return Ok(v);
    }
    let ghost parts = split_char(k@, '.');
    let mut cur: &JsonValue = v;
    let mut prefix = String::new();
    let mut i: usize = 0;
    assert(parts.take(0) =~= Seq::<Seq<char>>::empty());
    while i < segs.len()
        invariant
            crate::text::views(segs@) == parts,
            key == Some(k),
            k@.len() > 0,
            parts == split_char(k@, '.'),
            i <= segs.len(),
            config_walk(*v, parts, 0) == config_walk(*cur, parts, i as nat),
            prefix@ == join(parts.take(i as int), "."@),
        decreases segs.len() - i,
    {
        assert(parts[i as int] == segs@[i as int]@);
        assert(parts.take(i as int + 1).drop_last() =~= parts.take(i as int));
        let mut next_prefix = prefix.clone();
        if i > 0 {
            push_str(&mut next_prefix, ".");
        }
        push_str(&mut next_prefix, segs[i].as_str());
        assert(next_prefix@ == join(parts.take(i as int + 1), "."@));
        match cur {
            JsonValue::Object(ms, _) => match member_exec(ms, segs[i].as_str()) {
                Some(c) => {
                    cur = c;
                },
                None => {
                    let mut m = owned("Key not found: ");
                    push_str(&mut m, next_prefix.as_str());
                    return Err(GranaryError::GlobalConfig(m));
                },
            },
            _ => {
                let mut m = owned("'");
                push_str(&mut m, prefix.as_str());
                push_str(&mut m, "' is not a table/section, cannot traverse further");
                return Err(GranaryError::GlobalConfig(m));
            },
        }
        prefix = next_prefix;
        i = i + 1;
    }
    Ok(cur)
}

} // verus!
