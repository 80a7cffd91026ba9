use vstd::prelude::*;
use vstd::string::{StrSliceExecFns, StringExecFns};

use crate::bonsai_hg_mapping::RepositoryId;

verus! {

/// Which optional groups of arguments a Mononoke command line offers.
#[derive(Clone, Copy, Debug, PartialEq, Eq, Structural)]
pub struct AppSettings {
    /// Hide advanced blobstore and cache arguments from help.
    pub hide_advanced_args: bool,
    /// Operate on all repos: offer no arguments to select one.
    pub all_repos: bool,
    /// Require the user to select a repo.
    pub repo_required: bool,
    /// Offer source and target repo arguments, for cross-repo commands.
    pub source_and_target_repos: bool,
    /// Offer source repo arguments only.
    pub source_repo: bool,
    /// Offer graceful shutdown arguments.
    pub shutdown_timeout: bool,
    /// Offer scuba logging arguments.
    pub scuba_logging: bool,
    /// Offer an argument to disable hooks.
    pub disabled_hooks: bool,
    /// Offer the fb303 thrift port argument.
    pub fb303: bool,
    /// Offer arguments for integration tests.
    pub test_args: bool,
}

/// Builder of the command line of a Mononoke binary.
#[derive(Debug)]
pub struct MononokeApp {
    name: String,
    settings: AppSettings,
}

/// A group of arguments on the command line, with the choices it depends on.
#[derive(Clone, Copy, Debug, PartialEq, Eq, Structural)]
pub enum ArgGroup {
    ConfigPath,
    /// Repo selection by id or name; `conflicts_with_target_only` restricts
    /// the conflicting arguments to the target repo ones.
    Repo { required: bool, conflicts_with_target_only: bool },
    SourceRepo,
    TargetRepo,
    Logger,
    MysqlOptions,
    Blobstore,
    Cachelib { hidden: bool },
    Runtime,
    Tunables,
    ShutdownTimeout,
    ScubaLogging,
    DisabledHooks,
    Fb303,
    Test,
}

pub open spec fn opt_group(on: bool, g: ArgGroup) -> Seq<ArgGroup> {
    if on {
        seq![g]
    } else {
        Seq::empty()
    }
}

/// The repo selection groups of a command line with settings `s`.
pub open spec fn repo_groups_of(s: AppSettings) -> Seq<ArgGroup> {
    if s.all_repos {
        Seq::empty()
    } else {
        seq![
            ArgGroup::Repo {
                required: s.repo_required,
                conflicts_with_target_only: s.source_repo,
            },
        ] + opt_group(s.source_repo || s.source_and_target_repos, ArgGroup::SourceRepo)
            + opt_group(s.source_and_target_repos, ArgGroup::TargetRepo)
    }
}

/// The groups every command line has after repo selection.
pub open spec fn standard_groups_of(s: AppSettings) -> Seq<ArgGroup> {
    seq![
        ArgGroup::Logger,
        ArgGroup::MysqlOptions,
        ArgGroup::Blobstore,
        ArgGroup::Cachelib { hidden: s.hide_advanced_args },
        ArgGroup::Runtime,
        ArgGroup::Tunables,
    ]
}

/// The groups a command line has on request.
pub open spec fn optional_groups_of(s: AppSettings) -> Seq<ArgGroup> {
    opt_group(s.shutdown_timeout, ArgGroup::ShutdownTimeout) + opt_group(
        s.scuba_logging,
        ArgGroup::ScubaLogging,
    ) + opt_group(s.disabled_hooks, ArgGroup::DisabledHooks) + opt_group(s.fb303, ArgGroup::Fb303)
        + opt_group(s.test_args, ArgGroup::Test)
}

/// The argument groups of a command line with settings `s`, in order.
pub open spec fn arg_groups_of(s: AppSettings) -> Seq<ArgGroup> {
    seq![ArgGroup::ConfigPath] + repo_groups_of(s) + standard_groups_of(s) + optional_groups_of(s)
}

fn push_if(v: &mut Vec<ArgGroup>, on: bool, g: ArgGroup)
    ensures
        final(v)@ == old(v)@ + opt_group(on, g),
{
    if on {
        v.push(g);
    } else {
        assert(old(v)@ + opt_group(on, g) =~= old(v)@);
    }
}

fn push_repo_groups(v: &mut Vec<ArgGroup>, s: AppSettings)
    ensures
        final(v)@ == old(v)@ + repo_groups_of(s),
{
    let ghost start = v@;
    if !s.all_repos {
        v.push(
            ArgGroup::Repo { required: s.repo_required, conflicts_with_target_only: s.source_repo },
        );
        push_if(v, s.source_repo || s.source_and_target_repos, ArgGroup::SourceRepo);
        push_if(v, s.source_and_target_repos, ArgGroup::TargetRepo);
    }
    assert(v@ =~= start + repo_groups_of(s));
}

fn push_standard_groups(v: &mut Vec<ArgGroup>, s: AppSettings)
    ensures
        final(v)@ == old(v)@ + standard_groups_of(s),
{
    let ghost start = v@;
    v.push(ArgGroup::Logger);
    v.push(ArgGroup::MysqlOptions);
    v.push(ArgGroup::Blobstore);
    v.push(ArgGroup::Cachelib { hidden: s.hide_advanced_args });
    v.push(ArgGroup::Runtime);
    v.push(ArgGroup::Tunables);
    assert(v@ =~= start + standard_groups_of(s));
}

fn push_optional_groups(v: &mut Vec<ArgGroup>, s: AppSettings)
    ensures
        final(v)@ == old(v)@ + optional_groups_of(s),
{
    let ghost start = v@;
    push_if(v, s.shutdown_timeout, ArgGroup::ShutdownTimeout);
    push_if(v, s.scuba_logging, ArgGroup::ScubaLogging);
    push_if(v, s.disabled_hooks, ArgGroup::DisabledHooks);
    push_if(v, s.fb303, ArgGroup::Fb303);
    push_if(v, s.test_args, ArgGroup::Test);
    assert(v@ =~= start + optional_groups_of(s));
}

impl MononokeApp {
    pub closed spec fn name_view(&self) -> Seq<char> {
        self.name@
    }

    pub closed spec fn settings_view(&self) -> AppSettings {
        self.settings
    }

    /// A command line with the standard arguments only.
    pub fn new(name: String) -> (r: MononokeApp)
        ensures
            r.name_view() == name@,
            r.settings_view() == (AppSettings {
                hide_advanced_args: false,
                all_repos: false,
                repo_required: false,
                source_and_target_repos: false,
                source_repo: false,
                shutdown_timeout: false,
                scuba_logging: false,
                disabled_hooks: false,
                fb303: false,
                test_args: false,
            }),
    {
        MononokeApp {
            name,
            settings: AppSettings {
                hide_advanced_args: false,
                all_repos: false,
                repo_required: false,
                source_and_target_repos: false,
                source_repo: false,
                shutdown_timeout: false,
                scuba_logging: false,
                disabled_hooks: false,
                fb303: false,
                test_args: false,
            },
        }
    }

    pub fn name(&self) -> (r: &str)
        ensures
            r@ == self.name_view(),
    {
        self.name.as_str()
    }

    pub fn settings(&self) -> (r: AppSettings)
        ensures
            r == self.settings_view(),
    {
        self.settings
    }

    /// Adds the arguments for integration tests.
    pub fn with_test_args(self) -> (r: MononokeApp)
        ensures
            r.name_view() == self.name_view(),
            r.settings_view() == (AppSettings { test_args: true, ..self.settings_view() }),
    {
        let mut app = self;
        app.settings.test_args = true;
        app
    }

    /// Hides the advanced arguments from help.
    pub fn with_advanced_args_hidden(self) -> (r: MononokeApp)
        ensures
            r.name_view() == self.name_view(),
            r.settings_view() == (AppSettings { hide_advanced_args: true, ..self.settings_view() }),
    {
        let mut app = self;
        app.settings.hide_advanced_args = true;
        app
    }

    /// Operates on all configured repos: no arguments to select one.
    pub fn with_all_repos(self) -> (r: MononokeApp)
        ensures
            r.name_view() == self.name_view(),
            r.settings_view() == (AppSettings { all_repos: true, ..self.settings_view() }),
    {
        let mut app = self;
        app.settings.all_repos = true;
        app
    }

    /// Requires a repo to be selected.
    pub fn with_repo_required(self) -> (r: MononokeApp)
        ensures
            r.name_view() == self.name_view(),
            r.settings_view() == (AppSettings { repo_required: true, ..self.settings_view() }),
    {
        let mut app = self;
        app.settings.repo_required = true;
        app
    }

    /// Operates on a source and a target repo.
    pub fn with_source_and_target_repos(self) -> (r: MononokeApp)
        ensures
            r.name_view() == self.name_view(),
            r.settings_view() == (AppSettings {
                source_and_target_repos: true,
                ..self.settings_view()
            }),
    {
        let mut app = self;
        app.settings.source_and_target_repos = true;
        app
    }

    /// Operates on one repo whose commits come from a source repo.
    pub fn with_source_repos(self) -> (r: MononokeApp)
        ensures
            r.name_view() == self.name_view(),
            r.settings_view() == (AppSettings { source_repo: true, ..self.settings_view() }),
    {
        let mut app = self;
        app.settings.source_repo = true;
        app
    }

    /// Adds the graceful shutdown arguments.
    pub fn with_shutdown_timeout_args(self) -> (r: MononokeApp)
        ensures
            r.name_view() == self.name_view(),
            r.settings_view() == (AppSettings { shutdown_timeout: true, ..self.settings_view() }),
    {
        let mut app = self;
        app.settings.shutdown_timeout = true;
        app
    }

    /// Adds the scuba logging arguments.
    pub fn with_scuba_logging_args(self) -> (r: MononokeApp)
        ensures
            r.name_view() == self.name_view(),
            r.settings_view() == (AppSettings { scuba_logging: true, ..self.settings_view() }),
    {
        let mut app = self;
        app.settings.scuba_logging = true;
        app
    }

    /// Adds the argument to disable hooks.
    pub fn with_disabled_hooks_args(self) -> (r: MononokeApp)
        ensures
            r.name_view() == self.name_view(),
            r.settings_view() == (AppSettings { disabled_hooks: true, ..self.settings_view() }),
    {
        let mut app = self;
        app.settings.disabled_hooks = true;
        app
    }

    /// Adds the fb303 thrift port argument.
    pub fn with_fb303_args(self) -> (r: MononokeApp)
        ensures
            r.name_view() == self.name_view(),
            r.settings_view() == (AppSettings { fb303: true, ..self.settings_view() }),
    {
        let mut app = self;
        app.settings.fb303 = true;
        app
    }

    /// The argument groups the command line offers, in the order they are
    /// added.
    pub fn arg_groups(&self) -> (r: Vec<ArgGroup>)
        ensures
            r@ == arg_groups_of(self.settings_view()),
    {
        let s = self.settings;
        let mut groups: Vec<ArgGroup> = Vec::new();
        groups.push(ArgGroup::ConfigPath);
        assert(groups@ =~= seq![ArgGroup::ConfigPath]);
        push_repo_groups(&mut groups, s);
        push_standard_groups(&mut groups, s);
        push_optional_groups(&mut groups, s);
        groups
    }
}


/// A configured repository: its name and id.
#[derive(Debug)]
pub struct RepoConfigEntry {
    pub name: String,
    pub repo_id: RepositoryId,
}

/// Why no single repository could be selected.
#[derive(Clone, Copy, Debug, PartialEq, Eq, Structural)]
pub enum RepoSelectionError {
    BothNameAndId,
    NeitherNameNorId,
    UnknownRepoId(RepositoryId),
    MultipleConfigsForRepoId(RepositoryId),
    UnknownRepoName,
    MultipleConfigsForRepoName,
}

pub open spec fn configs_with_id(configs: Seq<RepoConfigEntry>, id: RepositoryId) -> Seq<RepoConfigEntry> {
    configs.filter(|e: RepoConfigEntry| e.repo_id == id)
}

pub open spec fn configs_with_name(configs: Seq<RepoConfigEntry>, name: Seq<char>) -> Seq<RepoConfigEntry> {
    configs.filter(|e: RepoConfigEntry| e.name@ == name)
}

/// The one configuration that matches, or why there is not exactly one.
pub open spec fn single_match(matches: Seq<RepoConfigEntry>, none: RepoSelectionError, many: RepoSelectionError) -> Result<(RepositoryId, Seq<char>), RepoSelectionError> {
    if matches.len() == 0 {
        Err(none)
    } else if matches.len() > 1 {
        Err(many)
    } else {
        Ok((matches[0].repo_id, matches[0].name@))
    }
}

fn find_single(
    configs: &Vec<RepoConfigEntry>,
    name: Option<&str>,
    id: RepositoryId,
) -> (r: (usize, usize))
    ensures
        r.0 == match name {
            Some(n) => configs_with_name(configs@, n@).len(),
            None => configs_with_id(configs@, id).len(),
        },
        r.0 >= 1 ==> r.1 < configs@.len() && configs@[r.1 as int] == match name {
            Some(n) => configs_with_name(configs@, n@).last(),
            None => configs_with_id(configs@, id).last(),
        },
{
    let ghost pred = match name {
        Some(n) => |e: RepoConfigEntry| e.name@ == n@,
        None => |e: RepoConfigEntry| e.repo_id == id,
    };
    let mut count: usize = 0;
    let mut last: usize = 0;
    let mut i: usize = 0;
    while i < configs.len()
        invariant
            i <= configs@.len(),
            pred == match name {
                Some(n) => |e: RepoConfigEntry| e.name@ == n@,
                None => |e: RepoConfigEntry| e.repo_id == id,
            },
            count == configs@.subrange(0, i as int).filter(pred).len(),
            count <= i,
            count >= 1 ==> last < i && configs@[last as int] == configs@.subrange(0, i as int).filter(pred).last(),
        decreases configs@.len() - i,
    {
        let hit = match name {
            Some(n) => configs[i].name.as_str().unicode_len() == n.unicode_len() && same_chars(configs[i].name.as_str(), n),
            None => configs[i].repo_id == id,
        };
        proof {
            let s = configs@.subrange(0, i + 1);
            assert(s.drop_last() =~= configs@.subrange(0, i as int));
            assert(s.last() == configs@[i as int]);
            reveal(Seq::filter);
            assert(s.filter(pred) == if pred(s.last()) {
                s.drop_last().filter(pred).push(s.last())
            } else {
                s.drop_last().filter(pred)
            });
        }
        if hit {
            count = count + 1;
            last = i;
        }
        i = i + 1;
    }
    assert(configs@.subrange(0, configs@.len() as int) =~= configs@);
    (count, last)
}

fn same_chars(a: &str, b: &str) -> (r: bool)
    requires
        a@.len() == b@.len(),
    ensures
        r == (a@ == b@),
{
    let n = a.unicode_len();
    let mut i: usize = 0;
    while i < n
        invariant
            n == a@.len(),
            a@.len() == b@.len(),
            i <= n,
            forall|j: int| 0 <= j < i ==> a@[j] == b@[j],
        decreases n - i,
    {
        if a.get_char(i) != b.get_char(i) {
            return false;
        }
        i = i + 1;
    }
    assert(a@ =~= b@);
    true
}

/// Selects the repository named by exactly one of a name and an id, among
/// the configured ones; the selection must match exactly one configuration.
pub fn get_repo_id_and_name_from_values(
    configs: &Vec<RepoConfigEntry>,
    repo_name: Option<&str>,
    repo_id: Option<RepositoryId>,
) -> (r: Result<(RepositoryId, String), RepoSelectionError>)
    ensures
        repo_name is Some && repo_id is Some ==> r == Err::<(RepositoryId, String), RepoSelectionError>(RepoSelectionError::BothNameAndId),
        repo_name is None && repo_id is None ==> r == Err::<(RepositoryId, String), RepoSelectionError>(RepoSelectionError::NeitherNameNorId),
        repo_name is None && repo_id is Some ==> {
            let id = repo_id->Some_0;
            match single_match(configs_with_id(configs@, id), RepoSelectionError::UnknownRepoId(id), RepoSelectionError::MultipleConfigsForRepoId(id)) {
                Ok((i, n)) => r is Ok && r->Ok_0.0 == i && r->Ok_0.1@ == n,
                Err(e) => r == Err::<(RepositoryId, String), RepoSelectionError>(e),
            }
        },
        repo_name is Some && repo_id is None ==> {
            match single_match(configs_with_name(configs@, repo_name->Some_0@), RepoSelectionError::UnknownRepoName, RepoSelectionError::MultipleConfigsForRepoName) {
                Ok((i, n)) => r is Ok && r->Ok_0.0 == i && r->Ok_0.1@ == n,
                Err(e) => r == Err::<(RepositoryId, String), RepoSelectionError>(e),
            }
        },
{
    match (repo_name, repo_id) {
        (Some(_), Some(_)) => Err(RepoSelectionError::BothNameAndId),
        (None, None) => Err(RepoSelectionError::NeitherNameNorId),
        (None, Some(id)) => {
            let (count, last) = find_single(configs, None, id);
            if count == 0 {
                Err(RepoSelectionError::UnknownRepoId(id))
            } else if count > 1 {
                Err(RepoSelectionError::MultipleConfigsForRepoId(id))
            } else {
                Ok((configs[last].repo_id, configs[last].name.clone()))
            }
        },
        (Some(name), None) => {
            let (count, last) = find_single(configs, Some(name), RepositoryId(0));
            if count == 0 {
                Err(RepoSelectionError::UnknownRepoName)
            } else if count > 1 {
                Err(RepoSelectionError::MultipleConfigsForRepoName)
            } else {
                Ok((configs[last].repo_id, configs[last].name.clone()))
            }
        },
    }
}

/// A hook disabled for one repository.
#[derive(Debug)]
pub struct DisabledHook {
    pub repo: String,
    pub hook: String,
}

/// A disabled-hook value without the `REPONAME:HOOKNAME` separator.
#[derive(Clone, Copy, Debug, PartialEq, Eq, Structural)]
pub struct InvalidDisabledHook {
    /// Position of the offending value.
    pub index: usize,
}

/// `repo` and `hook` are `s` split at its first `:`.
pub open spec fn split_at_first_colon(s: Seq<char>, repo: Seq<char>, hook: Seq<char>) -> bool {
    exists|i: int|
        0 <= i < s.len() && s[i] == ':' && (forall|j: int| 0 <= j < i ==> s[j] != ':') && repo
            == s.subrange(0, i) && hook == s.subrange(i + 1, s.len() as int)
}

pub open spec fn has_colon(s: Seq<char>) -> bool {
    exists|i: int| 0 <= i < s.len() && s[i] == ':'
}

fn split_at_colon(s: &str) -> (r: Option<(String, String)>)
    ensures
        match r {
            Some((repo, hook)) => split_at_first_colon(s@, repo@, hook@),
            None => !has_colon(s@),
        },
{
    let n = s.unicode_len();
    let mut i: usize = 0;
    while i < n
        invariant
            n == s@.len(),
            i <= n,
            forall|j: int| 0 <= j < i ==> s@[j] != ':',
        decreases n - i,
    {
        if s.get_char(i) == ':' {
            let repo = String::from_str(s.substring_char(0, i));
            let hook = String::from_str(s.substring_char(i + 1, n));
            assert(s@[i as int] == ':');
            return Some((repo, hook));
        }
        i = i + 1;
    }
    None
}

/// Splits each `REPONAME:HOOKNAME` value at its first `:`, keeping their
/// order; fails at the first value without a `:`.
pub fn parse_disabled_hooks_with_repo_prefix(values: &Vec<String>) -> (r: Result<
    Vec<DisabledHook>,
    InvalidDisabledHook,
>)
    ensures
        match r {
            Ok(hooks) => hooks@.len() == values@.len() && forall|k: int|
                0 <= k < values@.len() ==> split_at_first_colon(
                    values@[k]@,
                    (#[trigger] hooks@[k]).repo@,
                    hooks@[k].hook@,
                ),
            Err(e) => e.index < values@.len() && !has_colon(values@[e.index as int]@) && forall|
                k: int,
            |
                0 <= k < e.index ==> #[trigger] has_colon(values@[k]@),
        },
{
    let mut out: Vec<DisabledHook> = Vec::new();
    let mut k: usize = 0;
    while k < values.len()
        invariant
            k <= values@.len(),
            out@.len() == k,
            forall|m: int|
                0 <= m < k ==> split_at_first_colon(
                    values@[m]@,
                    (#[trigger] out@[m]).repo@,
                    out@[m].hook@,
                ),
        decreases values@.len() - k,
    {
        match split_at_colon(values[k].as_str()) {
            Some((repo, hook)) => {
                out.push(DisabledHook { repo, hook });
            },
            None => {
                assert forall|m: int| 0 <= m < k implies #[trigger] has_colon(values@[m]@) by {
                    assert(split_at_first_colon(values@[m]@, out@[m].repo@, out@[m].hook@));
                }
                return Err(InvalidDisabledHook { index: k });
            },
        }
        k = k + 1;
    }
    Ok(out)
}

} // verus!
