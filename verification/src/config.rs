//! The configuration of a vendor space, and how it is resolved.
//!
//! A [`Config`] is what the rest of the library works on: a root directory
//! and the repositories to keep under it, every setting decided. It is
//! resolved from two plain values that the program reads: the command line,
//! as [`Args`], and the configuration file, as [`ConfigFile`]. Reading and
//! parsing them is not done here, and neither is anything that asks the
//! filesystem: [`config_source`] and [`root_plan`] say which paths have to be
//! looked up, and [`resolve_config`] puts the settings together, or refuses
//! a file in which a repository is left without a branch.

use vstd::prelude::*;
use vstd::string::*;

verus! {

/// Whether an existing directory may be used for a repository, where neither
/// the command line nor the configuration file says so.
pub const ALLOW_EXISTING_DEFAULT: bool = false;

/// The branches of a repository for which the configuration file names none.
pub open spec fn default_branches() -> Seq<Seq<char>> {
    seq!["master"@]
}

/// The name of the configuration file that is searched for.
pub open spec fn config_file_name() -> Seq<char> {
    "vendor-space.toml"@
}

/// Why a configuration could not be resolved.
#[derive(Debug, Clone, PartialEq, Eq)]
pub enum ConfigError {
    /// What the user provided cannot be used.
    InvalidInput(String),
    /// Something that should always be possible was not.
    Unexpected(String),
}

/// The mathematical model of a [`ConfigError`].
pub enum ConfigErrorView {
    InvalidInput(Seq<char>),
    Unexpected(Seq<char>),
}

impl View for ConfigError {
    type V = ConfigErrorView;

    open spec fn view(&self) -> ConfigErrorView {
        match self {
            ConfigError::InvalidInput(message) => ConfigErrorView::InvalidInput(message@),
            ConfigError::Unexpected(message) => ConfigErrorView::Unexpected(message@),
        }
    }
}

/// One repository of a vendor space, every setting decided.
#[derive(Debug, Clone, PartialEq, Eq)]
pub struct Repo {
    /// The name of the repository, which is also the name of its directory
    /// under the root.
    pub name: String,
    /// Where the repository is cloned from.
    pub url: String,
    /// The branches to vendor, in order. The first is the primary branch.
    pub branches: Vec<String>,
    /// Whether a directory that is already there may be used.
    pub allow_existing: bool,
}

/// The mathematical model of a [`Repo`].
pub struct RepoView {
    pub name: Seq<char>,
    pub url: Seq<char>,
    pub branches: Seq<Seq<char>>,
    pub allow_existing: bool,
}

impl DeepView for Repo {
    type V = RepoView;

    open spec fn deep_view(&self) -> RepoView {
        RepoView {
            name: self.name@,
            url: self.url@,
            branches: self.branches.deep_view(),
            allow_existing: self.allow_existing,
        }
    }
}

impl View for Repo {
    type V = RepoView;

    open spec fn view(&self) -> RepoView {
        self.deep_view()
    }
}

impl RepoView {
    /// A repository has at least one branch.
    pub open spec fn well_formed(self) -> bool {
        self.branches.len() > 0
    }
}

/// A vendor space: the directory that holds the repositories, and the
/// repositories, in the order in which they are worked on.
#[derive(Debug, Clone, PartialEq, Eq)]
pub struct Config {
    /// The root directory, as an absolute and canonical path: the path that
    /// carrying out a [`RootPlan`] gave.
    pub root: String,
    pub repos: Vec<Repo>,
}

/// The mathematical model of a [`Config`].
pub struct ConfigView {
    pub root: Seq<char>,
    pub repos: Seq<RepoView>,
}

impl View for Config {
    type V = ConfigView;

    open spec fn view(&self) -> ConfigView {
        ConfigView { root: self.root@, repos: self.repos.deep_view() }
    }
}

impl ConfigView {
    /// Every repository has at least one branch.
    pub open spec fn well_formed(self) -> bool {
        forall|i: int| 0 <= i < self.repos.len() ==> (#[trigger] self.repos[i]).well_formed()
    }
}

impl Config {
    /// Whether every repository has at least one branch.
    pub fn is_well_formed(&self) -> (well_formed: bool)
        ensures
            well_formed == self@.well_formed(),
    {
        let mut i: usize = 0;
        while i < self.repos.len()
            invariant
                i <= self.repos.len(),
                forall|k: int| 0 <= k < i ==> (#[trigger] self@.repos[k]).well_formed(),
            decreases self.repos.len() - i,
        {
            if self.repos[i].branches.len() == 0 {
                assert(!self@.repos[i as int].well_formed());
                return false;
            }
            i += 1;
        }
        true
    }
}

/// The settings at the top of the configuration file, as they are written
/// there: a setting that the file does not hold is `None`.
#[derive(Debug, Clone, PartialEq, Eq)]
pub struct ConfigFileHeader {
    pub root: Option<String>,
    pub allow_existing: Option<bool>,
}

/// The mathematical model of a [`ConfigFileHeader`].
pub struct ConfigFileHeaderView {
    pub root: Option<Seq<char>>,
    pub allow_existing: Option<bool>,
}

impl View for ConfigFileHeader {
    type V = ConfigFileHeaderView;

    open spec fn view(&self) -> ConfigFileHeaderView {
        ConfigFileHeaderView {
            root: self.root.deep_view(),
            allow_existing: self.allow_existing,
        }
    }
}

/// One repository section of the configuration file, as it is written there.
#[derive(Debug, Clone, PartialEq, Eq)]
pub struct ConfigFileRepo {
    pub name: String,
    pub url: String,
    pub branches: Option<Vec<String>>,
    pub allow_existing: Option<bool>,
}

/// The mathematical model of a [`ConfigFileRepo`].
pub struct ConfigFileRepoView {
    pub name: Seq<char>,
    pub url: Seq<char>,
    pub branches: Option<Seq<Seq<char>>>,
    pub allow_existing: Option<bool>,
}

impl DeepView for ConfigFileRepo {
    type V = ConfigFileRepoView;

    open spec fn deep_view(&self) -> ConfigFileRepoView {
        ConfigFileRepoView {
            name: self.name@,
            url: self.url@,
            branches: self.branches.deep_view(),
            allow_existing: self.allow_existing,
        }
    }
}

impl View for ConfigFileRepo {
    type V = ConfigFileRepoView;

    open spec fn view(&self) -> ConfigFileRepoView {
        self.deep_view()
    }
}

impl ConfigFileRepoView {
    /// The section names a list of branches, and the list is empty.
    pub open spec fn names_no_branch(self) -> bool {
        self.branches matches Some(branches) && branches.len() == 0
    }
}

/// The configuration file, as it is written: nothing is defaulted and no
/// setting is taken for another.
#[derive(Debug, Clone, PartialEq, Eq)]
pub struct ConfigFile {
    pub header: ConfigFileHeader,
    pub repos: Vec<ConfigFileRepo>,
}

/// The mathematical model of a [`ConfigFile`].
pub struct ConfigFileView {
    pub header: ConfigFileHeaderView,
    pub repos: Seq<ConfigFileRepoView>,
}

impl View for ConfigFile {
    type V = ConfigFileView;

    open spec fn view(&self) -> ConfigFileView {
        ConfigFileView { header: self.header@, repos: self.repos.deep_view() }
    }
}

/// The command line, checked: it never both allows and blocks existing
/// directories.
#[derive(Debug)]
pub struct Args {
    config: Option<String>,
    root: Option<String>,
    allow_existing: bool,
    block_existing: bool,
}

/// The mathematical model of [`Args`].
pub struct ArgsView {
    /// The path of the configuration file, if one was given.
    pub config: Option<Seq<char>>,
    /// The root directory, if one was given.
    pub root: Option<Seq<char>>,
    /// Existing directories are allowed for every repository.
    pub allow_existing: bool,
    /// Existing directories are allowed for no repository.
    pub block_existing: bool,
}

impl ArgsView {
    /// The two flags do not contradict each other.
    pub open spec fn consistent(self) -> bool {
        !(self.allow_existing && self.block_existing)
    }

    /// What the command line decides for every repository, if it decides
    /// anything.
    pub open spec fn allow_existing_override(self) -> Option<bool> {
        if self.allow_existing || self.block_existing {
            Some(self.allow_existing && !self.block_existing)
        } else {
            None
        }
    }
}

impl View for Args {
    type V = ArgsView;

    closed spec fn view(&self) -> ArgsView {
        ArgsView {
            config: self.config.deep_view(),
            root: self.root.deep_view(),
            allow_existing: self.allow_existing,
            block_existing: self.block_existing,
        }
    }
}

impl Args {
    #[verifier::type_invariant]
    spec fn checked(self) -> bool {
        !(self.allow_existing && self.block_existing)
    }

    /// Checks what was read from the command line. Allowing and blocking
    /// existing directories at once is refused as invalid input; everything
    /// else is accepted as it is.
    pub fn parse(
        config: Option<String>,
        root: Option<String>,
        allow_existing: bool,
        block_existing: bool,
    ) -> (result: Result<Args, ConfigError>)
        ensures
            match result {
                Ok(args) => args@ == (ArgsView {
                    config: config.deep_view(),
                    root: root.deep_view(),
                    allow_existing,
                    block_existing,
                }) && args@.consistent(),
                Err(e) => allow_existing && block_existing && e@ == ConfigErrorView::InvalidInput(
                    "May not both allow and block existing"@,
                ),
            },
    {
        if allow_existing && block_existing {
            return Err(
                ConfigError::InvalidInput(String::from_str("May not both allow and block existing")),
            );
        }
        Ok(Args { config, root, allow_existing, block_existing })
    }

    /// What the command line decides for every repository: `Some(true)` when
    /// existing directories are allowed, `Some(false)` when they are blocked,
    /// `None` when it leaves the decision to the configuration file.
    pub fn allow_existing_override(&self) -> (decision: Option<bool>)
        ensures
            self@.consistent(),
            decision == self@.allow_existing_override(),
            decision == if self@.allow_existing {
                Some(true)
            } else if self@.block_existing {
                Some(false)
            } else {
                None
            },
    {
        proof {
            use_type_invariant(self);
        }
        if self.allow_existing || self.block_existing {
            Some(self.allow_existing && !self.block_existing)
        } else {
            None
        }
    }
}

/// Where the configuration file is to be had from.
#[derive(Debug, Clone, PartialEq, Eq)]
pub enum ConfigSource {
    /// The file at this path.
    Given(String),
    /// The file called `name` in the directory `dir`.
    Search { dir: String, name: String },
}

/// The mathematical model of a [`ConfigSource`].
pub enum ConfigSourceView {
    Given(Seq<char>),
    Search { dir: Seq<char>, name: Seq<char> },
}

impl View for ConfigSource {
    type V = ConfigSourceView;

    open spec fn view(&self) -> ConfigSourceView {
        match self {
            ConfigSource::Given(path) => ConfigSourceView::Given(path@),
            ConfigSource::Search { dir, name } => ConfigSourceView::Search {
                dir: dir@,
                name: name@,
            },
        }
    }
}

/// Where the command line says the configuration file is: at the path that
/// it gives; without one, in the root directory that it gives; without
/// either, in the current directory.
pub open spec fn config_source_of(args: ArgsView) -> ConfigSourceView {
    match args.config {
        Some(path) => ConfigSourceView::Given(path),
        None => ConfigSourceView::Search {
            dir: match args.root {
                Some(root) => root,
                None => "."@,
            },
            name: config_file_name(),
        },
    }
}

/// Says where the configuration file is to be had from.
pub fn config_source(args: &Args) -> (source: ConfigSource)
    ensures
        source@ == config_source_of(args@),
{
    match &args.config {
        Some(path) => ConfigSource::Given(path.clone()),
        None => {
            let dir = match &args.root {
                Some(root) => root.clone(),
                None => String::from_str("."),
            };
            ConfigSource::Search { dir, name: String::from_str("vendor-space.toml") }
        },
    }
}

/// How the root directory is to be found. Every plan ends with the path
/// being made canonical, so that the root is an absolute path without `.`,
/// `..` or symbolic links, however it was given.
#[derive(Debug, Clone, PartialEq, Eq)]
pub enum RootPlan {
    /// It is this path, made canonical.
    Canonicalize(String),
    /// It is this path, taken from the directory of the configuration file,
    /// and the path that this gives is then made canonical.
    JoinConfigDir(String),
}

/// The mathematical model of a [`RootPlan`].
pub enum RootPlanView {
    Canonicalize(Seq<char>),
    JoinConfigDir(Seq<char>),
}

impl View for RootPlan {
    type V = RootPlanView;

    open spec fn view(&self) -> RootPlanView {
        match self {
            RootPlan::Canonicalize(path) => RootPlanView::Canonicalize(path@),
            RootPlan::JoinConfigDir(path) => RootPlanView::JoinConfigDir(path@),
        }
    }
}

/// The root that the configuration file names: its own directory, where it
/// names none.
pub open spec fn file_root(header: ConfigFileHeaderView) -> Seq<char> {
    match header.root {
        Some(root) => root,
        None => "."@,
    }
}

/// How the root directory is found. A root on the command line wins, and is
/// made canonical. Otherwise the root is the one of the configuration file:
/// made canonical as it is if it is an absolute path, and taken from the
/// directory of the configuration file first if it is not.
pub open spec fn root_plan_of(
    args: ArgsView,
    header: ConfigFileHeaderView,
    absolute: bool,
) -> RootPlanView {
    match args.root {
        Some(root) => RootPlanView::Canonicalize(root),
        None => if absolute {
            RootPlanView::Canonicalize(file_root(header))
        } else {
            RootPlanView::JoinConfigDir(file_root(header))
        },
    }
}

/// `std::path::Path::is_absolute`: whether the path is absolute by the rules
/// of the platform. Nothing is claimed of the answer.
#[verifier::external_body]
fn is_absolute_path(path: &str) -> bool {
    std::path::Path::new(path).is_absolute()
}

/// Says how the root directory is to be found, given whether the root that
/// the configuration file names is an absolute path.
pub fn root_plan_given(args: &Args, header: &ConfigFileHeader, absolute: bool) -> (plan: RootPlan)
    ensures
        plan@ == root_plan_of(args@, header@, absolute),
{
    match &args.root {
        Some(root) => RootPlan::Canonicalize(root.clone()),
        None => {
            let root = match &header.root {
                Some(root) => root.clone(),
                None => String::from_str("."),
            };
            if absolute {
                RootPlan::Canonicalize(root)
            } else {
                RootPlan::JoinConfigDir(root)
            }
        },
    }
}

/// Says how the root directory is to be found. Whether the root of the
/// configuration file is an absolute path is asked of the platform.
pub fn root_plan(args: &Args, header: &ConfigFileHeader) -> (plan: RootPlan)
    ensures
        plan@ == root_plan_of(args@, header@, true) || plan@ == root_plan_of(
            args@,
            header@,
            false,
        ),
{
    let absolute = match &header.root {
        Some(root) => is_absolute_path(root.as_str()),
        None => is_absolute_path("."),
    };
    root_plan_given(args, header, absolute)
}

/// Whether an existing directory may be used for a repository. The command
/// line decides before the repository's own section, that before the top of
/// the configuration file, and that before the default.
pub open spec fn allow_existing_of(
    cli: Option<bool>,
    repo: Option<bool>,
    header: Option<bool>,
) -> bool {
    match cli {
        Some(allow) => allow,
        None => match repo {
            Some(allow) => allow,
            None => match header {
                Some(allow) => allow,
                None => ALLOW_EXISTING_DEFAULT,
            },
        },
    }
}

/// Decides whether an existing directory may be used for a repository.
pub fn resolve_allow_existing(cli: Option<bool>, repo: Option<bool>, header: Option<bool>) -> (allow:
    bool)
    ensures
        allow == allow_existing_of(cli, repo, header),
{
    match cli {
        Some(allow) => allow,
        None => match repo {
            Some(allow) => allow,
            None => match header {
                Some(allow) => allow,
                None => ALLOW_EXISTING_DEFAULT,
            },
        },
    }
}

/// What is reported of a repository section that names an empty list of
/// branches.
pub open spec fn no_branch_message(name: Seq<char>) -> Seq<char> {
    "The repository "@ + name + " has an empty list of branches"@
}

/// A repository section with every setting decided: its branches are those
/// that it names, or the default ones where it names no list.
pub open spec fn resolved_repo(
    repo: ConfigFileRepoView,
    cli: Option<bool>,
    header: Option<bool>,
) -> RepoView {
    RepoView {
        name: repo.name,
        url: repo.url,
        branches: match repo.branches {
            Some(branches) => branches,
            None => default_branches(),
        },
        allow_existing: allow_existing_of(cli, repo.allow_existing, header),
    }
}

/// Decides every setting of one repository section. A section that names an
/// empty list of branches is refused as invalid input; every other section
/// comes to a repository with at least one branch.
pub fn resolve_repo(repo: ConfigFileRepo, cli: Option<bool>, header: Option<bool>) -> (result:
    Result<Repo, ConfigError>)
    ensures
        result is Err <==> repo@.names_no_branch(),
        result matches Ok(resolved) ==> resolved@ == resolved_repo(repo@, cli, header)
            && resolved@.well_formed(),
        result matches Err(e) ==> e@ == ConfigErrorView::InvalidInput(
            no_branch_message(repo@.name),
        ),
{
    let allow_existing = resolve_allow_existing(cli, repo.allow_existing, header);
    let branches = match repo.branches {
        Some(branches) => {
            if branches.len() == 0 {
                let message = String::from_str("The repository ").concat(
                    repo.name.as_str(),
                ).concat(" has an empty list of branches");
                return Err(ConfigError::InvalidInput(message));
            }
            branches
        },
        None => {
            let mut branches = Vec::new();
            branches.push(String::from_str("master"));
            assert(branches.deep_view() =~= default_branches());
            branches
        },
    };
    Ok(Repo { name: repo.name, url: repo.url, branches, allow_existing })
}

/// The configuration that a root directory, a configuration file and the
/// decision of the command line come to: the repositories of the file, in
/// its order, each with every setting decided.
pub open spec fn resolved_config(
    root: Seq<char>,
    file: ConfigFileView,
    cli: Option<bool>,
) -> ConfigView {
    ConfigView {
        root,
        repos: Seq::new(
            file.repos.len(),
            |i: int| resolved_repo(file.repos[i], cli, file.header.allow_existing),
        ),
    }
}

/// The section at place `i` is the first that names an empty list of
/// branches.
pub open spec fn is_first_without_branch(sections: Seq<ConfigFileRepoView>, i: int) -> bool {
    &&& 0 <= i < sections.len()
    &&& sections[i].names_no_branch()
    &&& forall|j: int| 0 <= j < i ==> !(#[trigger] sections[j]).names_no_branch()
}

/// Puts the configuration together from the root directory, the
/// configuration file and the decision of the command line.
///
/// A file in which a section names an empty list of branches is refused as
/// invalid input, and the first such section is the one reported. Every
/// other file is resolved, and every repository of the configuration then
/// has at least one branch.
pub fn resolve_config(root: String, file: ConfigFile, cli: Option<bool>) -> (result: Result<
    Config,
    ConfigError,
>)
    ensures
        result is Err <==> exists|i: int|
            0 <= i < file@.repos.len() && (#[trigger] file@.repos[i]).names_no_branch(),
        result matches Ok(config) ==> config@ == resolved_config(root@, file@, cli)
            && config@.well_formed(),
        result matches Err(e) ==> exists|i: int| #[trigger]
            is_first_without_branch(file@.repos, i) && e@ == ConfigErrorView::InvalidInput(
                no_branch_message(file@.repos[i].name),
            ),
{
    let header_allow = file.header.allow_existing;
    let ghost sections = file.repos.deep_view();
    let mut repos: Vec<Repo> = Vec::new();
    for repo in it: file.repos
        invariant
            sections == file@.repos,
            it.seq().len() == sections.len(),
            forall|i: int| 0 <= i < it.seq().len() ==> (#[trigger] it.seq()[i])@ == sections[i],
            repos@.len() == it.index(),
            forall|i: int| 0 <= i < repos@.len() ==> !(#[trigger] sections[i]).names_no_branch(),
            forall|i: int|
                0 <= i < repos@.len() ==> (#[trigger] repos@[i])@ == resolved_repo(
                    sections[i],
                    cli,
                    header_allow,
                ),
    {
        let ghost place = repos@.len() as int;
        assert(repo@ == sections[place]);
        match resolve_repo(repo, cli, header_allow) {
            Ok(resolved) => repos.push(resolved),
            Err(e) => {
                assert(is_first_without_branch(sections, place));
                return Err(e);
            },
        }
    }
    let config = Config { root, repos };
    assert(config@.repos =~= resolved_config(root@, file@, cli).repos);
    proof {
        law_resolution_is_well_formed(root@, file@, cli);
    }
    Ok(config)
}

/// What a file resolves to is well formed exactly when none of its sections
/// names an empty list of branches: a section that names no list at all gets
/// the default branch.
pub proof fn law_resolution_is_well_formed(root: Seq<char>, file: ConfigFileView, cli: Option<bool>)
    ensures
        resolved_config(root, file, cli).well_formed() <==> forall|i: int|
            0 <= i < file.repos.len() ==> !(#[trigger] file.repos[i]).names_no_branch(),
{
    let config = resolved_config(root, file, cli);
    if config.well_formed() {
        assert forall|i: int| 0 <= i < file.repos.len() implies !(#[trigger] file.repos[
            i
        ]).names_no_branch() by {
            assert(config.repos[i].well_formed());
        }
    }
    if forall|i: int| 0 <= i < file.repos.len() ==> !(#[trigger] file.repos[i]).names_no_branch() {
        assert forall|i: int| 0 <= i < config.repos.len() implies (#[trigger] config.repos[
            i
        ]).well_formed() by {
            assert(!file.repos[i].names_no_branch());
        }
    }
}

} // verus!
