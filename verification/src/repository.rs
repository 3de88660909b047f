//! Repository acquisition: making sure that a usable git working directory
//! stands at a path.
//!
//! A path that holds nothing is cloned into. A path that holds a regular file
//! is rejected. A path that holds a directory is rejected too, unless existing
//! directories are allowed; then the directory is adopted if it is a git
//! repository without uncommitted changes, whatever branch it is on.
//!
//! [`get_code`] is the step function of this procedure and
//! [`acquire_request`] names what has to be done at each stage. The laws at
//! the end of the module say what a whole run does at a given [`Site`].

use vstd::prelude::*;
use vstd::string::*;
use crate::cmd::{Command, CommandView, Script, ScriptView, ShellError};
use crate::protocol::{Event, PathKind, Record, Request, RequestView, Step};

verus! {

/// Why no repository could be acquired at a path.
#[derive(Debug)]
pub enum RepositoryError {
    /// The path holds a regular file.
    PathIsFile(String),
    /// The path holds a directory, and existing directories are not allowed.
    DirectoryAlreadyExists(String),
    /// The directory is a git repository with uncommitted changes.
    DirtyWorkingTree(String),
    /// The directory holds no `.git` directory, or `git status` fails in it.
    InvalidGitRepo(String),
    /// Nothing was at the path, and cloning into it failed.
    GitClone(ShellError),
}

/// The mathematical model of a [`RepositoryError`].
pub enum RepositoryErrorView {
    PathIsFile(Seq<char>),
    DirectoryAlreadyExists(Seq<char>),
    DirtyWorkingTree(Seq<char>),
    InvalidGitRepo(Seq<char>),
    GitClone(ShellError),
}

impl View for RepositoryError {
    type V = RepositoryErrorView;

    open spec fn view(&self) -> RepositoryErrorView {
        match self {
            RepositoryError::PathIsFile(path) => RepositoryErrorView::PathIsFile(path@),
            RepositoryError::DirectoryAlreadyExists(path) => {
                RepositoryErrorView::DirectoryAlreadyExists(path@)
            },
            RepositoryError::DirtyWorkingTree(path) => RepositoryErrorView::DirtyWorkingTree(path@),
            RepositoryError::InvalidGitRepo(path) => RepositoryErrorView::InvalidGitRepo(path@),
            RepositoryError::GitClone(e) => RepositoryErrorView::GitClone(*e),
        }
    }
}

/// Where an acquisition stands: the answer that it is waiting for.
#[derive(Debug, Clone, Copy, PartialEq, Eq, Structural)]
pub enum AcquireStage {
    /// What is at the path. Every acquisition starts here.
    Occupant,
    /// What is at `.git` inside the directory.
    GitDir,
    /// How `git status` ends in the directory.
    Status,
    /// How the check for uncommitted changes ends.
    Changes,
    /// How the clone ends.
    Cloning,
}

impl View for AcquireStage {
    type V = AcquireStage;

    open spec fn view(&self) -> AcquireStage {
        *self
    }
}

/// The path of the git directory inside the directory at `path`.
pub open spec fn git_dir_path(path: Seq<char>) -> Seq<char> {
    path + "/.git"@
}

/// The script that asks git whether the directory at `path` is a repository.
pub open spec fn status_script(path: Seq<char>) -> ScriptView {
    ScriptView {
        strict: true,
        commands: seq![CommandView::ChangeDir(path), CommandView::GitStatus],
    }
}

/// The script that fails when the repository at `path` has changes, staged or
/// not, that `HEAD` does not hold.
pub open spec fn changes_script(path: Seq<char>) -> ScriptView {
    ScriptView {
        strict: true,
        commands: seq![CommandView::ChangeDir(path), CommandView::GitDiffIndex],
    }
}

/// The script that clones `url` into `path`.
pub open spec fn clone_script(path: Seq<char>, url: Seq<char>) -> ScriptView {
    ScriptView { strict: true, commands: seq![CommandView::GitClone { url, path }] }
}

/// What an acquisition asks for at each stage.
pub open spec fn acquisition_request(
    path: Seq<char>,
    url: Seq<char>,
    stage: AcquireStage,
) -> RequestView {
    match stage {
        AcquireStage::Occupant => RequestView::Inspect(path),
        AcquireStage::GitDir => RequestView::Inspect(git_dir_path(path)),
        AcquireStage::Status => RequestView::Run(status_script(path)),
        AcquireStage::Changes => RequestView::Run(changes_script(path)),
        AcquireStage::Cloning => RequestView::Run(clone_script(path, url)),
    }
}

/// The decision that an acquisition takes at each stage, on the answer to
/// that stage's request. An event that does not answer the request changes
/// nothing: the acquisition stays at its stage.
pub open spec fn acquisition_step(
    path: Seq<char>,
    allow_existing: bool,
    stage: AcquireStage,
    event: Event,
) -> Step<AcquireStage, RepositoryErrorView> {
    match (stage, event) {
        (AcquireStage::Occupant, Event::Found(PathKind::File)) => Step::Done(
            Err(RepositoryErrorView::PathIsFile(path)),
        ),
        (AcquireStage::Occupant, Event::Found(PathKind::Directory)) => if allow_existing {
            Step::Continue(AcquireStage::GitDir)
        } else {
            Step::Done(Err(RepositoryErrorView::DirectoryAlreadyExists(path)))
        },
        (AcquireStage::Occupant, Event::Found(PathKind::Absent)) => Step::Continue(
            AcquireStage::Cloning,
        ),
        (AcquireStage::GitDir, Event::Found(PathKind::Directory)) => Step::Continue(
            AcquireStage::Status,
        ),
        (AcquireStage::GitDir, Event::Found(_)) => Step::Done(
            Err(RepositoryErrorView::InvalidGitRepo(path)),
        ),
        (AcquireStage::Status, Event::Exited(Ok(()))) => Step::Continue(AcquireStage::Changes),
        (AcquireStage::Status, Event::Exited(Err(_))) => Step::Done(
            Err(RepositoryErrorView::InvalidGitRepo(path)),
        ),
        (AcquireStage::Changes, Event::Exited(Ok(()))) => Step::Done(Ok(())),
        (AcquireStage::Changes, Event::Exited(Err(_))) => Step::Done(
            Err(RepositoryErrorView::DirtyWorkingTree(path)),
        ),
        (AcquireStage::Cloning, Event::Exited(Ok(()))) => Step::Done(Ok(())),
        (AcquireStage::Cloning, Event::Exited(Err(e))) => Step::Done(
            Err(RepositoryErrorView::GitClone(e)),
        ),
        _ => Step::Continue(stage),
    }
}

/// Names what has to be done at `stage` of the acquisition of the repository
/// `url` at `path`.
pub fn acquire_request(path: &str, url: &str, stage: AcquireStage) -> (request: Request)
    ensures
        request@ == acquisition_request(path@, url@, stage),
{
    match stage {
        AcquireStage::Occupant => Request::Inspect(String::from_str(path)),
        AcquireStage::GitDir => Request::Inspect(String::from_str(path).concat("/.git")),
        AcquireStage::Status => {
            let script = Script::new(true).with(Command::ChangeDir(String::from_str(path))).with(
                Command::GitStatus,
            );
            assert(script@.commands =~= status_script(path@).commands);
            Request::Run(script)
        },
        AcquireStage::Changes => {
            let script = Script::new(true).with(Command::ChangeDir(String::from_str(path))).with(
                Command::GitDiffIndex,
            );
            assert(script@.commands =~= changes_script(path@).commands);
            Request::Run(script)
        },
        AcquireStage::Cloning => {
            let script = Script::new(true).with(
                Command::GitClone { url: String::from_str(url), path: String::from_str(path) },
            );
            assert(script@.commands =~= clone_script(path@, url@).commands);
            Request::Run(script)
        },
    }
}

/// One step of the acquisition of a repository at `path`: takes the answer to
/// the request of `stage` and decides how the acquisition goes on.
///
/// The acquisition starts at [`AcquireStage::Occupant`]. It ends with `Ok`
/// when a clean repository was adopted or a clone succeeded; what branch the
/// working directory is then on is not decided here.
pub fn get_code(path: &str, allow_existing: bool, stage: AcquireStage, event: Event) -> (step: Step<
    AcquireStage,
    RepositoryError,
>)
    ensures
        step@ == acquisition_step(path@, allow_existing, stage, event),
{
    match stage {
        AcquireStage::Occupant => match event {
            Event::Found(PathKind::File) => Step::Done(
                Err(RepositoryError::PathIsFile(String::from_str(path))),
            ),
            Event::Found(PathKind::Directory) => {
                if allow_existing {
                    Step::Continue(AcquireStage::GitDir)
                } else {
                    Step::Done(Err(RepositoryError::DirectoryAlreadyExists(String::from_str(path))))
                }
            },
            Event::Found(PathKind::Absent) => Step::Continue(AcquireStage::Cloning),
            Event::Exited(_) => Step::Continue(stage),
        },
        AcquireStage::GitDir => match event {
            Event::Found(PathKind::Directory) => Step::Continue(AcquireStage::Status),
            Event::Found(_) => Step::Done(
                Err(RepositoryError::InvalidGitRepo(String::from_str(path))),
            ),
            Event::Exited(_) => Step::Continue(stage),
        },
        AcquireStage::Status => match event {
            Event::Exited(Ok(())) => Step::Continue(AcquireStage::Changes),
            Event::Exited(Err(_)) => Step::Done(
                Err(RepositoryError::InvalidGitRepo(String::from_str(path))),
            ),
            Event::Found(_) => Step::Continue(stage),
        },
        AcquireStage::Changes => match event {
            Event::Exited(Ok(())) => Step::Done(Ok(())),
            Event::Exited(Err(_)) => Step::Done(
                Err(RepositoryError::DirtyWorkingTree(String::from_str(path))),
            ),
            Event::Found(_) => Step::Continue(stage),
        },
        AcquireStage::Cloning => match event {
            Event::Exited(Ok(())) => Step::Done(Ok(())),
            Event::Exited(Err(e)) => Step::Done(Err(RepositoryError::GitClone(e))),
            Event::Found(_) => Step::Continue(stage),
        },
    }
}

/// What an acquisition meets at its path: the answer that is ready for each
/// of its requests.
pub struct Site {
    /// What is at the path.
    pub occupant: PathKind,
    /// What is at `.git` inside it.
    pub git_dir: PathKind,
    /// How `git status` would end there.
    pub status: Result<(), ShellError>,
    /// How the check for uncommitted changes would end there.
    pub changes: Result<(), ShellError>,
    /// How a clone into the path would end.
    pub cloning: Result<(), ShellError>,
}

/// The state of a path, as far as acquisition tells states apart. It is read
/// off the [`Site`] anew in every run.
pub enum RepositoryState {
    Absent,
    OccupiedByFile,
    OccupiedByCleanGitRepo,
    OccupiedByDirtyOrInvalidGitRepo,
}

impl Site {
    /// The event with which the site answers the request of `stage`.
    pub open spec fn answer(self, stage: AcquireStage) -> Event {
        match stage {
            AcquireStage::Occupant => Event::Found(self.occupant),
            AcquireStage::GitDir => Event::Found(self.git_dir),
            AcquireStage::Status => Event::Exited(self.status),
            AcquireStage::Changes => Event::Exited(self.changes),
            AcquireStage::Cloning => Event::Exited(self.cloning),
        }
    }

    /// The path holds a directory that git takes for a repository.
    pub open spec fn is_repository(self) -> bool {
        &&& self.occupant == PathKind::Directory
        &&& self.git_dir == PathKind::Directory
        &&& self.status is Ok
    }

    /// The path holds a repository in which nothing differs from `HEAD`.
    pub open spec fn is_clean_repository(self) -> bool {
        self.is_repository() && self.changes is Ok
    }

    /// The path holds a repository with changes, staged or not, that `HEAD`
    /// does not hold.
    pub open spec fn has_uncommitted_changes(self) -> bool {
        self.is_repository() && self.changes is Err
    }

    /// The state of the path.
    pub open spec fn state(self) -> RepositoryState {
        match self.occupant {
            PathKind::Absent => RepositoryState::Absent,
            PathKind::File => RepositoryState::OccupiedByFile,
            PathKind::Directory => if self.is_clean_repository() {
                RepositoryState::OccupiedByCleanGitRepo
            } else {
                RepositoryState::OccupiedByDirtyOrInvalidGitRepo
            },
        }
    }
}

/// An upper bound on the number of requests that follow the one of `stage`.
pub open spec fn stages_left(stage: AcquireStage) -> nat {
    match stage {
        AcquireStage::Occupant => 3,
        AcquireStage::GitDir => 2,
        AcquireStage::Status => 1,
        AcquireStage::Changes => 0,
        AcquireStage::Cloning => 0,
    }
}

/// The run of an acquisition from `stage` on, at a site that answers each
/// request as `site` says.
pub open spec fn acquisition_from(
    path: Seq<char>,
    url: Seq<char>,
    allow_existing: bool,
    site: Site,
    stage: AcquireStage,
) -> Record<RepositoryErrorView>
    decreases stages_left(stage),
{
    let request = acquisition_request(path, url, stage);
    match acquisition_step(path, allow_existing, stage, site.answer(stage)) {
        Step::Done(result) => Record { requests: seq![request], result },
        Step::Continue(next) => acquisition_from(path, url, allow_existing, site, next).after(
            request,
        ),
    }
}

/// The whole run of an acquisition at `site`.
pub open spec fn acquisition(
    path: Seq<char>,
    url: Seq<char>,
    allow_existing: bool,
    site: Site,
) -> Record<RepositoryErrorView> {
    acquisition_from(path, url, allow_existing, site, AcquireStage::Occupant)
}

/// Where the path holds nothing, the acquisition looks at the path, attempts
/// the clone and does nothing else: none of the checks on an existing
/// repository is made. It succeeds exactly when the clone does, and fails
/// with the clone's error otherwise.
pub proof fn law_absent_path_is_cloned_into(
    path: Seq<char>,
    url: Seq<char>,
    allow_existing: bool,
    site: Site,
)
    requires
        site.occupant == PathKind::Absent,
    ensures
        acquisition(path, url, allow_existing, site).requests == seq![
            RequestView::Inspect(path),
            RequestView::Run(clone_script(path, url)),
        ],
        acquisition(path, url, allow_existing, site).result == match site.cloning {
            Ok(()) => Ok::<(), RepositoryErrorView>(()),
            Err(e) => Err(RepositoryErrorView::GitClone(e)),
        },
{
    reveal_with_fuel(acquisition_from, 2);
    assert(acquisition(path, url, allow_existing, site).requests =~= seq![
        RequestView::Inspect(path),
        RequestView::Run(clone_script(path, url)),
    ]);
}

/// Where the path holds a regular file, the acquisition fails with
/// `PathIsFile` as soon as it has looked at the path, whether existing
/// directories are allowed or not. No script is run.
pub proof fn law_file_is_rejected(
    path: Seq<char>,
    url: Seq<char>,
    allow_existing: bool,
    site: Site,
)
    requires
        site.occupant == PathKind::File,
    ensures
        acquisition(path, url, allow_existing, site).requests == seq![RequestView::Inspect(path)],
        acquisition(path, url, allow_existing, site).result == Err::<(), RepositoryErrorView>(
            RepositoryErrorView::PathIsFile(path),
        ),
{
}

/// Where the path holds a directory and existing directories are not allowed,
/// the acquisition fails with `DirectoryAlreadyExists` as soon as it has
/// looked at the path: git is never asked about the directory.
pub proof fn law_directory_is_refused(path: Seq<char>, url: Seq<char>, site: Site)
    requires
        site.occupant == PathKind::Directory,
    ensures
        acquisition(path, url, false, site).requests == seq![RequestView::Inspect(path)],
        acquisition(path, url, false, site).result == Err::<(), RepositoryErrorView>(
            RepositoryErrorView::DirectoryAlreadyExists(path),
        ),
{
}

/// Where the path holds a clean git repository and existing directories are
/// allowed, the acquisition succeeds after its four checks, and no clone is
/// attempted.
pub proof fn law_clean_repository_is_adopted(path: Seq<char>, url: Seq<char>, site: Site)
    requires
        site.is_clean_repository(),
    ensures
        acquisition(path, url, true, site).requests == seq![
            RequestView::Inspect(path),
            RequestView::Inspect(git_dir_path(path)),
            RequestView::Run(status_script(path)),
            RequestView::Run(changes_script(path)),
        ],
        acquisition(path, url, true, site).result == Ok::<(), RepositoryErrorView>(()),
{
    reveal_with_fuel(acquisition_from, 4);
    assert(acquisition(path, url, true, site).requests =~= seq![
        RequestView::Inspect(path),
        RequestView::Inspect(git_dir_path(path)),
        RequestView::Run(status_script(path)),
        RequestView::Run(changes_script(path)),
    ]);
}

/// Where the path holds a git repository with uncommitted changes and
/// existing directories are allowed, the acquisition fails with
/// `DirtyWorkingTree`, and no clone is attempted.
pub proof fn law_dirty_repository_is_rejected(path: Seq<char>, url: Seq<char>, site: Site)
    requires
        site.has_uncommitted_changes(),
    ensures
        acquisition(path, url, true, site).requests == seq![
            RequestView::Inspect(path),
            RequestView::Inspect(git_dir_path(path)),
            RequestView::Run(status_script(path)),
            RequestView::Run(changes_script(path)),
        ],
        acquisition(path, url, true, site).result == Err::<(), RepositoryErrorView>(
            RepositoryErrorView::DirtyWorkingTree(path),
        ),
{
    reveal_with_fuel(acquisition_from, 4);
    assert(acquisition(path, url, true, site).requests =~= seq![
        RequestView::Inspect(path),
        RequestView::Inspect(git_dir_path(path)),
        RequestView::Run(status_script(path)),
        RequestView::Run(changes_script(path)),
    ]);
}

/// Where the path holds a directory that is no git repository and existing
/// directories are allowed, the acquisition fails with `InvalidGitRepo`.
/// Without a `.git` directory git is not even asked. No clone is attempted
/// and the check for uncommitted changes is not reached.
pub proof fn law_invalid_repository_is_rejected(path: Seq<char>, url: Seq<char>, site: Site)
    requires
        site.occupant == PathKind::Directory,
        !site.is_repository(),
    ensures
        acquisition(path, url, true, site).requests == if site.git_dir == PathKind::Directory {
            seq![
                RequestView::Inspect(path),
                RequestView::Inspect(git_dir_path(path)),
                RequestView::Run(status_script(path)),
            ]
        } else {
            seq![RequestView::Inspect(path), RequestView::Inspect(git_dir_path(path))]
        },
        acquisition(path, url, true, site).result == Err::<(), RepositoryErrorView>(
            RepositoryErrorView::InvalidGitRepo(path),
        ),
{
    reveal_with_fuel(acquisition_from, 3);
    if site.git_dir == PathKind::Directory {
        assert(acquisition(path, url, true, site).requests =~= seq![
            RequestView::Inspect(path),
            RequestView::Inspect(git_dir_path(path)),
            RequestView::Run(status_script(path)),
        ]);
    } else {
        assert(acquisition(path, url, true, site).requests =~= seq![
            RequestView::Inspect(path),
            RequestView::Inspect(git_dir_path(path)),
        ]);
    }
}

/// The result of an acquisition depends on the site only through the state
/// of the path and, where nothing is there, through the outcome of the clone.
/// A file is always rejected. A directory is refused where existing
/// directories are not allowed, adopted where they are and it is a clean
/// repository, and rejected as dirty or invalid otherwise.
pub proof fn law_result_follows_state(
    path: Seq<char>,
    url: Seq<char>,
    allow_existing: bool,
    site: Site,
)
    ensures
        match site.state() {
            RepositoryState::Absent => acquisition(path, url, allow_existing, site).result
                == match site.cloning {
                Ok(()) => Ok::<(), RepositoryErrorView>(()),
                Err(e) => Err(RepositoryErrorView::GitClone(e)),
            },
            RepositoryState::OccupiedByFile => acquisition(path, url, allow_existing, site).result
                == Err::<(), RepositoryErrorView>(RepositoryErrorView::PathIsFile(path)),
            RepositoryState::OccupiedByCleanGitRepo => acquisition(
                path,
                url,
                allow_existing,
                site,
            ).result == if allow_existing {
                Ok::<(), RepositoryErrorView>(())
            } else {
                Err(RepositoryErrorView::DirectoryAlreadyExists(path))
            },
            RepositoryState::OccupiedByDirtyOrInvalidGitRepo => acquisition(
                path,
                url,
                allow_existing,
                site,
            ).result == if !allow_existing {
                Err::<(), RepositoryErrorView>(RepositoryErrorView::DirectoryAlreadyExists(path))
            } else if site.has_uncommitted_changes() {
                Err(RepositoryErrorView::DirtyWorkingTree(path))
            } else {
                Err(RepositoryErrorView::InvalidGitRepo(path))
            },
        },
{
    match site.occupant {
        PathKind::Absent => law_absent_path_is_cloned_into(path, url, allow_existing, site),
        PathKind::File => law_file_is_rejected(path, url, allow_existing, site),
        PathKind::Directory => {
            if !allow_existing {
                law_directory_is_refused(path, url, site);
            } else if site.is_clean_repository() {
                law_clean_repository_is_adopted(path, url, site);
            } else if site.has_uncommitted_changes() {
                law_dirty_repository_is_rejected(path, url, site);
            } else {
                law_invalid_repository_is_rejected(path, url, site);
            }
        },
    }
}

} // verus!
