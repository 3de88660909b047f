//! The preparation of a whole vendor space.
//!
//! The root directory is made first. Then the repositories are taken in the
//! order of the configuration: each is acquired and, once that has succeeded,
//! has its branches vendored. The first failure ends the preparation:
//! repositories after the failing one are not touched, and nothing is tried
//! again.
//!
//! A [`Preparation`] is one run of this procedure. [`prepare`] starts it,
//! [`Preparation::request`] names what has to be done next, and
//! [`Preparation::advance`] takes what came of it.

use vstd::prelude::*;
use vstd::string::*;
use crate::cmd::{Command, CommandView, Script, ScriptView, ShellError};
use crate::config::{Config, ConfigError, ConfigErrorView, ConfigView};
use crate::protocol::{Event, Record, Request, RequestView, Step};
use crate::repository::{
    acquire_request,
    acquisition,
    acquisition_from,
    acquisition_request,
    acquisition_step,
    get_code,
    stages_left,
    AcquireStage,
    RepositoryError,
    RepositoryErrorView,
    Site,
};
use crate::vendoring::{
    vendor,
    vendor_request,
    vendoring,
    vendoring_from,
    vendoring_script,
    vendoring_step,
    VendorStage,
};

verus! {

/// Why a vendor space could not be prepared.
#[derive(Debug)]
pub enum VendorSpaceError {
    /// The configuration could not be resolved.
    Config(ConfigError),
    /// A script failed: the one that makes the root directory, or one of a
    /// vendoring sequence.
    Shell(ShellError),
    /// A repository could not be acquired.
    Repository(RepositoryError),
}

/// The mathematical model of a [`VendorSpaceError`].
pub enum VendorSpaceErrorView {
    Config(ConfigErrorView),
    Shell(ShellError),
    Repository(RepositoryErrorView),
}

impl View for VendorSpaceError {
    type V = VendorSpaceErrorView;

    open spec fn view(&self) -> VendorSpaceErrorView {
        match self {
            VendorSpaceError::Config(e) => VendorSpaceErrorView::Config(e@),
            VendorSpaceError::Shell(e) => VendorSpaceErrorView::Shell(*e),
            VendorSpaceError::Repository(e) => VendorSpaceErrorView::Repository(e@),
        }
    }
}

/// Where a preparation stands.
#[derive(Debug, Clone, Copy, PartialEq, Eq)]
pub enum Phase {
    /// The root directory is being made.
    Root,
    /// The repository at this place of the configuration is being acquired.
    Acquire { repo: usize, stage: AcquireStage },
    /// The branches of the repository at this place are being vendored.
    Vendor { repo: usize, stage: VendorStage },
}

/// The mathematical model of a [`Phase`].
pub enum PhaseView {
    Root,
    Acquire { repo: nat, stage: AcquireStage },
    Vendor { repo: nat, done: nat },
}

impl View for Phase {
    type V = PhaseView;

    open spec fn view(&self) -> PhaseView {
        match self {
            Phase::Root => PhaseView::Root,
            Phase::Acquire { repo, stage } => PhaseView::Acquire {
                repo: *repo as nat,
                stage: *stage,
            },
            Phase::Vendor { repo, stage } => PhaseView::Vendor { repo: *repo as nat, done: stage@ },
        }
    }
}

impl PhaseView {
    /// The phase speaks of a repository that the configuration holds.
    pub open spec fn fits(self, config: ConfigView) -> bool {
        match self {
            PhaseView::Root => true,
            PhaseView::Acquire { repo, .. } => repo < config.repos.len(),
            PhaseView::Vendor { repo, .. } => repo < config.repos.len(),
        }
    }
}

/// The mathematical model of a [`Preparation`]: the configuration that it
/// works through, and where it stands.
pub struct PreparationView {
    pub config: ConfigView,
    pub phase: PhaseView,
}

/// The directory of the repository called `name` under `root`.
pub open spec fn repository_path(root: Seq<char>, name: Seq<char>) -> Seq<char> {
    root + "/"@ + name
}

/// The script that makes the root directory, and whatever is missing above
/// it.
pub open spec fn root_script(root: Seq<char>) -> ScriptView {
    ScriptView { strict: true, commands: seq![CommandView::MakeDirs(root)] }
}

impl PreparationView {
    /// The directory of the repository at place `repo`.
    pub open spec fn path(self, repo: nat) -> Seq<char> {
        repository_path(self.config.root, self.config.repos[repo as int].name)
    }

    /// What the preparation asks for where it stands.
    pub open spec fn request(self) -> RequestView {
        match self.phase {
            PhaseView::Root => RequestView::Run(root_script(self.config.root)),
            PhaseView::Acquire { repo, stage } => acquisition_request(
                self.path(repo),
                self.config.repos[repo as int].url,
                stage,
            ),
            PhaseView::Vendor { repo, done } => RequestView::Run(
                vendoring_script(self.path(repo), self.config.repos[repo as int].branches, done),
            ),
        }
    }

    /// The same preparation at another phase.
    pub open spec fn at(self, phase: PhaseView) -> PreparationView {
        PreparationView { config: self.config, phase }
    }

    /// The preparation turns to the repository at place `repo`: it starts to
    /// acquire it, or ends with success when no repository is left.
    pub open spec fn turn_to(self, repo: nat) -> Step<PreparationView, VendorSpaceErrorView> {
        if repo < self.config.repos.len() {
            Step::Continue(self.at(PhaseView::Acquire { repo, stage: AcquireStage::Occupant }))
        } else {
            Step::Done(Ok(()))
        }
    }

    /// The decision that the preparation takes on the answer to its request.
    ///
    /// The root directory has to be made before the first repository is
    /// turned to. Within a repository the acquisition and the vendoring
    /// sequence take their own steps; the vendoring sequence starts when the
    /// acquisition has succeeded, and the next repository is turned to when
    /// the vendoring sequence has. Any failure ends the preparation.
    pub open spec fn step(self, event: Event) -> Step<PreparationView, VendorSpaceErrorView> {
        match self.phase {
            PhaseView::Root => match event {
                Event::Exited(Ok(())) => self.turn_to(0),
                Event::Exited(Err(e)) => Step::Done(Err(VendorSpaceErrorView::Shell(e))),
                Event::Found(_) => Step::Continue(self),
            },
            PhaseView::Acquire { repo, stage } => match acquisition_step(
                self.path(repo),
                self.config.repos[repo as int].allow_existing,
                stage,
                event,
            ) {
                Step::Continue(next) => Step::Continue(
                    self.at(PhaseView::Acquire { repo, stage: next }),
                ),
                Step::Done(Ok(())) => Step::Continue(self.at(PhaseView::Vendor { repo, done: 0 })),
                Step::Done(Err(e)) => Step::Done(Err(VendorSpaceErrorView::Repository(e))),
            },
            PhaseView::Vendor { repo, done } => match vendoring_step(
                self.config.repos[repo as int].branches.len(),
                done,
                event,
            ) {
                Step::Continue(next) => Step::Continue(
                    self.at(PhaseView::Vendor { repo, done: next }),
                ),
                Step::Done(Ok(())) => self.turn_to(repo + 1),
                Step::Done(Err(e)) => Step::Done(Err(VendorSpaceErrorView::Shell(e))),
            },
        }
    }
}

/// One preparation of a vendor space, from the making of the root directory
/// to the last repository's last script.
#[derive(Debug)]
pub struct Preparation {
    config: Config,
    phase: Phase,
}

impl View for Preparation {
    type V = PreparationView;

    closed spec fn view(&self) -> PreparationView {
        PreparationView { config: self.config@, phase: self.phase@ }
    }
}

/// Writes the path of the directory of the repository called `name` under
/// `root`.
fn repository_dir(root: &str, name: &str) -> (path: String)
    ensures
        path@ == repository_path(root@, name@),
{
    String::from_str(root).concat("/").concat(name)
}

/// Starts the preparation of the vendor space that `config` describes. What
/// it asks for first is that the root directory be made.
pub fn prepare(config: Config) -> (preparation: Preparation)
    requires
        config@.well_formed(),
    ensures
        preparation@ == (PreparationView { config: config@, phase: PhaseView::Root }),
{
    Preparation { config, phase: Phase::Root }
}

impl Preparation {
    #[verifier::type_invariant]
    spec fn sound(self) -> bool {
        self.config@.well_formed() && self.phase@.fits(self.config@)
    }

    /// The configuration that is worked through.
    pub fn config(&self) -> (config: &Config)
        ensures
            config@ == self@.config,
            self@.config.well_formed(),
    {
        proof {
            use_type_invariant(self);
        }
        &self.config
    }

    /// Where the preparation stands.
    pub fn phase(&self) -> (phase: Phase)
        ensures
            phase@ == self@.phase,
            self@.phase.fits(self@.config),
    {
        proof {
            use_type_invariant(self);
        }
        self.phase
    }

    /// Names what has to be done next.
    pub fn request(&self) -> (request: Request)
        ensures
            request@ == self@.request(),
    {
        proof {
            use_type_invariant(self);
        }
        match self.phase {
            Phase::Root => {
                let script = Script::new(true).with(Command::MakeDirs(self.config.root.clone()));
                assert(script@.commands =~= root_script(self.config.root@).commands);
                Request::Run(script)
            },
            Phase::Acquire { repo, stage } => {
                let entry = &self.config.repos[repo];
                assert(entry@ == self@.config.repos[repo as int]);
                let path = repository_dir(self.config.root.as_str(), entry.name.as_str());
                acquire_request(path.as_str(), entry.url.as_str(), stage)
            },
            Phase::Vendor { repo, stage } => {
                let entry = &self.config.repos[repo];
                assert(entry@ == self@.config.repos[repo as int]);
                assert(entry@.well_formed());
                let path = repository_dir(self.config.root.as_str(), entry.name.as_str());
                vendor_request(path.as_str(), entry.branches.as_slice(), stage)
            },
        }
    }

    /// The preparation turns to the repository at place `repo`.
    fn turn_to(self, repo: usize) -> (step: Step<Preparation, VendorSpaceError>)
        ensures
            step@ == self@.turn_to(repo as nat),
    {
        proof {
            use_type_invariant(&self);
        }
        let config = self.config;
        if repo < config.repos.len() {
            Step::Continue(
                Preparation {
                    config,
                    phase: Phase::Acquire { repo, stage: AcquireStage::Occupant },
                },
            )
        } else {
            Step::Done(Ok(()))
        }
    }

    /// Takes the answer to the request and decides how the preparation goes
    /// on.
    pub fn advance(self, event: Event) -> (step: Step<Preparation, VendorSpaceError>)
        ensures
            step@ == self@.step(event),
    {
        proof {
            use_type_invariant(&self);
        }
        match self.phase {
            Phase::Root => match event {
                Event::Exited(Ok(())) => self.turn_to(0),
                Event::Exited(Err(e)) => Step::Done(Err(VendorSpaceError::Shell(e))),
                Event::Found(_) => Step::Continue(self),
            },
            Phase::Acquire { repo, stage } => {
                let entry = &self.config.repos[repo];
                assert(entry@ == self@.config.repos[repo as int]);
                let path = repository_dir(self.config.root.as_str(), entry.name.as_str());
                match get_code(path.as_str(), entry.allow_existing, stage, event) {
                    Step::Continue(stage) => Step::Continue(
                        Preparation { config: self.config, phase: Phase::Acquire { repo, stage } },
                    ),
                    Step::Done(Ok(())) => Step::Continue(
                        Preparation {
                            config: self.config,
                            phase: Phase::Vendor { repo, stage: VendorStage { done: 0 } },
                        },
                    ),
                    Step::Done(Err(e)) => Step::Done(Err(VendorSpaceError::Repository(e))),
                }
            },
            Phase::Vendor { repo, stage } => {
                let entry = &self.config.repos[repo];
                assert(entry@ == self@.config.repos[repo as int]);
                assert(repo < self.config.repos.len());
                assert(entry@.well_formed());
                match vendor(entry.branches.as_slice(), stage, event) {
                    Step::Continue(stage) => Step::Continue(
                        Preparation { config: self.config, phase: Phase::Vendor { repo, stage } },
                    ),
                    Step::Done(Ok(())) => self.turn_to(repo + 1),
                    Step::Done(Err(e)) => Step::Done(Err(VendorSpaceError::Shell(e))),
                }
            },
        }
    }
}

/// What a preparation meets: how the making of the root directory ends, what
/// the acquisition of the repository at each place finds, and how each script
/// of its vendoring sequence ends.
pub struct World {
    pub root: Result<(), ShellError>,
    pub sites: spec_fn(nat) -> Site,
    pub outcomes: spec_fn(nat) -> spec_fn(nat) -> Result<(), ShellError>,
}

impl World {
    /// The event with which the world answers the request of `phase`.
    pub open spec fn answer(self, phase: PhaseView) -> Event {
        match phase {
            PhaseView::Root => Event::Exited(self.root),
            PhaseView::Acquire { repo, stage } => (self.sites)(repo).answer(stage),
            PhaseView::Vendor { repo, done } => Event::Exited((self.outcomes)(repo)(done)),
        }
    }
}

impl PreparationView {
    /// The repositories that the preparation has not finished, counting one
    /// more while the root directory is not made.
    pub open spec fn repos_left(self) -> nat {
        match self.phase {
            PhaseView::Root => self.config.repos.len() + 1,
            PhaseView::Acquire { repo, .. } | PhaseView::Vendor { repo, .. } => if repo
                < self.config.repos.len() {
                (self.config.repos.len() - repo) as nat
            } else {
                0
            },
        }
    }

    /// The procedures that the repository at hand has not finished.
    pub open spec fn procedures_left(self) -> nat {
        match self.phase {
            PhaseView::Acquire { .. } => 1,
            _ => 0,
        }
    }

    /// An upper bound on the requests that the procedure at hand makes after
    /// this one.
    pub open spec fn requests_left(self) -> nat {
        match self.phase {
            PhaseView::Root => 0,
            PhaseView::Acquire { stage, .. } => stages_left(stage),
            PhaseView::Vendor { repo, done } => if done
                < self.config.repos[repo as int].branches.len() {
                (self.config.repos[repo as int].branches.len() - done) as nat
            } else {
                0
            },
        }
    }

    /// The run of the preparation from where it stands, in a world that
    /// answers each request as `world` says.
    pub open spec fn run(self, world: World) -> Record<VendorSpaceErrorView>
        decreases self.repos_left(), self.procedures_left(), self.requests_left(),
    {
        match self.step(world.answer(self.phase)) {
            Step::Done(result) => Record { requests: seq![self.request()], result },
            Step::Continue(next) => next.run(world).after(self.request()),
        }
    }
}

/// What a configuration asks of one repository: its acquisition and then, if
/// that succeeded, its vendoring sequence.
pub open spec fn repository_record(config: ConfigView, world: World, repo: nat) -> Record<
    VendorSpaceErrorView,
> {
    let entry = config.repos[repo as int];
    let path = repository_path(config.root, entry.name);
    let acquired = acquisition(path, entry.url, entry.allow_existing, (world.sites)(repo));
    match acquired.result {
        Err(e) => Record {
            requests: acquired.requests,
            result: Err(VendorSpaceErrorView::Repository(e)),
        },
        Ok(_) => {
            let vendored = vendoring(path, entry.branches, (world.outcomes)(repo));
            Record {
                requests: acquired.requests + vendored.requests,
                result: match vendored.result {
                    Ok(_) => Ok(()),
                    Err(e) => Err(VendorSpaceErrorView::Shell(e)),
                },
            }
        },
    }
}

/// What a configuration asks of its repositories from place `from` on: each
/// in its turn, up to the first that fails.
pub open spec fn repositories_record(config: ConfigView, world: World, from: nat) -> Record<
    VendorSpaceErrorView,
>
    decreases config.repos.len() - from,
{
    if from >= config.repos.len() {
        Record { requests: Seq::empty(), result: Ok(()) }
    } else {
        let first = repository_record(config, world, from);
        match first.result {
            Err(_) => first,
            Ok(_) => {
                let rest = repositories_record(config, world, from + 1);
                Record { requests: first.requests + rest.requests, result: rest.result }
            },
        }
    }
}

/// What a configuration asks for as a whole: the root directory, and then its
/// repositories.
pub open spec fn space_record(config: ConfigView, world: World) -> Record<VendorSpaceErrorView> {
    let request = RequestView::Run(root_script(config.root));
    match world.root {
        Err(e) => Record { requests: seq![request], result: Err(VendorSpaceErrorView::Shell(e)) },
        Ok(_) => repositories_record(config, world, 0).after(request),
    }
}

/// The vendoring sequence of the repository at place `repo`, from stage `done`
/// on, and then the repositories after it.
spec fn vendoring_and_rest(config: ConfigView, world: World, repo: nat, done: nat) -> Record<
    VendorSpaceErrorView,
> {
    let entry = config.repos[repo as int];
    let path = repository_path(config.root, entry.name);
    let vendored = vendoring_from(path, entry.branches, (world.outcomes)(repo), done);
    match vendored.result {
        Err(e) => Record { requests: vendored.requests, result: Err(VendorSpaceErrorView::Shell(e)) },
        Ok(_) => {
            let rest = repositories_record(config, world, repo + 1);
            Record { requests: vendored.requests + rest.requests, result: rest.result }
        },
    }
}

/// The acquisition of the repository at place `repo`, from `stage` on, then
/// its vendoring sequence, and then the repositories after it.
spec fn acquisition_and_rest(
    config: ConfigView,
    world: World,
    repo: nat,
    stage: AcquireStage,
) -> Record<VendorSpaceErrorView> {
    let entry = config.repos[repo as int];
    let path = repository_path(config.root, entry.name);
    let acquired = acquisition_from(
        path,
        entry.url,
        entry.allow_existing,
        (world.sites)(repo),
        stage,
    );
    match acquired.result {
        Err(e) => Record {
            requests: acquired.requests,
            result: Err(VendorSpaceErrorView::Repository(e)),
        },
        Ok(_) => {
            let rest = vendoring_and_rest(config, world, repo, 0);
            Record { requests: acquired.requests + rest.requests, result: rest.result }
        },
    }
}

/// What is left of a preparation that stands inside a repository.
spec fn rest_of(p: PreparationView, world: World) -> Record<VendorSpaceErrorView> {
    match p.phase {
        PhaseView::Root => space_record(p.config, world),
        PhaseView::Acquire { repo, stage } => acquisition_and_rest(p.config, world, repo, stage),
        PhaseView::Vendor { repo, done } => vendoring_and_rest(p.config, world, repo, done),
    }
}

/// A repository's record is its acquisition and what follows it.
proof fn lemma_repositories_record_unfolds(config: ConfigView, world: World, repo: nat)
    requires
        repo < config.repos.len(),
    ensures
        repositories_record(config, world, repo).requests == acquisition_and_rest(
            config,
            world,
            repo,
            AcquireStage::Occupant,
        ).requests,
        repositories_record(config, world, repo).result == acquisition_and_rest(
            config,
            world,
            repo,
            AcquireStage::Occupant,
        ).result,
{
    assert(repositories_record(config, world, repo).requests =~= acquisition_and_rest(
        config,
        world,
        repo,
        AcquireStage::Occupant,
    ).requests);
}

/// From any phase on, the run of a preparation is what is left of its
/// composition.
proof fn lemma_run_is_rest(p: PreparationView, world: World)
    requires
        p.phase.fits(p.config),
    ensures
        p.run(world).requests == rest_of(p, world).requests,
        p.run(world).result == rest_of(p, world).result,
    decreases p.repos_left(), p.procedures_left(), p.requests_left(),
{
    match p.step(world.answer(p.phase)) {
        Step::Done(_) => {},
        Step::Continue(next) => {
            lemma_run_is_rest(next, world);
            match next.phase {
                PhaseView::Acquire { repo, .. } => if p.phase !is Acquire {
                    lemma_repositories_record_unfolds(p.config, world, repo);
                },
                _ => {},
            }
        },
    }
    assert(p.run(world).requests =~= rest_of(p, world).requests);
}

/// A preparation is the composition of its parts. It asks for the root
/// directory first and ends at once if that cannot be made. Then it takes the
/// repositories in the order of the configuration: the whole acquisition of a
/// repository, then, only if that succeeded, its whole vendoring sequence,
/// and only if that succeeded too, the next repository. The first failure is
/// the result; without one the preparation succeeds.
pub proof fn law_preparation_composes(config: ConfigView, world: World)
    ensures
        (PreparationView { config, phase: PhaseView::Root }).run(world).requests == space_record(
            config,
            world,
        ).requests,
        (PreparationView { config, phase: PhaseView::Root }).run(world).result == space_record(
            config,
            world,
        ).result,
{
    lemma_run_is_rest(PreparationView { config, phase: PhaseView::Root }, world);
}

} // verus!
