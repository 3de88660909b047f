//! The branch vendoring sequence of one repository.
//!
//! Given a working directory and a list of branches, the first of which is
//! the primary branch, the sequence runs one script for each branch, in the
//! order of the list, and then one more that checks the primary branch out
//! again. The primary branch is vendored in full and its manifest becomes the
//! active configuration; every other branch is vendored on top of what is
//! there. A script that fails ends the sequence with its error, and nothing
//! more is run: the repository then stays on the branch that it was on.
//!
//! [`vendor`] is the step function of the sequence and [`vendor_request`]
//! names the script of each stage.

use vstd::prelude::*;
use vstd::string::*;
use crate::cmd::{Command, CommandView, Script, ScriptView, ShellError};
use crate::protocol::{Event, Record, Request, RequestView, Step};

verus! {

/// Where a vendoring sequence stands: the number of its scripts that have run
/// to a successful end. Every sequence starts with none done.
#[derive(Debug, Clone, Copy, PartialEq, Eq, Structural)]
pub struct VendorStage {
    pub done: usize,
}

impl View for VendorStage {
    type V = nat;

    open spec fn view(&self) -> nat {
        self.done as nat
    }
}

/// The directory, inside the repository, that holds the manifests.
pub open spec fn artifact_dir() -> Seq<char> {
    ".cargo"@
}

/// The file that holds the manifest of `branch`.
pub open spec fn manifest_path(branch: Seq<char>) -> Seq<char> {
    ".cargo/"@ + branch + ".config"@
}

/// The file that holds the active configuration: a copy of the manifest of
/// the primary branch.
pub open spec fn active_config_path() -> Seq<char> {
    ".cargo/config.toml"@
}

/// The script of the primary branch: makes sure that the artifact directory
/// is there, brings the branch up to date, vendors it in full and makes its
/// manifest the active configuration.
pub open spec fn primary_script(path: Seq<char>, branch: Seq<char>) -> ScriptView {
    ScriptView {
        strict: true,
        commands: seq![
            CommandView::ChangeDir(path),
            CommandView::MakeDirs(artifact_dir()),
            CommandView::GitCheckout(branch),
            CommandView::GitPull,
            CommandView::CargoVendor { keep: false, manifest: manifest_path(branch) },
            CommandView::Copy { from: manifest_path(branch), to: active_config_path() },
        ],
    }
}

/// The script of a branch after the first: brings the branch up to date and
/// vendors it without deleting what earlier branches have vendored.
pub open spec fn secondary_script(path: Seq<char>, branch: Seq<char>) -> ScriptView {
    ScriptView {
        strict: true,
        commands: seq![
            CommandView::ChangeDir(path),
            CommandView::GitCheckout(branch),
            CommandView::GitPull,
            CommandView::CargoVendor { keep: true, manifest: manifest_path(branch) },
        ],
    }
}

/// The last script: checks the primary branch out again.
pub open spec fn restore_script(path: Seq<char>, branch: Seq<char>) -> ScriptView {
    ScriptView {
        strict: true,
        commands: seq![CommandView::ChangeDir(path), CommandView::GitCheckout(branch)],
    }
}

/// The script that the sequence runs at stage `done`: that of the branch at
/// this place of the list, or, when every branch has had its script, the
/// last one.
pub open spec fn vendoring_script(
    path: Seq<char>,
    branches: Seq<Seq<char>>,
    done: nat,
) -> ScriptView {
    if done == 0 {
        primary_script(path, branches[0])
    } else if done < branches.len() {
        secondary_script(path, branches[done as int])
    } else {
        restore_script(path, branches[0])
    }
}

/// The decision of the sequence over `count` branches at stage `done`. A
/// script that succeeded moves the sequence on by one stage, or ends it when
/// it was the last script. A script that failed ends the sequence with its
/// error. Any other event changes nothing.
pub open spec fn vendoring_step(count: nat, done: nat, event: Event) -> Step<nat, ShellError> {
    match event {
        Event::Exited(Ok(())) => if done < count {
            Step::Continue(done + 1)
        } else {
            Step::Done(Ok(()))
        },
        Event::Exited(Err(e)) => Step::Done(Err(e)),
        Event::Found(_) => Step::Continue(done),
    }
}

/// Writes the path of the file that holds the manifest of `branch`.
fn manifest_file(branch: &str) -> (file: String)
    ensures
        file@ == manifest_path(branch@),
{
    String::from_str(".cargo/").concat(branch).concat(".config")
}

/// Names the script to run at `stage` of the vendoring sequence of the
/// repository at `path`.
pub fn vendor_request(path: &str, branches: &[String], stage: VendorStage) -> (request: Request)
    requires
        branches.len() > 0,
    ensures
        request@ == RequestView::Run(vendoring_script(path@, branches.deep_view(), stage@)),
{
    let done = stage.done;
    let enter = Command::ChangeDir(String::from_str(path));
    if done == 0 {
        let branch = branches[0].as_str();
        let script = Script::new(true).with(enter).with(
            Command::MakeDirs(String::from_str(".cargo")),
        ).with(Command::GitCheckout(String::from_str(branch))).with(Command::GitPull).with(
            Command::CargoVendor { keep: false, manifest: manifest_file(branch) },
        ).with(
            Command::Copy {
                from: manifest_file(branch),
                to: String::from_str(".cargo/config.toml"),
            },
        );
        assert(script@.commands =~= primary_script(path@, branches.deep_view()[0]).commands);
        Request::Run(script)
    } else if done < branches.len() {
        let branch = branches[done].as_str();
        let script = Script::new(true).with(enter).with(
            Command::GitCheckout(String::from_str(branch)),
        ).with(Command::GitPull).with(
            Command::CargoVendor { keep: true, manifest: manifest_file(branch) },
        );
        assert(script@.commands =~= secondary_script(
            path@,
            branches.deep_view()[done as int],
        ).commands);
        Request::Run(script)
    } else {
        let branch = branches[0].as_str();
        let script = Script::new(true).with(enter).with(
            Command::GitCheckout(String::from_str(branch)),
        );
        assert(script@.commands =~= restore_script(path@, branches.deep_view()[0]).commands);
        Request::Run(script)
    }
}

/// One step of the vendoring sequence over `branches`, of which there is at
/// least one: takes the answer to the script of `stage` and decides how the
/// sequence goes on.
pub fn vendor(branches: &[String], stage: VendorStage, event: Event) -> (step: Step<
    VendorStage,
    ShellError,
>)
    requires
        branches.len() > 0,
    ensures
        step@ == vendoring_step(branches@.len(), stage@, event),
{
    match event {
        Event::Exited(Ok(())) => {
            if stage.done < branches.len() {
                Step::Continue(VendorStage { done: stage.done + 1 })
            } else {
                Step::Done(Ok(()))
            }
        },
        Event::Exited(Err(e)) => Step::Done(Err(e)),
        Event::Found(_) => Step::Continue(stage),
    }
}

/// The run of a vendoring sequence from stage `done` on, where the script of
/// stage `k` ends as `outcomes(k)` says.
pub open spec fn vendoring_from(
    path: Seq<char>,
    branches: Seq<Seq<char>>,
    outcomes: spec_fn(nat) -> Result<(), ShellError>,
    done: nat,
) -> Record<ShellError>
    decreases branches.len() - done,
{
    let request = RequestView::Run(vendoring_script(path, branches, done));
    match vendoring_step(branches.len(), done, Event::Exited(outcomes(done))) {
        Step::Done(result) => Record { requests: seq![request], result },
        Step::Continue(next) => vendoring_from(path, branches, outcomes, next).after(request),
    }
}

/// The whole run of a vendoring sequence.
pub open spec fn vendoring(
    path: Seq<char>,
    branches: Seq<Seq<char>>,
    outcomes: spec_fn(nat) -> Result<(), ShellError>,
) -> Record<ShellError> {
    vendoring_from(path, branches, outcomes, 0)
}

/// The requests of a sequence in which no script fails: the script of each
/// branch, in the order of the list, and then the last script.
pub open spec fn vendoring_plan(path: Seq<char>, branches: Seq<Seq<char>>) -> Seq<RequestView> {
    Seq::new(
        branches.len() + 1,
        |k: int| RequestView::Run(vendoring_script(path, branches, k as nat)),
    )
}

/// The branches that the commands check out, in order.
pub open spec fn command_checkouts(commands: Seq<CommandView>) -> Seq<Seq<char>>
    decreases commands.len(),
{
    if commands.len() == 0 {
        Seq::empty()
    } else {
        command_checkouts(commands.drop_last()) + match commands.last() {
            CommandView::GitCheckout(branch) => seq![branch],
            _ => Seq::empty(),
        }
    }
}

/// The branches that the scripts among the requests check out, in order.
pub open spec fn checkouts(requests: Seq<RequestView>) -> Seq<Seq<char>>
    decreases requests.len(),
{
    if requests.len() == 0 {
        Seq::empty()
    } else {
        checkouts(requests.drop_last()) + match requests.last() {
            RequestView::Run(script) => command_checkouts(script.commands),
            RequestView::Inspect(_) => Seq::empty(),
        }
    }
}

/// Each script of a vendoring sequence checks out one branch: the script of
/// a branch that branch, the last script the primary branch.
proof fn lemma_script_checks_out_its_branch(path: Seq<char>, branches: Seq<Seq<char>>, done: nat)
    ensures
        command_checkouts(vendoring_script(path, branches, done).commands) == seq![
            if 0 < done < branches.len() {
                branches[done as int]
            } else {
                branches[0]
            },
        ],
{
    reveal_with_fuel(command_checkouts, 7);
    let commands = vendoring_script(path, branches, done).commands;
    if done == 0 {
        assert(command_checkouts(commands) =~= seq![branches[0]]);
    } else if done < branches.len() {
        assert(command_checkouts(commands) =~= seq![branches[done as int]]);
    } else {
        assert(command_checkouts(commands) =~= seq![branches[0]]);
    }
}

/// The first `k` scripts of the plan check out the first `k` branches.
proof fn lemma_plan_prefix_checkouts(path: Seq<char>, branches: Seq<Seq<char>>, k: nat)
    requires
        0 < branches.len(),
        k <= branches.len(),
    ensures
        checkouts(vendoring_plan(path, branches).take(k as int)) == branches.take(k as int),
    decreases k,
{
    let plan = vendoring_plan(path, branches);
    if k == 0 {
        assert(checkouts(plan.take(0)) =~= branches.take(0));
    } else {
        let before = (k - 1) as nat;
        lemma_plan_prefix_checkouts(path, branches, before);
        lemma_script_checks_out_its_branch(path, branches, before);
        assert(plan.take(k as int).drop_last() =~= plan.take(before as int));
        assert(plan.take(k as int).last() == plan[before as int]);
        assert(branches.take(before as int) + seq![branches[before as int]] =~= branches.take(
            k as int,
        ));
    }
}

/// From stage `done` on, a sequence in which the script of stage `end` is the
/// first that does not let the sequence go on makes the requests of the plan
/// from `done` up to `end`, and ends as the step at `end` says.
proof fn lemma_vendoring_runs_up_to(
    path: Seq<char>,
    branches: Seq<Seq<char>>,
    outcomes: spec_fn(nat) -> Result<(), ShellError>,
    done: nat,
    end: nat,
)
    requires
        done <= end <= branches.len(),
        forall|k: nat| done <= k < end ==> (#[trigger] outcomes(k)) is Ok,
        end < branches.len() ==> outcomes(end) is Err,
    ensures
        vendoring_from(path, branches, outcomes, done).requests == vendoring_plan(
            path,
            branches,
        ).subrange(done as int, end as int + 1),
        vendoring_from(path, branches, outcomes, done).result == match outcomes(end) {
            Ok(_) => Ok::<(), ShellError>(()),
            Err(e) => Err(e),
        },
    decreases end - done,
{
    let plan = vendoring_plan(path, branches);
    let run = vendoring_from(path, branches, outcomes, done);
    if done == end {
        assert(run.requests =~= plan.subrange(done as int, end as int + 1));
    } else {
        lemma_vendoring_runs_up_to(path, branches, outcomes, done + 1, end);
        assert(run.requests =~= plan.subrange(done as int, end as int + 1));
    }
}

/// Where no script fails, the sequence runs the script of every branch, in
/// the order of the list, then the last script, and succeeds.
pub proof fn law_sequence_runs_every_branch(
    path: Seq<char>,
    branches: Seq<Seq<char>>,
    outcomes: spec_fn(nat) -> Result<(), ShellError>,
)
    requires
        0 < branches.len(),
        forall|k: nat| k <= branches.len() ==> (#[trigger] outcomes(k)) is Ok,
    ensures
        vendoring(path, branches, outcomes).requests == vendoring_plan(path, branches),
        vendoring(path, branches, outcomes).result == Ok::<(), ShellError>(()),
{
    let plan = vendoring_plan(path, branches);
    lemma_vendoring_runs_up_to(path, branches, outcomes, 0, branches.len());
    assert(plan.subrange(0, branches.len() as int + 1) =~= plan);
}

/// Where the script of stage `failed` is the first to fail, and fails with
/// `error`, the sequence ends with that error as soon as the script has run: the branches after it are
/// not attempted, and the last script, which would check the primary branch
/// out again, is not run either, unless it is itself the one that failed.
pub proof fn law_failure_ends_sequence(
    path: Seq<char>,
    branches: Seq<Seq<char>>,
    outcomes: spec_fn(nat) -> Result<(), ShellError>,
    failed: nat,
    error: ShellError,
)
    requires
        0 < branches.len(),
        failed <= branches.len(),
        forall|k: nat| k < failed ==> (#[trigger] outcomes(k)) is Ok,
        outcomes(failed) == Err::<(), ShellError>(error),
    ensures
        vendoring(path, branches, outcomes).requests == vendoring_plan(path, branches).take(
            failed as int + 1,
        ),
        vendoring(path, branches, outcomes).result == Err::<(), ShellError>(error),
{
    lemma_vendoring_runs_up_to(path, branches, outcomes, 0, failed);
}

/// The checkouts of a sequence in which no script fails are those of the
/// branches in the order of the list, followed by one more of the primary
/// branch: the primary branch is checked out first and last.
pub proof fn law_checkouts_follow_branch_order(
    path: Seq<char>,
    branches: Seq<Seq<char>>,
    outcomes: spec_fn(nat) -> Result<(), ShellError>,
)
    requires
        0 < branches.len(),
        forall|k: nat| k <= branches.len() ==> (#[trigger] outcomes(k)) is Ok,
    ensures
        checkouts(vendoring(path, branches, outcomes).requests) == branches.push(branches[0]),
{
    let plan = vendoring_plan(path, branches);
    let count = branches.len();
    law_sequence_runs_every_branch(path, branches, outcomes);
    lemma_plan_prefix_checkouts(path, branches, count);
    lemma_script_checks_out_its_branch(path, branches, count);
    assert(plan.drop_last() =~= plan.take(count as int));
    assert(branches.take(count as int) =~= branches);
    assert(branches + seq![branches[0]] =~= branches.push(branches[0]));
}

/// Two runs of the sequence over the same path and branches, in each of
/// which every script succeeds, make the same requests in the same order,
/// and the last thing that either does is to check out the primary branch.
pub proof fn law_rerun_repeats_sequence(
    path: Seq<char>,
    branches: Seq<Seq<char>>,
    first: spec_fn(nat) -> Result<(), ShellError>,
    second: spec_fn(nat) -> Result<(), ShellError>,
)
    requires
        0 < branches.len(),
        forall|k: nat| k <= branches.len() ==> (#[trigger] first(k)) is Ok,
        forall|k: nat| k <= branches.len() ==> (#[trigger] second(k)) is Ok,
    ensures
        vendoring(path, branches, first).requests == vendoring(path, branches, second).requests,
        vendoring(path, branches, first).result == vendoring(path, branches, second).result,
        vendoring(path, branches, second).requests.last() == RequestView::Run(
            restore_script(path, branches[0]),
        ),
        checkouts(vendoring(path, branches, second).requests).last() == branches[0],
{
    law_sequence_runs_every_branch(path, branches, first);
    law_sequence_runs_every_branch(path, branches, second);
    law_checkouts_follow_branch_order(path, branches, second);
}

} // verus!
