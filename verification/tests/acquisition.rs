use vendor_space::{
    acquire_request, get_code, AcquireStage, Command, Event, PathKind, RepositoryError, Request,
    Script, ShellError, Step,
};

const PATH: &str = "root/foo";
const URL: &str = "https://x/foo.git";

/// What the acquisition meets at its path.
struct Site {
    occupant: PathKind,
    git_dir: PathKind,
    status: Option<i32>,
    changes: Option<i32>,
    cloning: Option<i32>,
}

fn exited(code: Option<i32>) -> Event {
    Event::Exited(match code {
        None => Ok(()),
        Some(code) => Err(ShellError::BadExitCode(Some(code))),
    })
}

fn answer(site: &Site, stage: AcquireStage) -> Event {
    match stage {
        AcquireStage::Occupant => Event::Found(site.occupant),
        AcquireStage::GitDir => Event::Found(site.git_dir),
        AcquireStage::Status => exited(site.status),
        AcquireStage::Changes => exited(site.changes),
        AcquireStage::Cloning => exited(site.cloning),
    }
}

/// Runs an acquisition to its end, and gives the requests it made and its
/// result.
fn acquire(allow_existing: bool, site: &Site) -> (Vec<Request>, Result<(), RepositoryError>) {
    let mut requests = Vec::new();
    let mut stage = AcquireStage::Occupant;
    loop {
        assert!(requests.len() < 10, "the acquisition does not end");
        requests.push(acquire_request(PATH, URL, stage));
        match get_code(PATH, allow_existing, stage, answer(site, stage)) {
            Step::Continue(next) => stage = next,
            Step::Done(result) => return (requests, result),
        }
    }
}

fn strict(commands: Vec<Command>) -> Request {
    Request::Run(Script { strict: true, commands })
}

fn inspect_path() -> Request {
    Request::Inspect(PATH.to_string())
}

fn inspect_git_dir() -> Request {
    Request::Inspect("root/foo/.git".to_string())
}

fn run_status() -> Request {
    strict(vec![Command::ChangeDir(PATH.to_string()), Command::GitStatus])
}

fn run_changes() -> Request {
    strict(vec![Command::ChangeDir(PATH.to_string()), Command::GitDiffIndex])
}

fn run_clone() -> Request {
    strict(vec![Command::GitClone { url: URL.to_string(), path: PATH.to_string() }])
}

fn clean_repository() -> Site {
    Site {
        occupant: PathKind::Directory,
        git_dir: PathKind::Directory,
        status: None,
        changes: None,
        cloning: Some(128),
    }
}

#[test]
fn requests_of_each_stage() {
    assert_eq!(acquire_request(PATH, URL, AcquireStage::Occupant), inspect_path());
    assert_eq!(acquire_request(PATH, URL, AcquireStage::GitDir), inspect_git_dir());
    assert_eq!(acquire_request(PATH, URL, AcquireStage::Status), run_status());
    assert_eq!(acquire_request(PATH, URL, AcquireStage::Changes), run_changes());
    assert_eq!(acquire_request(PATH, URL, AcquireStage::Cloning), run_clone());
}

#[test]
fn scripts_of_the_acquisition_as_text() {
    let text = |request: Request| match request {
        Request::Run(script) => script.render(),
        Request::Inspect(path) => panic!("no script: {}", path),
    };
    assert_eq!(text(run_status()), "set -euxo pipefail\ncd 'root/foo'\ngit status\n");
    assert_eq!(
        text(run_changes()),
        "set -euxo pipefail\ncd 'root/foo'\ngit diff-index --quiet HEAD --\n"
    );
    assert_eq!(
        text(run_clone()),
        "set -euxo pipefail\ngit clone 'https://x/foo.git' 'root/foo'\n"
    );
}

#[test]
fn absent_path_is_cloned_into() {
    for allow_existing in [false, true] {
        let site = Site {
            occupant: PathKind::Absent,
            git_dir: PathKind::Directory,
            status: None,
            changes: None,
            cloning: None,
        };
        let (requests, result) = acquire(allow_existing, &site);
        assert_eq!(requests, vec![inspect_path(), run_clone()]);
        assert!(matches!(result, Ok(())));
    }
}

#[test]
fn failed_clone_is_reported_with_its_error() {
    let site = Site {
        occupant: PathKind::Absent,
        git_dir: PathKind::Absent,
        status: None,
        changes: None,
        cloning: Some(128),
    };
    let (requests, result) = acquire(false, &site);
    assert_eq!(requests, vec![inspect_path(), run_clone()]);
    assert!(matches!(
        result,
        Err(RepositoryError::GitClone(ShellError::BadExitCode(Some(128))))
    ));
}

#[test]
fn clone_that_could_not_start_is_reported() {
    let error = std::io::Error::new(std::io::ErrorKind::NotFound, "no shell");
    let step = get_code(
        PATH,
        false,
        AcquireStage::Cloning,
        Event::Exited(Err(ShellError::IoError(error))),
    );
    match step {
        Step::Done(Err(RepositoryError::GitClone(ShellError::IoError(e)))) => {
            assert_eq!(e.kind(), std::io::ErrorKind::NotFound);
        }
        other => panic!("unexpected step: {:?}", other),
    }
}

#[test]
fn file_is_rejected_whatever_the_policy() {
    for allow_existing in [false, true] {
        let site = Site {
            occupant: PathKind::File,
            git_dir: PathKind::Directory,
            status: None,
            changes: None,
            cloning: None,
        };
        let (requests, result) = acquire(allow_existing, &site);
        assert_eq!(requests, vec![inspect_path()]);
        match result {
            Err(RepositoryError::PathIsFile(path)) => assert_eq!(path, PATH),
            other => panic!("unexpected result: {:?}", other),
        }
    }
}

#[test]
fn directory_is_refused_without_asking_git() {
    let (requests, result) = acquire(false, &clean_repository());
    assert_eq!(requests, vec![inspect_path()]);
    match result {
        Err(RepositoryError::DirectoryAlreadyExists(path)) => assert_eq!(path, PATH),
        other => panic!("unexpected result: {:?}", other),
    }
}

#[test]
fn clean_repository_is_adopted_without_clone() {
    let (requests, result) = acquire(true, &clean_repository());
    assert_eq!(requests, vec![inspect_path(), inspect_git_dir(), run_status(), run_changes()]);
    assert!(!requests.contains(&run_clone()));
    assert!(matches!(result, Ok(())));
}

#[test]
fn dirty_repository_is_rejected() {
    let site = Site { changes: Some(1), ..clean_repository() };
    let (requests, result) = acquire(true, &site);
    assert_eq!(requests, vec![inspect_path(), inspect_git_dir(), run_status(), run_changes()]);
    match result {
        Err(RepositoryError::DirtyWorkingTree(path)) => assert_eq!(path, PATH),
        other => panic!("unexpected result: {:?}", other),
    }
}

#[test]
fn directory_without_git_dir_is_invalid() {
    for git_dir in [PathKind::Absent, PathKind::File] {
        let site = Site { git_dir, ..clean_repository() };
        let (requests, result) = acquire(true, &site);
        assert_eq!(requests, vec![inspect_path(), inspect_git_dir()]);
        match result {
            Err(RepositoryError::InvalidGitRepo(path)) => assert_eq!(path, PATH),
            other => panic!("unexpected result: {:?}", other),
        }
    }
}

#[test]
fn directory_that_git_rejects_is_invalid() {
    let site = Site { status: Some(128), ..clean_repository() };
    let (requests, result) = acquire(true, &site);
    assert_eq!(requests, vec![inspect_path(), inspect_git_dir(), run_status()]);
    match result {
        Err(RepositoryError::InvalidGitRepo(path)) => assert_eq!(path, PATH),
        other => panic!("unexpected result: {:?}", other),
    }
}

#[test]
fn event_of_the_wrong_kind_changes_nothing() {
    let stages = [
        AcquireStage::Occupant,
        AcquireStage::GitDir,
        AcquireStage::Status,
        AcquireStage::Changes,
        AcquireStage::Cloning,
    ];
    for stage in stages {
        let event = match stage {
            AcquireStage::Occupant | AcquireStage::GitDir => Event::Exited(Ok(())),
            _ => Event::Found(PathKind::Directory),
        };
        match get_code(PATH, true, stage, event) {
            Step::Continue(next) => assert_eq!(next, stage),
            other => panic!("unexpected step: {:?}", other),
        }
    }
}

#[test]
fn each_step_of_an_adoption() {
    let step = get_code(PATH, true, AcquireStage::Occupant, Event::Found(PathKind::Directory));
    assert!(matches!(step, Step::Continue(AcquireStage::GitDir)));
    let step = get_code(PATH, true, AcquireStage::GitDir, Event::Found(PathKind::Directory));
    assert!(matches!(step, Step::Continue(AcquireStage::Status)));
    let step = get_code(PATH, true, AcquireStage::Status, Event::Exited(Ok(())));
    assert!(matches!(step, Step::Continue(AcquireStage::Changes)));
    let step = get_code(PATH, true, AcquireStage::Changes, Event::Exited(Ok(())));
    assert!(matches!(step, Step::Done(Ok(()))));
}
