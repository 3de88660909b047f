use vendor_space::{
    prepare, Command, Config, Event, PathKind, Phase, Repo, RepositoryError, Request, Script,
    ShellError, Step, VendorSpaceError,
};

fn repo(name: &str, branches: &[&str], allow_existing: bool) -> Repo {
    Repo {
        name: name.to_string(),
        url: format!("https://x/{}.git", name),
        branches: branches.iter().map(|branch| branch.to_string()).collect(),
        allow_existing,
    }
}

fn space(repos: Vec<Repo>) -> Config {
    Config { root: "root".to_string(), repos }
}

/// Prepares the vendor space of `config` in a world that answers each request
/// as `answer` says, and gives the requests made and the result.
fn run(
    config: Config,
    answer: impl Fn(&Request) -> Event,
) -> (Vec<Request>, Result<(), VendorSpaceError>) {
    assert!(config.is_well_formed());
    let mut requests = Vec::new();
    let mut preparation = prepare(config);
    loop {
        assert!(requests.len() < 100, "the preparation does not end");
        let request = preparation.request();
        let event = answer(&request);
        requests.push(request);
        match preparation.advance(event) {
            Step::Continue(next) => preparation = next,
            Step::Done(result) => return (requests, result),
        }
    }
}

/// A world in which the paths in `files` hold regular files, those in
/// `directories` hold directories, and every script succeeds but those that
/// hold one of the `failing` commands.
fn world<'a>(
    files: &'a [&'a str],
    directories: &'a [&'a str],
    failing: &'a [Command],
) -> impl Fn(&Request) -> Event + 'a {
    move |request| match request {
        Request::Inspect(path) => Event::Found(if files.contains(&path.as_str()) {
            PathKind::File
        } else if directories.contains(&path.as_str()) {
            PathKind::Directory
        } else {
            PathKind::Absent
        }),
        Request::Run(script) => {
            if script.commands.iter().any(|command| failing.contains(command)) {
                Event::Exited(Err(ShellError::BadExitCode(Some(1))))
            } else {
                Event::Exited(Ok(()))
            }
        }
    }
}

fn strict(commands: Vec<Command>) -> Request {
    Request::Run(Script { strict: true, commands })
}

fn make_root() -> Request {
    strict(vec![Command::MakeDirs("root".to_string())])
}

fn inspect(path: &str) -> Request {
    Request::Inspect(path.to_string())
}

fn clone(name: &str) -> Request {
    strict(vec![Command::GitClone {
        url: format!("https://x/{}.git", name),
        path: format!("root/{}", name),
    }])
}

fn status(name: &str) -> Request {
    strict(vec![Command::ChangeDir(format!("root/{}", name)), Command::GitStatus])
}

fn changes(name: &str) -> Request {
    strict(vec![Command::ChangeDir(format!("root/{}", name)), Command::GitDiffIndex])
}

fn primary(name: &str, branch: &str) -> Request {
    strict(vec![
        Command::ChangeDir(format!("root/{}", name)),
        Command::MakeDirs(".cargo".to_string()),
        Command::GitCheckout(branch.to_string()),
        Command::GitPull,
        Command::CargoVendor { keep: false, manifest: format!(".cargo/{}.config", branch) },
        Command::Copy {
            from: format!(".cargo/{}.config", branch),
            to: ".cargo/config.toml".to_string(),
        },
    ])
}

fn secondary(name: &str, branch: &str) -> Request {
    strict(vec![
        Command::ChangeDir(format!("root/{}", name)),
        Command::GitCheckout(branch.to_string()),
        Command::GitPull,
        Command::CargoVendor { keep: true, manifest: format!(".cargo/{}.config", branch) },
    ])
}

fn restore(name: &str, branch: &str) -> Request {
    strict(vec![
        Command::ChangeDir(format!("root/{}", name)),
        Command::GitCheckout(branch.to_string()),
    ])
}

/// The manifests that the requests write, in order.
fn manifests(requests: &[Request]) -> Vec<String> {
    let mut files = Vec::new();
    for request in requests {
        if let Request::Run(script) = request {
            for command in &script.commands {
                if let Command::CargoVendor { manifest, .. } = command {
                    files.push(manifest.clone());
                }
            }
        }
    }
    files
}

#[test]
fn fresh_repository_is_cloned_and_its_branch_vendored() {
    let config = space(vec![repo("foo", &["main"], false)]);
    let (requests, result) = run(config, world(&[], &[], &[]));
    assert!(matches!(result, Ok(())));
    assert_eq!(
        requests,
        vec![
            make_root(),
            inspect("root/foo"),
            clone("foo"),
            primary("foo", "main"),
            restore("foo", "main"),
        ]
    );
    assert_eq!(manifests(&requests), vec![".cargo/main.config".to_string()]);
    assert!(requests.contains(&strict(vec![
        Command::ChangeDir("root/foo".to_string()),
        Command::MakeDirs(".cargo".to_string()),
        Command::GitCheckout("main".to_string()),
        Command::GitPull,
        Command::CargoVendor { keep: false, manifest: ".cargo/main.config".to_string() },
        Command::Copy {
            from: ".cargo/main.config".to_string(),
            to: ".cargo/config.toml".to_string(),
        },
    ])));
}

#[test]
fn file_in_the_place_of_a_repository_ends_the_run_at_once() {
    let config = space(vec![repo("foo", &["main"], false), repo("bar", &["main"], false)]);
    let (requests, result) = run(config, world(&["root/foo"], &[], &[]));
    match result {
        Err(VendorSpaceError::Repository(RepositoryError::PathIsFile(path))) => {
            assert_eq!(path, "root/foo")
        }
        other => panic!("unexpected result: {:?}", other),
    }
    assert_eq!(requests, vec![make_root(), inspect("root/foo")]);
    assert!(!requests.contains(&clone("foo")));
}

#[test]
fn adopted_repository_has_both_branches_vendored() {
    let config = space(vec![repo("foo", &["main", "dev"], true)]);
    let (requests, result) = run(config, world(&[], &["root/foo", "root/foo/.git"], &[]));
    assert!(matches!(result, Ok(())));
    assert_eq!(
        requests,
        vec![
            make_root(),
            inspect("root/foo"),
            inspect("root/foo/.git"),
            status("foo"),
            changes("foo"),
            primary("foo", "main"),
            secondary("foo", "dev"),
            restore("foo", "main"),
        ]
    );
    assert_eq!(
        manifests(&requests),
        vec![".cargo/main.config".to_string(), ".cargo/dev.config".to_string()]
    );
    assert!(!requests.contains(&clone("foo")));
}

#[test]
fn repositories_are_taken_in_the_order_of_the_configuration() {
    let config = space(vec![repo("a", &["main"], false), repo("b", &["one", "two"], true)]);
    let (requests, result) = run(config, world(&[], &["root/b", "root/b/.git"], &[]));
    assert!(matches!(result, Ok(())));
    assert_eq!(
        requests,
        vec![
            make_root(),
            inspect("root/a"),
            clone("a"),
            primary("a", "main"),
            restore("a", "main"),
            inspect("root/b"),
            inspect("root/b/.git"),
            status("b"),
            changes("b"),
            primary("b", "one"),
            secondary("b", "two"),
            restore("b", "one"),
        ]
    );
}

#[test]
fn space_without_repositories_only_makes_its_root() {
    let (requests, result) = run(space(vec![]), world(&[], &[], &[]));
    assert!(matches!(result, Ok(())));
    assert_eq!(requests, vec![make_root()]);
}

#[test]
fn root_that_cannot_be_made_ends_the_run() {
    let config = space(vec![repo("foo", &["main"], false)]);
    let failing = [Command::MakeDirs("root".to_string())];
    let (requests, result) = run(config, world(&[], &[], &failing));
    assert!(matches!(result, Err(VendorSpaceError::Shell(ShellError::BadExitCode(Some(1))))));
    assert_eq!(requests, vec![make_root()]);
}

#[test]
fn failed_clone_ends_the_run_before_any_vendoring() {
    let config = space(vec![repo("foo", &["main"], false), repo("bar", &["main"], false)]);
    let failing =
        [Command::GitClone { url: "https://x/foo.git".to_string(), path: "root/foo".to_string() }];
    let (requests, result) = run(config, world(&[], &[], &failing));
    assert!(matches!(
        result,
        Err(VendorSpaceError::Repository(RepositoryError::GitClone(ShellError::BadExitCode(
            Some(1)
        ))))
    ));
    assert_eq!(requests, vec![make_root(), inspect("root/foo"), clone("foo")]);
}

#[test]
fn failed_vendoring_ends_the_run_before_the_next_repository() {
    let config = space(vec![repo("foo", &["main", "dev"], false), repo("bar", &["main"], false)]);
    let failing = [Command::GitCheckout("dev".to_string())];
    let (requests, result) = run(config, world(&[], &[], &failing));
    assert!(matches!(result, Err(VendorSpaceError::Shell(ShellError::BadExitCode(Some(1))))));
    assert_eq!(
        requests,
        vec![
            make_root(),
            inspect("root/foo"),
            clone("foo"),
            primary("foo", "main"),
            secondary("foo", "dev"),
        ]
    );
}

#[test]
fn existing_directory_is_refused_when_not_allowed() {
    let config = space(vec![repo("foo", &["main"], false)]);
    let (requests, result) = run(config, world(&[], &["root/foo", "root/foo/.git"], &[]));
    match result {
        Err(VendorSpaceError::Repository(RepositoryError::DirectoryAlreadyExists(path))) => {
            assert_eq!(path, "root/foo")
        }
        other => panic!("unexpected result: {:?}", other),
    }
    assert_eq!(requests, vec![make_root(), inspect("root/foo")]);
}

#[test]
fn dirty_and_invalid_repositories_are_told_apart() {
    let directories = ["root/foo", "root/foo/.git"];
    let config = space(vec![repo("foo", &["main"], true)]);
    let (_, result) = run(config.clone(), world(&[], &directories, &[Command::GitDiffIndex]));
    assert!(matches!(
        result,
        Err(VendorSpaceError::Repository(RepositoryError::DirtyWorkingTree(_)))
    ));
    let (_, result) = run(config.clone(), world(&[], &directories, &[Command::GitStatus]));
    assert!(matches!(
        result,
        Err(VendorSpaceError::Repository(RepositoryError::InvalidGitRepo(_)))
    ));
    let (_, result) = run(config, world(&[], &["root/foo"], &[]));
    assert!(matches!(
        result,
        Err(VendorSpaceError::Repository(RepositoryError::InvalidGitRepo(_)))
    ));
}

#[test]
fn preparation_tells_where_it_stands() {
    let config = space(vec![repo("foo", &["main"], false)]);
    let preparation = prepare(config.clone());
    assert_eq!(preparation.phase(), Phase::Root);
    assert_eq!(preparation.config(), &config);
    let preparation = match preparation.advance(Event::Exited(Ok(()))) {
        Step::Continue(next) => next,
        other => panic!("unexpected step: {:?}", other),
    };
    assert_eq!(
        preparation.phase(),
        Phase::Acquire { repo: 0, stage: vendor_space::AcquireStage::Occupant }
    );
    let preparation = match preparation.advance(Event::Exited(Ok(()))) {
        Step::Continue(next) => next,
        other => panic!("unexpected step: {:?}", other),
    };
    assert_eq!(
        preparation.phase(),
        Phase::Acquire { repo: 0, stage: vendor_space::AcquireStage::Occupant }
    );
    let preparation = match preparation.advance(Event::Found(PathKind::Absent)) {
        Step::Continue(next) => next,
        other => panic!("unexpected step: {:?}", other),
    };
    assert_eq!(
        preparation.phase(),
        Phase::Acquire { repo: 0, stage: vendor_space::AcquireStage::Cloning }
    );
}
