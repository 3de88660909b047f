use vendor_space::{vendor, vendor_request, Command, Event, Request, Script, ShellError, Step, VendorStage};

const PATH: &str = "root/foo";

fn names(branches: &[&str]) -> Vec<String> {
    branches.iter().map(|branch| branch.to_string()).collect()
}

/// Runs a vendoring sequence in which the script at `failing`, if any, ends
/// with that exit code, and gives the requests made and the result.
fn sequence(branches: &[&str], failing: Option<(usize, i32)>) -> (Vec<Request>, Result<(), ShellError>) {
    let branches = names(branches);
    let mut requests = Vec::new();
    let mut stage = VendorStage { done: 0 };
    loop {
        assert!(requests.len() <= branches.len() + 1, "the sequence does not end");
        requests.push(vendor_request(PATH, &branches, stage));
        let outcome = match failing {
            Some((at, code)) if at == stage.done => Err(ShellError::BadExitCode(Some(code))),
            _ => Ok(()),
        };
        match vendor(&branches, stage, Event::Exited(outcome)) {
            Step::Continue(next) => stage = next,
            Step::Done(result) => return (requests, result),
        }
    }
}

fn strict(commands: Vec<Command>) -> Request {
    Request::Run(Script { strict: true, commands })
}

fn primary(branch: &str) -> Request {
    strict(vec![
        Command::ChangeDir(PATH.to_string()),
        Command::MakeDirs(".cargo".to_string()),
        Command::GitCheckout(branch.to_string()),
        Command::GitPull,
        Command::CargoVendor { keep: false, manifest: format!(".cargo/{}.config", branch) },
        Command::Copy {
            from: format!(".cargo/{}.config", branch),
            to: ".cargo/config.toml".to_string(),
        },
    ])
}

fn secondary(branch: &str) -> Request {
    strict(vec![
        Command::ChangeDir(PATH.to_string()),
        Command::GitCheckout(branch.to_string()),
        Command::GitPull,
        Command::CargoVendor { keep: true, manifest: format!(".cargo/{}.config", branch) },
    ])
}

fn restore(branch: &str) -> Request {
    strict(vec![Command::ChangeDir(PATH.to_string()), Command::GitCheckout(branch.to_string())])
}

/// The branches that the requests check out, in order.
fn checkouts(requests: &[Request]) -> Vec<String> {
    let mut branches = Vec::new();
    for request in requests {
        if let Request::Run(script) = request {
            for command in &script.commands {
                if let Command::GitCheckout(branch) = command {
                    branches.push(branch.clone());
                }
            }
        }
    }
    branches
}

#[test]
fn three_branches_are_checked_out_in_order_and_the_first_again() {
    let (requests, result) = sequence(&["b1", "b2", "b3"], None);
    assert!(matches!(result, Ok(())));
    assert_eq!(requests, vec![primary("b1"), secondary("b2"), secondary("b3"), restore("b1")]);
    assert_eq!(checkouts(&requests), names(&["b1", "b2", "b3", "b1"]));
}

#[test]
fn single_branch_is_vendored_and_checked_out_again() {
    let (requests, result) = sequence(&["main"], None);
    assert!(matches!(result, Ok(())));
    assert_eq!(requests, vec![primary("main"), restore("main")]);
    assert_eq!(checkouts(&requests), names(&["main", "main"]));
}

#[test]
fn running_twice_repeats_the_same_scripts() {
    let (first, first_result) = sequence(&["main", "dev"], None);
    let (second, second_result) = sequence(&["main", "dev"], None);
    assert!(matches!(first_result, Ok(())));
    assert!(matches!(second_result, Ok(())));
    assert_eq!(first, second);
    assert_eq!(first.last(), Some(&restore("main")));
    assert_eq!(second.last(), Some(&restore("main")));
}

#[test]
fn failure_on_the_primary_branch_ends_the_sequence() {
    let (requests, result) = sequence(&["main", "dev"], Some((0, 101)));
    assert_eq!(requests, vec![primary("main")]);
    assert!(matches!(result, Err(ShellError::BadExitCode(Some(101)))));
}

#[test]
fn failure_on_a_later_branch_skips_the_rest_and_the_restore() {
    let (requests, result) = sequence(&["b1", "b2", "b3"], Some((1, 1)));
    assert_eq!(requests, vec![primary("b1"), secondary("b2")]);
    assert_eq!(checkouts(&requests), names(&["b1", "b2"]));
    assert!(matches!(result, Err(ShellError::BadExitCode(Some(1)))));
}

#[test]
fn failure_of_the_restore_is_reported() {
    let (requests, result) = sequence(&["b1", "b2"], Some((2, 1)));
    assert_eq!(requests, vec![primary("b1"), secondary("b2"), restore("b1")]);
    assert!(matches!(result, Err(ShellError::BadExitCode(Some(1)))));
}

#[test]
fn script_that_could_not_start_ends_the_sequence() {
    let branches = names(&["main"]);
    let error = std::io::Error::new(std::io::ErrorKind::PermissionDenied, "no shell");
    let step = vendor(&branches, VendorStage { done: 0 }, Event::Exited(Err(ShellError::IoError(error))));
    match step {
        Step::Done(Err(ShellError::IoError(e))) => {
            assert_eq!(e.kind(), std::io::ErrorKind::PermissionDenied)
        }
        other => panic!("unexpected step: {:?}", other),
    }
}

#[test]
fn steps_count_the_scripts_done() {
    let branches = names(&["b1", "b2", "b3"]);
    for done in 0..3 {
        let step = vendor(&branches, VendorStage { done }, Event::Exited(Ok(())));
        match step {
            Step::Continue(next) => assert_eq!(next, VendorStage { done: done + 1 }),
            other => panic!("unexpected step: {:?}", other),
        }
    }
    let step = vendor(&branches, VendorStage { done: 3 }, Event::Exited(Ok(())));
    assert!(matches!(step, Step::Done(Ok(()))));
}

#[test]
fn inspection_event_changes_nothing_in_a_sequence() {
    let branches = names(&["b1", "b2"]);
    let step = vendor(&branches, VendorStage { done: 1 }, Event::Found(vendor_space::PathKind::Absent));
    match step {
        Step::Continue(next) => assert_eq!(next, VendorStage { done: 1 }),
        other => panic!("unexpected step: {:?}", other),
    }
}

#[test]
fn scripts_of_the_sequence_as_text() {
    let text = |request: Request| match request {
        Request::Run(script) => script.render(),
        Request::Inspect(path) => panic!("no script: {}", path),
    };
    let branches = names(&["main", "dev"]);
    assert_eq!(
        text(vendor_request(PATH, &branches, VendorStage { done: 0 })),
        "set -euxo pipefail\n\
         cd 'root/foo'\n\
         mkdir -p '.cargo'\n\
         git checkout 'main'\n\
         git pull\n\
         cargo vendor --versioned-dirs 1> '.cargo/main.config'\n\
         cp '.cargo/main.config' '.cargo/config.toml'\n"
    );
    assert_eq!(
        text(vendor_request(PATH, &branches, VendorStage { done: 1 })),
        "set -euxo pipefail\n\
         cd 'root/foo'\n\
         git checkout 'dev'\n\
         git pull\n\
         cargo vendor --no-delete --versioned-dirs 1> '.cargo/dev.config'\n"
    );
    assert_eq!(
        text(vendor_request(PATH, &branches, VendorStage { done: 2 })),
        "set -euxo pipefail\ncd 'root/foo'\ngit checkout 'main'\n"
    );
}
