use fail::FailScenario;
use git2::{Oid, Remote, Repository, RepositoryInitOptions, Signature};
use mktemp::Temp;
use version_pick::{Action, Direction, Error, Event, Git, ObjectId, Progress, RemoteHead};

/// Performs one operation of a query against the real transport.
fn perform(action: Action, remote: &mut Option<Remote<'static>>) -> Event {
    match action {
        Action::Evaluate { point } => match fail::eval(&point, |message| message) {
            Some(message) => Event::Injected(message),
            None => Event::Done,
        },
        Action::CreateDetached { url } => match Remote::create_detached(url) {
            Ok(created) => {
                *remote = Some(created);
                Event::Done
            }
            Err(error) => Event::Failed(error.to_string()),
        },
        Action::Connect { direction } => {
            let direction = match direction {
                Direction::Fetch => git2::Direction::Fetch,
                Direction::Push => git2::Direction::Push,
            };
            match remote.as_mut().unwrap().connect(direction) {
                Ok(()) => Event::Done,
                Err(error) => Event::Failed(error.to_string()),
            }
        }
        Action::List => match remote.as_ref().unwrap().list() {
            Ok(heads) => Event::Advertised(
                heads
                    .iter()
                    .map(|head| RemoteHead {
                        name: head.name().to_string(),
                        oid: ObjectId::from_bytes(head.oid().as_bytes()).unwrap(),
                    })
                    .collect(),
            ),
            Err(error) => Event::Failed(error.to_string()),
        },
        Action::Release => {
            *remote = None;
            Event::Done
        }
    }
}

/// Runs a whole query, and records the operations it asked for.
fn heads_logged(git: &Git, asked: &mut Vec<String>) -> Result<Vec<(String, ObjectId)>, Error> {
    let mut remote = None;
    let (mut state, mut action) = git.start();
    loop {
        asked.push(format!("{:?}", action));
        let event = perform(action, &mut remote);
        match git.step(state, event) {
            Progress::Next(next_state, next_action) => {
                state = next_state;
                action = next_action;
            }
            Progress::Finished(result) => {
                assert!(remote.is_none() || asked.len() == 2);
                return result;
            }
        }
    }
}

fn heads(git: &Git) -> Result<Vec<(String, ObjectId)>, Error> {
    heads_logged(git, &mut Vec::new())
}

/// A repository with `main` (two commits) and `feature/branch` (one more,
/// checked out).
fn repository_with_two_branches(path: &str) -> Repository {
    let mut options = RepositoryInitOptions::new();
    options.initial_head("main");
    let repo = Repository::init_opts(path, &options).unwrap();
    {
        let author = Signature::now("Tester", "tester@example.org").unwrap();
        let tree = repo.find_tree(repo.treebuilder(None).unwrap().write().unwrap()).unwrap();
        let first = repo.commit(Some("HEAD"), &author, &author, "commit 1", &tree, &[]).unwrap();
        let first = repo.find_commit(first).unwrap();
        let second =
            repo.commit(Some("HEAD"), &author, &author, "commit 2", &tree, &[&first]).unwrap();
        let second = repo.find_commit(second).unwrap();
        repo.branch("feature/branch", &second, false).unwrap();
        repo.set_head("refs/heads/feature/branch").unwrap();
        repo.commit(Some("HEAD"), &author, &author, "feature commit", &tree, &[&second]).unwrap();
    }
    repo
}

fn rev_parse(repo: &Repository, revision: &str) -> Oid {
    repo.revparse_single(revision).unwrap().id()
}

#[test]
fn test_heads() {
    let scenario = FailScenario::setup();
    let temp_dir = Temp::new_dir().unwrap();
    let temp_path = temp_dir.to_str().unwrap();
    let repo = repository_with_two_branches(temp_path);
    let mut heads_expected = ["HEAD", "refs/heads/feature/branch", "refs/heads/main"]
        .into_iter()
        .map(|revision: &str| {
            (
                revision.to_string(),
                ObjectId::from_bytes(rev_parse(&repo, revision).as_bytes()).unwrap(),
            )
        })
        .collect::<Vec<_>>();
    heads_expected.sort();
    let git = Git::from_url(temp_path);
    let mut git_heads = heads(&git).unwrap();
    git_heads.sort();
    assert_eq!(git_heads, heads_expected);
    scenario.teardown();
}

#[test]
fn heads_alias_only_where_the_repository_does() {
    let scenario = FailScenario::setup();
    let temp_dir = Temp::new_dir().unwrap();
    let temp_path = temp_dir.to_str().unwrap();
    let repo = repository_with_two_branches(temp_path);
    let found = heads(&Git::from_url(temp_path)).unwrap();
    let id_of = |name: &str| {
        let entry = found.iter().find(|(entry, _)| entry == name).unwrap();
        Oid::from_bytes(entry.1.as_bytes()).unwrap()
    };
    assert_eq!(id_of("HEAD"), id_of("refs/heads/feature/branch"));
    assert_ne!(id_of("refs/heads/main"), id_of("refs/heads/feature/branch"));
    assert_eq!(id_of("refs/heads/main"), rev_parse(&repo, "main"));
    assert_eq!(id_of("HEAD").to_string(), rev_parse(&repo, "HEAD").to_string());
    scenario.teardown();
}

#[test]
fn heads_twice_against_an_unchanged_remote_are_the_same() {
    let scenario = FailScenario::setup();
    let temp_dir = Temp::new_dir().unwrap();
    let temp_path = temp_dir.to_str().unwrap();
    let _repo = repository_with_two_branches(temp_path);
    let git = Git::from_url(temp_path);
    let first = heads(&git).unwrap();
    let second = heads(&git).unwrap();
    assert_eq!(first, second);
    assert_eq!(first.len(), 3);
    scenario.teardown();
}

#[test]
fn query_asks_the_transport_in_order_and_releases_it() {
    let scenario = FailScenario::setup();
    let temp_dir = Temp::new_dir().unwrap();
    let temp_path = temp_dir.to_str().unwrap();
    let _repo = repository_with_two_branches(temp_path);
    let mut asked = Vec::new();
    heads_logged(&Git::from_url(temp_path), &mut asked).unwrap();
    assert_eq!(
        asked,
        vec![
            "Evaluate { point: \"git.heads.create_detached\" }".to_string(),
            format!("CreateDetached {{ url: {:?} }}", temp_path),
            "Connect { direction: Fetch }".to_string(),
            "List".to_string(),
            "Release".to_string(),
        ]
    );
    scenario.teardown();
}

#[test]
fn missing_target_is_an_error_and_no_empty_list() {
    let scenario = FailScenario::setup();
    let temp_dir = Temp::new_dir().unwrap();
    let missing = format!("{}/no-such-repository", temp_dir.to_str().unwrap());
    let mut asked = Vec::new();
    let result = heads_logged(&Git::from_url(&missing), &mut asked);
    let error = result.unwrap_err();
    assert!(!error.to_string().is_empty());
    assert_eq!(asked.last().unwrap(), "Release");
    assert_eq!(asked.len(), 4);
    scenario.teardown();
}

#[test]
fn url_that_the_transport_cannot_take_is_an_error() {
    let scenario = FailScenario::setup();
    let mut asked = Vec::new();
    let error = heads_logged(&Git::from_url("a\0b"), &mut asked).unwrap_err();
    assert_eq!(
        error.to_string(),
        "data contained a nul byte that could not be represented as a string"
    );
    assert_eq!(asked.len(), 2);
    scenario.teardown();
}

#[test]
fn test_heads_fail_create_detached() {
    let scenario = FailScenario::setup();
    fail::cfg("git.heads.create_detached", "return('well then')").unwrap();
    let git = Git::from_url(".");
    assert_eq!(heads(&git).unwrap_err().to_string(), "'well then'");
    scenario.teardown();
}

#[test]
fn injected_message_is_returned_unchanged() {
    let scenario = FailScenario::setup();
    fail::cfg("git.heads.create_detached", "return(well then)").unwrap();
    let mut asked = Vec::new();
    let result = heads_logged(&Git::from_url("."), &mut asked);
    assert_eq!(result.unwrap_err().to_string(), "well then");
    assert_eq!(asked, vec!["Evaluate { point: \"git.heads.create_detached\" }".to_string()]);
    scenario.teardown();
}

#[test]
fn injected_failure_without_message_is_reported_as_injected() {
    let scenario = FailScenario::setup();
    fail::cfg("git.heads.create_detached", "return").unwrap();
    let git = Git::from_url(".");
    assert_eq!(heads(&git).unwrap_err().to_string(), "Injected create_detach error.");
    scenario.teardown();
}

#[test]
fn injection_point_that_is_switched_off_lets_the_query_through() {
    let scenario = FailScenario::setup();
    fail::cfg("git.heads.create_detached", "off").unwrap();
    let temp_dir = Temp::new_dir().unwrap();
    let temp_path = temp_dir.to_str().unwrap();
    let _repo = repository_with_two_branches(temp_path);
    assert_eq!(heads(&Git::from_url(temp_path)).unwrap().len(), 3);
    scenario.teardown();
}
