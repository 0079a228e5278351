use repo_catalog::branch::Branch;
use repo_catalog::commit::{Commit, CommitTime};
use repo_catalog::errors::AppErrorType;
use repo_catalog::git::ExtractionError;
use repo_catalog::ingest::{
    distinct_identities, stamp_commits, IngestAction, IngestEvent, IngestPhase, Ingestion,
};
use repo_catalog::repository::{Repository, RepositoryData};

const REPO_ID: u128 = 0x1234;

fn commit(hash: &str, author: &str, committer: &str) -> Commit {
    Commit {
        hash: hash.to_string(),
        tree: None,
        text: format!("message {}", hash),
        date: CommitTime { seconds: 1_600_000_000, offset_minutes: 0 },
        author_email: author.to_string(),
        author_name: "A".to_string(),
        committer_email: committer.to_string(),
        committer_name: "C".to_string(),
        repository_url: "acme/widgets".to_string(),
    }
}

fn three_commits() -> Vec<Commit> {
    vec![
        commit("c0", "alice@example.com", "alice@example.com"),
        commit("c1", "bob@example.com", "alice@example.com"),
        commit("c2", "alice@example.com", "bob@example.com"),
    ]
}

fn repository() -> Repository {
    Repository {
        id: REPO_ID,
        url: "acme/widgets".to_string(),
        created_at: 0,
        updated_at: 0,
        uploader_ip: "10.0.0.1:5000".to_string(),
    }
}

fn data(url: &str, branch: &str) -> RepositoryData {
    RepositoryData { url: url.to_string(), branch: branch.to_string() }
}

fn addr() -> Option<String> {
    Some("10.0.0.1:5000".to_string())
}

/// Runs an ingestion up to the extraction, with the lookup finding nothing.
fn created(url: &str, branch: &str) -> Ingestion {
    let (s, a) = Ingestion::start(&data(url, branch), addr());
    assert!(matches!(a, IngestAction::LookupRepository(_)));
    let (s, a) = s.step(IngestEvent::Lookup(false));
    assert!(matches!(a, IngestAction::InsertRepository { .. }));
    let (s, a) = s.step(IngestEvent::RepositoryInserted(repository()));
    assert!(matches!(a, IngestAction::Extract { .. }));
    s
}

fn err_type(a: &IngestAction) -> AppErrorType {
    match a {
        IngestAction::Finish(Err(e)) => e.error_type,
        other => panic!("expected an error ending, got {:?}", other),
    }
}

#[test]
fn scenario_three_commits_two_authors() {
    let (s, a) = Ingestion::start(&data("https://github.com/acme/widgets", "main"), addr());
    match &a {
        IngestAction::LookupRepository(u) => assert_eq!(u, "acme/widgets"),
        other => panic!("{:?}", other),
    }
    let (s, a) = s.step(IngestEvent::Lookup(false));
    match &a {
        IngestAction::InsertRepository { url, uploader_ip } => {
            assert_eq!(url, "acme/widgets");
            assert_eq!(uploader_ip, "10.0.0.1:5000");
        },
        other => panic!("{:?}", other),
    }
    let (s, a) = s.step(IngestEvent::RepositoryInserted(repository()));
    match &a {
        IngestAction::Extract { repo_name, branch } => {
            assert_eq!(repo_name, "acme/widgets");
            assert_eq!(branch, "main");
        },
        other => panic!("{:?}", other),
    }
    let mut repositories = 1;
    let mut identities = Vec::new();
    let mut commits = 0;
    let mut branches = Vec::new();
    let (mut s, mut a) = s.step(IngestEvent::Extracted(three_commits()));
    loop {
        let event = match &a {
            IngestAction::RegisterIdentity(e) => {
                identities.push((e.email.clone(), e.hash_md5.clone()));
                IngestEvent::IdentityRegistered
            },
            IngestAction::InsertCommits(b) => {
                commits += b.len();
                IngestEvent::CommitsInserted(b.iter().map(|c| c.duplicate()).collect())
            },
            IngestAction::InsertBranch(d) => {
                branches.push(d.clone());
                IngestEvent::BranchInserted(Branch {
                    id: 9,
                    name: d.name.clone(),
                    repository_id: d.repository_id,
                    head: d.head.clone(),
                })
            },
            IngestAction::DeleteRepository(_) => {
                repositories -= 1;
                IngestEvent::RepositoryDeleted
            },
            _ => break,
        };
        let next = s.step(event);
        s = next.0;
        a = next.1;
    }
    match &a {
        IngestAction::Finish(Ok(r)) => assert_eq!(r.id, REPO_ID),
        other => panic!("{:?}", other),
    }
    assert_eq!(s.phase, IngestPhase::Done);
    assert_eq!(repositories, 1);
    assert_eq!(commits, 3);
    assert_eq!(
        identities,
        vec![
            ("alice@example.com".to_string(), "c160f8cc69a4f0bf2b0362752353d060".to_string()),
            ("bob@example.com".to_string(), "4b9bb80620f03eb3719e0a061c14283d".to_string()),
        ]
    );
    assert_eq!(branches.len(), 1);
    assert_eq!(branches[0].head, "c0");
    assert_eq!(branches[0].name, "main");
    assert_eq!(branches[0].repository_id, REPO_ID);
}

#[test]
fn scenario_not_a_url_is_rejected() {
    let (s, a) = Ingestion::start(&data("not-a-url", "main"), addr());
    assert_eq!(s.phase, IngestPhase::Done);
    assert_eq!(err_type(&a), AppErrorType::NotFoundError);
    match a {
        IngestAction::Finish(Err(e)) => assert_eq!(e.message(), "Repository not found"),
        _ => unreachable!(),
    }
}

#[test]
fn scenario_missing_branch_deletes_repository() {
    let s = created("https://github.com/acme/widgets", "nonexistent-branch");
    let (s, a) = s.step(IngestEvent::ExtractionFailed(ExtractionError::BranchNotFound(
        "no such branch".to_string(),
    )));
    match &a {
        IngestAction::DeleteRepository(id) => assert_eq!(*id, REPO_ID),
        other => panic!("{:?}", other),
    }
    let (s, a) = s.step(IngestEvent::RepositoryDeleted);
    assert_eq!(s.phase, IngestPhase::Done);
    assert_eq!(err_type(&a), AppErrorType::GitError);
    match a {
        IngestAction::Finish(Err(e)) => {
            assert_eq!(e.message(), "Branch not found");
            assert_eq!(e.cause, Some("no such branch".to_string()));
        },
        _ => unreachable!(),
    }
}

#[test]
fn compensation_failure_keeps_first_error() {
    let s = created("github.com/acme/widgets", "main");
    let (s, _) = s.step(IngestEvent::ExtractionFailed(ExtractionError::CloneFailed("dns".to_string())));
    let (_, a) = s.step(IngestEvent::StorageFailed("connection lost".to_string()));
    assert_eq!(err_type(&a), AppErrorType::GitError);
}

#[test]
fn second_ingestion_conflicts_without_writing() {
    let (s, _) = Ingestion::start(&data("https://github.com/acme/widgets", "main"), addr());
    let (s, a) = s.step(IngestEvent::Lookup(true));
    assert_eq!(s.phase, IngestPhase::Done);
    assert_eq!(err_type(&a), AppErrorType::AlreadyExistsError);
}

#[test]
fn missing_uploader_is_unauthorized() {
    let (s, _) = Ingestion::start(&data("https://github.com/acme/widgets", "main"), None);
    let (_, a) = s.step(IngestEvent::Lookup(false));
    assert_eq!(err_type(&a), AppErrorType::AuthorizationError);
}

#[test]
fn lookup_failure_is_storage_error() {
    let (s, _) = Ingestion::start(&data("https://github.com/acme/widgets", "main"), addr());
    let (_, a) = s.step(IngestEvent::StorageFailed("down".to_string()));
    assert_eq!(err_type(&a), AppErrorType::DbError);
}

#[test]
fn existing_identity_counts_as_success() {
    let s = created("https://github.com/acme/widgets", "main");
    let (s, a) = s.step(IngestEvent::Extracted(three_commits()));
    assert!(matches!(a, IngestAction::RegisterIdentity(_)));
    let (s, a) = s.step(IngestEvent::IdentityExisted);
    match &a {
        IngestAction::RegisterIdentity(e) => assert_eq!(e.email, "bob@example.com"),
        other => panic!("{:?}", other),
    }
    let (_, a) = s.step(IngestEvent::IdentityExisted);
    assert!(matches!(a, IngestAction::InsertCommits(ref b) if b.len() == 3));
}

#[test]
fn identity_storage_failure_rolls_back() {
    let s = created("https://github.com/acme/widgets", "main");
    let (s, _) = s.step(IngestEvent::Extracted(three_commits()));
    let (s, a) = s.step(IngestEvent::StorageFailed("timeout".to_string()));
    assert!(matches!(a, IngestAction::DeleteRepository(REPO_ID)));
    let (_, a) = s.step(IngestEvent::RepositoryDeleted);
    assert_eq!(err_type(&a), AppErrorType::DbError);
}

#[test]
fn empty_commit_insert_rolls_back() {
    let s = created("https://github.com/acme/widgets", "main");
    let (s, _) = s.step(IngestEvent::Extracted(vec![commit("c0", "a@x", "a@x")]));
    let (s, a) = s.step(IngestEvent::IdentityRegistered);
    assert!(matches!(a, IngestAction::InsertCommits(_)));
    let (s, a) = s.step(IngestEvent::CommitsInserted(vec![]));
    assert!(matches!(a, IngestAction::DeleteRepository(REPO_ID)));
    let (_, a) = s.step(IngestEvent::RepositoryDeleted);
    assert_eq!(err_type(&a), AppErrorType::DbError);
}

#[test]
fn empty_history_rolls_back() {
    let s = created("https://github.com/acme/widgets", "main");
    let (s, a) = s.step(IngestEvent::Extracted(vec![]));
    assert!(matches!(a, IngestAction::DeleteRepository(REPO_ID)));
    let (_, a) = s.step(IngestEvent::RepositoryDeleted);
    assert_eq!(err_type(&a), AppErrorType::DbError);
}

#[test]
fn branch_failure_is_tolerated() {
    let s = created("https://github.com/acme/widgets", "main");
    let (s, _) = s.step(IngestEvent::Extracted(vec![commit("c0", "a@x", "a@x")]));
    let (s, _) = s.step(IngestEvent::IdentityRegistered);
    let (s, _) = s.step(IngestEvent::CommitsInserted(vec![commit("c0", "a@x", "a@x")]));
    let (_, a) = s.step(IngestEvent::StorageFailed("fk violation".to_string()));
    assert!(matches!(a, IngestAction::Finish(Ok(ref r)) if r.id == REPO_ID));
}

#[test]
fn dedup_counts_distinct_addresses() {
    let cs = vec![
        commit("c0", "a@x", "b@x"),
        commit("c1", "b@x", "a@x"),
        commit("c2", "a@x", "a@x"),
        commit("c3", "c@x", "b@x"),
    ];
    let ids = distinct_identities(&cs);
    assert_eq!(ids, vec!["a@x".to_string(), "b@x".to_string(), "c@x".to_string()]);
    assert!(distinct_identities(&vec![]).is_empty());
}

#[test]
fn stamping_keeps_hashes_and_sets_owner() {
    let mut cs = three_commits();
    cs[1].repository_url = "other/place".to_string();
    let ds = stamp_commits(&cs, &"acme/widgets".to_string());
    let hashes: Vec<&str> = ds.iter().map(|c| c.hash.as_str()).collect();
    assert_eq!(hashes, vec!["c0", "c1", "c2"]);
    assert!(ds.iter().all(|c| c.repository_url == "acme/widgets"));
    assert_eq!(ds[1].author_email, "bob@example.com");
}
