use repo_catalog::commit::CommitTime;
use repo_catalog::git::{
    branch_ref, clone_url, MAX_CLOCK_SECONDS, MIN_CLOCK_SECONDS, date_text, get_commit, get_date, get_tmp_dir, normalize_history,
    normalize_message, ExtractAction, ExtractEvent, ExtractPhase, Extraction, ExtractionError,
    RawCommit,
};

fn raw(hash: &str, parent: Option<&str>, author: &str, committer: &str) -> RawCommit {
    RawCommit {
        hash: hash.to_string(),
        parent: parent.map(|p| p.to_string()),
        message: format!("commit {}\n", hash),
        time: CommitTime { seconds: 1_600_000_000, offset_minutes: 60 },
        author_email: Some(author.to_string()),
        author_name: Some("Author".to_string()),
        committer_email: Some(committer.to_string()),
        committer_name: Some("Committer".to_string()),
    }
}

fn release_path(a: &ExtractAction) -> String {
    match a {
        ExtractAction::ReleaseWorkspace(p) => p.clone(),
        other => panic!("expected a release, got {:?}", other),
    }
}

#[test]
fn workspace_and_clone_locations() {
    let name = "acme/widgets".to_string();
    assert_eq!(get_tmp_dir(&name), "/tmp/acme/widgets");
    assert_eq!(clone_url(&name), "https://github.com/acme/widgets");
    assert_eq!(branch_ref(&"main".to_string()), "refs/heads/main");
}

#[test]
fn message_trailing_newline_trimmed() {
    let n = |s: &str| normalize_message(&s.to_string());
    assert_eq!(n("Fix bug\n"), "Fix bug");
    assert_eq!(n("Fix bug"), "Fix bug");
    assert_eq!(n(""), "");
    assert_eq!(n("\n"), "");
    assert_eq!(n("a\n\nb\n"), "a\n\nb");
    assert_eq!(n("a\n\n"), "a\n");
}

#[test]
fn message_keeps_carriage_returns() {
    let n = |s: &str| normalize_message(&s.to_string());
    assert_eq!(n("a\r\nb\r\n"), "a\r\nb\r");
    assert_eq!(n("\r\na"), "\r\na");
    assert_eq!(n("a\rb"), "a\rb");
    assert_eq!(n("é\r\nü\n"), "é\r\nü");
}

#[test]
fn date_rfc2822_with_offsets() {
    let d = |seconds, offset_minutes| get_date(&CommitTime { seconds, offset_minutes });
    assert_eq!(d(0, 0), Some("Thu,  1 Jan 1970 00:00:00 +0000".to_string()));
    assert_eq!(d(0, 60), Some("Thu,  1 Jan 1970 01:00:00 +0100".to_string()));
    assert_eq!(d(1_600_000_000, -330), Some("Sun, 13 Sep 2020 06:56:40 -0530".to_string()));
}

#[test]
fn date_rejects_invalid_times() {
    assert_eq!(get_date(&CommitTime { seconds: 0, offset_minutes: 1440 }), None);
    assert_eq!(get_date(&CommitTime { seconds: i64::MAX, offset_minutes: 0 }), None);
    assert_eq!(get_date(&CommitTime { seconds: MAX_CLOCK_SECONDS + 1, offset_minutes: 0 }), None);
    assert_eq!(get_date(&CommitTime { seconds: MIN_CLOCK_SECONDS, offset_minutes: -1 }), None);
}

#[test]
fn date_covers_years_1601_to_9999() {
    assert_eq!(
        get_date(&CommitTime { seconds: MAX_CLOCK_SECONDS, offset_minutes: 0 }),
        Some("Fri, 31 Dec 9999 23:59:59 +0000".to_string())
    );
    assert_eq!(
        get_date(&CommitTime { seconds: MIN_CLOCK_SECONDS + 60, offset_minutes: -1 }),
        Some("Mon,  1 Jan 1601 00:00:00 -0001".to_string())
    );
}

#[test]
fn date_text_appends_zone() {
    assert_eq!(date_text(&"W".to_string(), 0), "W +0000");
    assert_eq!(date_text(&"W".to_string(), -1439), "W -2359");
    assert_eq!(date_text(&"W".to_string(), 605), "W +1005");
}

#[test]
fn commit_is_normalized() {
    let mut r = raw("c0", Some("c1"), "a@x.org", "b@x.org");
    r.message = "Subject\r\n\r\nBody\n".to_string();
    let c = get_commit(&r, &"acme/widgets".to_string()).unwrap();
    assert_eq!(c.hash, "c0");
    assert_eq!(c.tree, Some("c1".to_string()));
    assert_eq!(c.text, "Subject\r\n\r\nBody");
    assert_eq!(c.date, CommitTime { seconds: 1_600_000_000, offset_minutes: 60 });
    assert_eq!(c.author_email, "a@x.org");
    assert_eq!(c.author_name, "Author");
    assert_eq!(c.committer_email, "b@x.org");
    assert_eq!(c.committer_name, "Committer");
    assert_eq!(c.repository_url, "acme/widgets");
    let root = get_commit(&raw("c9", None, "a@x.org", "a@x.org"), &"acme/widgets".to_string());
    assert_eq!(root.unwrap().tree, None);
}

#[test]
fn commit_with_broken_identity_is_rejected() {
    let mut r = raw("c0", None, "a@x.org", "b@x.org");
    r.committer_email = None;
    assert!(get_commit(&r, &"a/b".to_string()).is_none());
    let mut t = raw("c0", None, "a@x.org", "b@x.org");
    t.time.offset_minutes = -2000;
    assert!(get_commit(&t, &"a/b".to_string()).is_none());
}

#[test]
fn history_fails_whole_on_one_bad_commit() {
    let mut bad = raw("c1", None, "a@x.org", "a@x.org");
    bad.author_name = None;
    let raws = vec![raw("c0", Some("c1"), "a@x.org", "a@x.org"), bad];
    assert!(normalize_history(&raws, &"a/b".to_string()).is_none());
    let good = vec![raw("c0", Some("c1"), "a@x.org", "a@x.org"), raw("c1", None, "b@x.org", "b@x.org")];
    let cs = normalize_history(&good, &"a/b".to_string()).unwrap();
    assert_eq!(cs.len(), 2);
    assert_eq!(cs[0].hash, "c0");
    assert_eq!(cs[1].hash, "c1");
}

#[test]
fn extraction_success_releases_then_finishes() {
    let (s, a) = Extraction::start("acme/widgets".to_string(), "main".to_string());
    match &a {
        ExtractAction::ClearWorkspace(p) => assert_eq!(p, "/tmp/acme/widgets"),
        other => panic!("{:?}", other),
    }
    let (s, a) = s.step(ExtractEvent::Cleared);
    match &a {
        ExtractAction::Clone { url, path } => {
            assert_eq!(url, "https://github.com/acme/widgets");
            assert_eq!(path, "/tmp/acme/widgets");
        },
        other => panic!("{:?}", other),
    }
    let (s, a) = s.step(ExtractEvent::Cloned);
    match &a {
        ExtractAction::SelectBranch { name, reference } => {
            assert_eq!(name, "main");
            assert_eq!(reference, "refs/heads/main");
        },
        other => panic!("{:?}", other),
    }
    let (s, a) = s.step(ExtractEvent::BranchSelected);
    assert!(matches!(a, ExtractAction::Walk));
    let raws = vec![raw("c0", Some("c1"), "a@x.org", "a@x.org"), raw("c1", None, "a@x.org", "a@x.org")];
    let (s, a) = s.step(ExtractEvent::Walked(raws));
    assert_eq!(release_path(&a), "/tmp/acme/widgets");
    assert_eq!(s.phase, ExtractPhase::Releasing);
    let (s, a) = s.step(ExtractEvent::Released);
    assert_eq!(s.phase, ExtractPhase::Finished);
    match a {
        ExtractAction::Finish(Ok(cs)) => {
            assert_eq!(cs.len(), 2);
            assert_eq!(cs[0].hash, "c0");
            assert_eq!(cs[0].repository_url, "acme/widgets");
        },
        other => panic!("{:?}", other),
    }
}

#[test]
fn extraction_clone_failure_releases_workspace() {
    let (s, _) = Extraction::start("acme/widgets".to_string(), "main".to_string());
    let (s, _) = s.step(ExtractEvent::Cleared);
    let (s, a) = s.step(ExtractEvent::CloneFailed("network down".to_string()));
    assert_eq!(release_path(&a), "/tmp/acme/widgets");
    let (_, a) = s.step(ExtractEvent::Released);
    assert!(matches!(a, ExtractAction::Finish(Err(ExtractionError::CloneFailed(ref m))) if m == "network down"));
}

#[test]
fn extraction_missing_branch_releases_workspace() {
    let (s, _) = Extraction::start("acme/widgets".to_string(), "nonexistent-branch".to_string());
    let (s, _) = s.step(ExtractEvent::Cleared);
    let (s, _) = s.step(ExtractEvent::Cloned);
    let (s, a) = s.step(ExtractEvent::BranchMissing("no such branch".to_string()));
    assert_eq!(release_path(&a), "/tmp/acme/widgets");
    let (_, a) = s.step(ExtractEvent::Released);
    assert!(matches!(a, ExtractAction::Finish(Err(ExtractionError::BranchNotFound(_)))));
}

#[test]
fn extraction_malformed_commit_releases_workspace() {
    let (s, _) = Extraction::start("a/b".to_string(), "main".to_string());
    let (s, _) = s.step(ExtractEvent::Cleared);
    let (s, _) = s.step(ExtractEvent::Cloned);
    let (s, _) = s.step(ExtractEvent::BranchSelected);
    let mut bad = raw("c0", None, "a@x.org", "a@x.org");
    bad.author_email = None;
    let (s, a) = s.step(ExtractEvent::Walked(vec![bad]));
    assert_eq!(release_path(&a), "/tmp/a/b");
    let (_, a) = s.step(ExtractEvent::Released);
    assert!(matches!(a, ExtractAction::Finish(Err(ExtractionError::MalformedCommit))));
}

#[test]
fn extraction_timeout_and_cancel_release_workspace() {
    let (s, _) = Extraction::start("a/b".to_string(), "main".to_string());
    let (s, a) = s.step(ExtractEvent::TimedOut);
    assert_eq!(release_path(&a), "/tmp/a/b");
    let (_, a) = s.step(ExtractEvent::Released);
    assert!(matches!(a, ExtractAction::Finish(Err(ExtractionError::TimedOut))));
    let (s, _) = Extraction::start("a/b".to_string(), "main".to_string());
    let (s, _) = s.step(ExtractEvent::Cleared);
    let (s, _) = s.step(ExtractEvent::Cloned);
    let (s, _) = s.step(ExtractEvent::BranchSelected);
    let (s, a) = s.step(ExtractEvent::Cancelled);
    assert_eq!(release_path(&a), "/tmp/a/b");
    let (_, a) = s.step(ExtractEvent::Released);
    assert!(matches!(a, ExtractAction::Finish(Err(ExtractionError::Cancelled))));
}

#[test]
fn extraction_unexpected_answer_releases_workspace() {
    let (s, _) = Extraction::start("a/b".to_string(), "main".to_string());
    let (s, _) = s.step(ExtractEvent::Cleared);
    let (s, a) = s.step(ExtractEvent::Walked(vec![]));
    assert_eq!(release_path(&a), "/tmp/a/b");
    let (_, a) = s.step(ExtractEvent::Released);
    assert!(matches!(a, ExtractAction::Finish(Err(ExtractionError::Unexpected))));
}
