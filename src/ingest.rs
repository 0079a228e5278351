//! The ingestion coordinator: one end-to-end onboarding of a repository, as
//! the decisions between the steps that its runner performs on the store and
//! the extractor. Any fatal failure after the repository row exists is
//! compensated by deleting that row.
use vstd::prelude::*;

use crate::branch::BranchData;
use crate::commit::Commit;
use crate::email::{identity_hash, Email, EmailData};
use crate::errors::{AppError, AppErrorType};
use crate::git::ExtractionError;
use crate::helpers::{name_of_git_repository, repo_name_of};
use crate::repository::{Repository, RepositoryData};

verus! {

/// The views of a sequence of texts.
pub open spec fn views(v: Seq<String>) -> Seq<Seq<char>> {
    v.map_values(|s: String| s@)
}

/// Every address that a history names as author or committer.
pub open spec fn addresses(cs: Seq<Commit>) -> Set<Seq<char>> {
    Set::new(
        |a: Seq<char>|
            exists|i: int|
                0 <= i < cs.len() && (#[trigger] cs[i].author_email@ == a || cs[i].committer_email@
                    == a),
    )
}

/// `ids` names every address of `cs` once and nothing else.
pub open spec fn lists_identities(cs: Seq<Commit>, ids: Seq<String>) -> bool {
    &&& views(ids).no_duplicates()
    &&& views(ids).to_set() == addresses(cs)
}

fn push_unique(list: &mut Vec<String>, s: &String)
    requires
        views(old(list)@).no_duplicates(),
    ensures
        views(final(list)@).no_duplicates(),
        views(final(list)@).to_set() == views(old(list)@).to_set().insert(s@),
{
    let ghost before = views(list@);
    let mut i: usize = 0;
    while i < list.len()
        invariant
            i <= list@.len(),
            views(list@) == before,
            before.no_duplicates(),
            forall|k: int| 0 <= k < i ==> list@[k]@ != s@,
        decreases list@.len() - i,
    {
        if list[i] == *s {
            proof {
                assert(before[i as int] == s@);
                assert(before.to_set().contains(s@));
                assert(before.to_set().insert(s@) =~= before.to_set());
            }
            return;
        }
        i += 1;
    }
    list.push(s.clone());
    proof {
        assert(views(list@) =~= before.push(s@));
        before.lemma_push_to_set_commute(s@);
        assert forall|a: int, b: int|
            0 <= a < b < views(list@).len() implies views(list@)[a] != views(list@)[b] by {
            if b == before.len() {
                assert(list@[a]@ != s@);
            }
        }
    }
}

/// The distinct contributor addresses of a history, authors and committers
/// alike, in the order of their first mention.
pub fn distinct_identities(cs: &Vec<Commit>) -> (r: Vec<String>)
    ensures
        lists_identities(cs@, r@),
        r@.len() == addresses(cs@).len(),
{
    let mut out: Vec<String> = Vec::new();
    let mut i: usize = 0;
    proof {
        assert(views(out@).to_set() =~= addresses(cs@.take(0)));
    }
    while i < cs.len()
        invariant
            i <= cs@.len(),
            lists_identities(cs@.take(i as int), out@),
        decreases cs@.len() - i,
    {
        let ghost prev = views(out@).to_set();
        push_unique(&mut out, &cs[i].author_email);
        push_unique(&mut out, &cs[i].committer_email);
        proof {
            let c = cs@[i as int];
            let next = cs@.take(i + 1);
            assert(next =~= cs@.take(i as int).push(c));
            assert(addresses(next) =~= addresses(cs@.take(i as int)).insert(c.author_email@).insert(
                c.committer_email@,
            )) by {
                assert forall|a: Seq<char>| addresses(next).contains(a) implies addresses(
                    cs@.take(i as int),
                ).insert(c.author_email@).insert(c.committer_email@).contains(a) by {
                    let k = choose|k: int|
                        0 <= k < next.len() && (#[trigger] next[k].author_email@ == a
                            || next[k].committer_email@ == a);
                    if k < i {
                        assert(cs@.take(i as int)[k] == next[k]);
                    }
                }
                assert forall|a: Seq<char>|
                    addresses(cs@.take(i as int)).insert(c.author_email@).insert(
                        c.committer_email@,
                    ).contains(a) implies addresses(next).contains(a) by {
                    if addresses(cs@.take(i as int)).contains(a) {
                        let k = choose|k: int|
                            0 <= k < i && (#[trigger] cs@.take(i as int)[k].author_email@ == a
                                || cs@.take(i as int)[k].committer_email@ == a);
                        assert(next[k] == cs@.take(i as int)[k]);
                    } else {
                        assert(next[i as int] == c);
                    }
                }
            }
        }
        i += 1;
    }
    proof {
        assert(cs@.take(i as int) =~= cs@);
        views(out@).unique_seq_to_set();
    }
    out
}

/// `d` is `c` stamped as a commit of the repository `url`.
pub open spec fn stamped(c: Commit, d: Commit, url: String) -> bool {
    d == Commit { repository_url: url, ..c }
}

/// `ds` is `cs` stamped one by one, in the same order.
pub open spec fn stamped_all(cs: Seq<Commit>, ds: Seq<Commit>, url: String) -> bool {
    &&& ds.len() == cs.len()
    &&& forall|i: int| 0 <= i < cs.len() ==> stamped(#[trigger] cs[i], ds[i], url)
}

/// The commits of a history stamped with the canonical id of the repository
/// that owns them; nothing else changes.
pub fn stamp_commits(cs: &Vec<Commit>, url: &String) -> (r: Vec<Commit>)
    ensures
        stamped_all(cs@, r@, *url),
{
    let mut out: Vec<Commit> = Vec::new();
    let mut i: usize = 0;
    while i < cs.len()
        invariant
            i <= cs@.len(),
            out@.len() == i,
            forall|k: int| 0 <= k < i ==> stamped(#[trigger] cs@[k], out@[k], *url),
        decreases cs@.len() - i,
    {
        let mut c = cs[i].duplicate();
        c.repository_url = url.clone();
        out.push(c);
        i += 1;
    }
    out
}

/// The set of hashes of a batch of commits.
pub open spec fn hashes(cs: Seq<Commit>) -> Set<Seq<char>> {
    Set::new(|h: Seq<char>| exists|i: int| 0 <= i < cs.len() && #[trigger] cs[i].hash@ == h)
}

/// Stamping a history keeps its set of hashes: what is persisted is exactly
/// what was extracted, whatever the order of insertion.
pub proof fn lemma_stamping_keeps_hashes(cs: Seq<Commit>, ds: Seq<Commit>, url: String)
    requires
        stamped_all(cs, ds, url),
    ensures
        hashes(ds) == hashes(cs),
        forall|i: int| 0 <= i < cs.len() ==> (#[trigger] ds[i]).hash == cs[i].hash,
{
    assert forall|h: Seq<char>| hashes(ds).contains(h) implies hashes(cs).contains(h) by {
        let i = choose|i: int| 0 <= i < ds.len() && #[trigger] ds[i].hash@ == h;
        assert(stamped(cs[i], ds[i], url));
        assert(cs[i].hash@ == h);
    }
    assert forall|h: Seq<char>| hashes(cs).contains(h) implies hashes(ds).contains(h) by {
        let i = choose|i: int| 0 <= i < cs.len() && #[trigger] cs[i].hash@ == h;
        assert(stamped(cs[i], ds[i], url));
        assert(ds[i].hash@ == h);
    }
    assert(hashes(ds) =~= hashes(cs));
    assert forall|i: int| 0 <= i < cs.len() implies (#[trigger] ds[i]).hash == cs[i].hash by {
        assert(stamped(cs[i], ds[i], url));
    }
}

/// What an ingestion reports back to its runner.
#[derive(Debug)]
pub enum IngestEvent {
    /// Whether a repository row with the canonical id exists.
    Lookup(bool),
    /// The repository row that was inserted.
    RepositoryInserted(Repository),
    /// The history that the extractor produced, tip first.
    Extracted(Vec<Commit>),
    ExtractionFailed(ExtractionError),
    /// The identity was inserted.
    IdentityRegistered,
    /// The identity was stored already; this counts as success.
    IdentityExisted,
    /// The rows that the bulk insert of commits returned.
    CommitsInserted(Vec<Commit>),
    BranchInserted(crate::branch::Branch),
    RepositoryDeleted,
    /// The store failed, with its own description of the failure.
    StorageFailed(String),
}

/// What an ingestion asks its runner to do next.
#[derive(Debug)]
pub enum IngestAction {
    /// Look up the repository row with this canonical id.
    LookupRepository(String),
    /// Insert a repository row with a fresh id.
    InsertRepository { url: String, uploader_ip: String },
    /// Extract the history of the branch.
    Extract { repo_name: String, branch: String },
    /// Insert this identity unless its address is stored already.
    RegisterIdentity(Email),
    /// Insert all these commits at once.
    InsertCommits(Vec<Commit>),
    InsertBranch(BranchData),
    /// Delete the repository row with this id (the compensation).
    DeleteRepository(u128),
    /// The ingestion is over, with this result.
    Finish(Result<Repository, AppError>),
}

/// Which action an ingestion waits on.
#[derive(Debug, Clone, Copy, PartialEq, Eq, Structural)]
pub enum IngestPhase {
    AwaitingLookup,
    AwaitingInsert,
    AwaitingExtraction,
    /// Registering the identity at this index of `identities`.
    RegisteringIdentity(usize),
    AwaitingCommits,
    AwaitingBranch,
    /// Deleting the repository row before reporting `failure`.
    RollingBack,
    Done,
}

/// One ingestion of a repository.
#[derive(Debug)]
pub struct Ingestion {
    /// The canonical `owner/name` identifier.
    pub url: String,
    pub branch: String,
    pub uploader_ip: Option<String>,
    pub phase: IngestPhase,
    /// The repository row, once inserted.
    pub repository: Option<Repository>,
    /// The extracted history, stamped with `url`.
    pub commits: Vec<Commit>,
    /// The distinct addresses of `commits`.
    pub identities: Vec<String>,
    /// The error to report once the compensation is done.
    pub failure: Option<AppError>,
}

/// The message of the error that a failed extraction ends an ingestion with.
pub open spec fn extraction_message(x: ExtractionError) -> Seq<char> {
    match x {
        ExtractionError::CloneFailed(_) => "Repository could not be cloned"@,
        ExtractionError::BranchNotFound(_) => "Branch not found"@,
        ExtractionError::WalkFailed(_) => "Repository history could not be read"@,
        ExtractionError::MalformedCommit => "Repository history holds a malformed commit"@,
        ExtractionError::TimedOut => "Repository extraction timed out"@,
        ExtractionError::Cancelled => "Repository extraction was cancelled"@,
        ExtractionError::Unexpected => "Repository extraction failed"@,
    }
}

/// The cause that a failed extraction reports: the outside description where
/// there is one, else nothing.
pub open spec fn extraction_cause(x: ExtractionError) -> Seq<char> {
    match x {
        ExtractionError::CloneFailed(c) => c@,
        ExtractionError::BranchNotFound(c) => c@,
        ExtractionError::WalkFailed(c) => c@,
        _ => Seq::empty(),
    }
}

/// `err` is the `GitError` that the failed extraction `x` is reported as.
pub open spec fn is_extraction_error(err: AppError, x: ExtractionError) -> bool {
    &&& is_error(err, AppErrorType::GitError, extraction_message(x))
    &&& err.cause matches Some(c) && c@ == extraction_cause(x)
}

/// `err` has the kind `t` and the message `m`.
pub open spec fn is_error(err: AppError, t: AppErrorType, m: Seq<char>) -> bool {
    &&& err.error_type == t
    &&& err.message matches Some(x) && x@ == m
}

/// The error that an event other than the awaited one stands for: a store
/// failure, or an answer that does not fit.
pub open spec fn stray_error(e: IngestEvent, err: AppError) -> bool {
    match e {
        IngestEvent::StorageFailed(c) => err.error_type == AppErrorType::DbError && err.message
            is None && err.cause == Some(c),
        _ => is_error(err, AppErrorType::DbError, "Unexpected response"@),
    }
}

/// `s2` is over and `a` reports an error that `p` holds of.
pub open spec fn ends_with_error(s2: Ingestion, a: IngestAction, p: spec_fn(AppError) -> bool) -> bool {
    &&& s2.phase == IngestPhase::Done
    &&& a matches IngestAction::Finish(Err(err)) && p(err)
}

/// `s2` deletes the repository row of `s`, then reports an error that `p`
/// holds of.
pub open spec fn rolls_back(s: Ingestion, s2: Ingestion, a: IngestAction, p: spec_fn(AppError) -> bool) -> bool {
    &&& s2.phase == IngestPhase::RollingBack
    &&& s2.repository == s.repository
    &&& s2.failure matches Some(err) && p(err)
    &&& s.repository matches Some(r) && a == IngestAction::DeleteRepository(r.id)
}

/// `s2` keeps the repository, history and identities of `s`.
pub open spec fn keeps(s: Ingestion, s2: Ingestion) -> bool {
    &&& s2.repository == s.repository
    &&& s2.commits@ == s.commits@
    &&& s2.identities@ == s.identities@
    &&& s2.failure is None
}

/// `a` registers the identity of the address `addr`.
pub open spec fn registers(a: IngestAction, addr: Seq<char>) -> bool {
    a matches IngestAction::RegisterIdentity(m) && m.email@ == addr && m.hash_md5@ == identity_hash(
        addr,
    )
}

/// One step of an ingestion: in state `s` the event `e` leads to state `s2`
/// and the action `a`.
#[verifier::opaque]
pub open spec fn ingest_next(s: Ingestion, e: IngestEvent, s2: Ingestion, a: IngestAction) -> bool {
    &&& s2.identities@.len() <= usize::MAX
    &&& s2.url == s.url
    &&& s2.branch == s.branch
    &&& s2.uploader_ip == s.uploader_ip
    &&& match s.phase {
        IngestPhase::AwaitingLookup => match e {
            IngestEvent::Lookup(true) => ends_with_error(
                s2,
                a,
                |err: AppError|
                    is_error(err, AppErrorType::AlreadyExistsError, "Repository already exists"@),
            ),
            IngestEvent::Lookup(false) => match s.uploader_ip {
                None => ends_with_error(
                    s2,
                    a,
                    |err: AppError|
                        is_error(
                            err,
                            AppErrorType::AuthorizationError,
                            "Failed to fetch uploader ip"@,
                        ),
                ),
                Some(ip) => {
                    &&& s2.phase == IngestPhase::AwaitingInsert
                    &&& s2.repository is None
                    &&& s2.failure is None
                    &&& a matches IngestAction::InsertRepository { url, uploader_ip } && url
                        == s.url && uploader_ip == ip
                },
            },
            _ => ends_with_error(s2, a, |err: AppError| stray_error(e, err)),
        },
        IngestPhase::AwaitingInsert => match e {
            IngestEvent::RepositoryInserted(r) => {
                &&& s2.phase == IngestPhase::AwaitingExtraction
                &&& s2.repository == Some(r)
                &&& s2.failure is None
                &&& a matches IngestAction::Extract { repo_name, branch } && repo_name == s.url
                    && branch == s.branch
            },
            _ => ends_with_error(s2, a, |err: AppError| stray_error(e, err)),
        },
        IngestPhase::AwaitingExtraction => match e {
            IngestEvent::Extracted(cs) => if cs@.len() == 0 {
                rolls_back(
                    s,
                    s2,
                    a,
                    |err: AppError| is_error(err, AppErrorType::DbError, "The history holds no commit"@),
                )
            } else {
                &&& s2.phase == IngestPhase::RegisteringIdentity(0)
                &&& s2.repository == s.repository
                &&& s2.failure is None
                &&& stamped_all(cs@, s2.commits@, s.url)
                &&& lists_identities(s2.commits@, s2.identities@)
                &&& s2.identities@.len() > 0
                &&& registers(a, s2.identities@[0]@)
            },
            IngestEvent::ExtractionFailed(x) => rolls_back(
                s,
                s2,
                a,
                |err: AppError| is_extraction_error(err, x),
            ),
            _ => rolls_back(s, s2, a, |err: AppError| stray_error(e, err)),
        },
        IngestPhase::RegisteringIdentity(i) => match e {
            IngestEvent::IdentityRegistered | IngestEvent::IdentityExisted => if i + 1
                < s.identities@.len() {
                &&& s2.phase == IngestPhase::RegisteringIdentity((i + 1) as usize)
                &&& keeps(s, s2)
                &&& registers(a, s.identities@[i + 1]@)
            } else {
                &&& s2.phase == IngestPhase::AwaitingCommits
                &&& keeps(s, s2)
                &&& a matches IngestAction::InsertCommits(b) && b@ == s.commits@
            },
            _ => rolls_back(s, s2, a, |err: AppError| stray_error(e, err)),
        },
        IngestPhase::AwaitingCommits => match e {
            IngestEvent::CommitsInserted(rows) => if rows@.len() == 0 {
                rolls_back(
                    s,
                    s2,
                    a,
                    |err: AppError| is_error(err, AppErrorType::DbError, "Error creating commits"@),
                )
            } else {
                &&& s2.phase == IngestPhase::AwaitingBranch
                &&& keeps(s, s2)
                &&& s.repository matches Some(r) && a matches IngestAction::InsertBranch(d) && d.name
                    == s.branch && d.repository_id == r.id && d.head == s.commits@[0].hash
            },
            _ => rolls_back(s, s2, a, |err: AppError| stray_error(e, err)),
        },
        IngestPhase::AwaitingBranch => {
            &&& s2.phase == IngestPhase::Done
            &&& s.repository matches Some(r) && a == IngestAction::Finish(Ok(r))
        },
        IngestPhase::RollingBack => {
            &&& s2.phase == IngestPhase::Done
            &&& s.failure matches Some(err) && a == IngestAction::Finish(Err(err))
        },
        IngestPhase::Done => false,
    }
}

fn duplicate_all(cs: &Vec<Commit>) -> (r: Vec<Commit>)
    ensures
        r@ == cs@,
{
    let mut out: Vec<Commit> = Vec::new();
    let mut i: usize = 0;
    while i < cs.len()
        invariant
            i <= cs@.len(),
            out@ == cs@.take(i as int),
        decreases cs@.len() - i,
    {
        out.push(cs[i].duplicate());
        proof {
            assert(cs@.take(i + 1) =~= cs@.take(i as int).push(cs@[i as int]));
        }
        i += 1;
    }
    assert(cs@.take(i as int) =~= cs@);
    out
}

fn stray(e: IngestEvent) -> (r: AppError)
    ensures
        stray_error(e, r),
{
    match e {
        IngestEvent::StorageFailed(c) => AppError::db(c),
        _ => AppError::new(AppErrorType::DbError, "Unexpected response", String::new()),
    }
}

fn extraction_error(x: ExtractionError) -> (r: AppError)
    ensures
        is_extraction_error(r, x),
{
    match x {
        ExtractionError::CloneFailed(c) => AppError::new(
            AppErrorType::GitError,
            "Repository could not be cloned",
            c,
        ),
        ExtractionError::BranchNotFound(c) => AppError::new(AppErrorType::GitError, "Branch not found", c),
        ExtractionError::WalkFailed(c) => AppError::new(
            AppErrorType::GitError,
            "Repository history could not be read",
            c,
        ),
        ExtractionError::MalformedCommit => AppError::new(
            AppErrorType::GitError,
            "Repository history holds a malformed commit",
            String::new(),
        ),
        ExtractionError::TimedOut => AppError::new(
            AppErrorType::GitError,
            "Repository extraction timed out",
            String::new(),
        ),
        ExtractionError::Cancelled => AppError::new(
            AppErrorType::GitError,
            "Repository extraction was cancelled",
            String::new(),
        ),
        ExtractionError::Unexpected => AppError::new(
            AppErrorType::GitError,
            "Repository extraction failed",
            String::new(),
        ),
    }
}

fn register(addr: &String) -> (r: IngestAction)
    ensures
        registers(r, addr@),
{
    IngestAction::RegisterIdentity(Email::new(&EmailData { email: addr.clone() }))
}

impl Ingestion {
    /// The repository row exists from its insertion to the end; a failure is
    /// held exactly while the row is being deleted; past extraction the
    /// history is not empty and its identities are listed once each.
    pub open spec fn wf(&self) -> bool {
        &&& match self.phase {
            IngestPhase::AwaitingLookup | IngestPhase::AwaitingInsert => self.repository is None,
            IngestPhase::Done => true,
            _ => self.repository is Some,
        }
        &&& (self.phase == IngestPhase::RollingBack) == (self.failure is Some)
        &&& (self.phase matches IngestPhase::RegisteringIdentity(i) ==> i < self.identities@.len())
        &&& self.identities@.len() <= usize::MAX
        &&& (self.phase is RegisteringIdentity || self.phase == IngestPhase::AwaitingCommits
            || self.phase == IngestPhase::AwaitingBranch) ==> self.commits@.len() > 0
            && lists_identities(self.commits@, self.identities@)
    }

    /// Begin the ingestion of the repository that `data.url` names, at the
    /// branch `data.branch`, on behalf of `uploader_ip`: resolve the URL, then
    /// look the repository up.
    pub fn start(data: &RepositoryData, uploader_ip: Option<String>) -> (r: (Ingestion, IngestAction))
        ensures
            r.0.wf(),
            r.0.repository is None,
            r.0.branch@ == data.branch@,
            r.0.uploader_ip == uploader_ip,
            repo_name_of(data.url@) is None ==> ends_with_error(
                r.0,
                r.1,
                |err: AppError| is_error(err, AppErrorType::NotFoundError, "Repository not found"@),
            ),
            repo_name_of(data.url@) matches Some(n) ==> {
                &&& r.0.phase == IngestPhase::AwaitingLookup
                &&& r.0.url@ == n
                &&& r.0.repository is None
                &&& r.1 == IngestAction::LookupRepository(r.0.url)
            },
    {
        let (url, phase, action) = match name_of_git_repository(&data.url) {
            Some(n) => {
                let lookup = IngestAction::LookupRepository(n.clone());
                (n, IngestPhase::AwaitingLookup, lookup)
            },
            None => (
                String::new(),
                IngestPhase::Done,
                IngestAction::Finish(
                    Err(
                        AppError::new(
                            AppErrorType::NotFoundError,
                            "Repository not found",
                            String::new(),
                        ),
                    ),
                ),
            ),
        };
        (
            Ingestion {
                url,
                branch: data.branch.clone(),
                uploader_ip,
                phase,
                repository: None,
                commits: Vec::new(),
                identities: Vec::new(),
                failure: None,
            },
            action,
        )
    }

    fn fail(self, err: AppError) -> (r: (Ingestion, IngestAction))
        ensures
            r.0.phase == IngestPhase::Done,
            r.0.failure is None,
            r.0.identities@ == self.identities@,
            r.0.url == self.url,
            r.0.branch == self.branch,
            r.0.uploader_ip == self.uploader_ip,
            r.1 == IngestAction::Finish(Err(err)),
    {
        (
            Ingestion { phase: IngestPhase::Done, failure: None, ..self },
            IngestAction::Finish(Err(err)),
        )
    }

    fn roll_back(self, err: AppError) -> (r: (Ingestion, IngestAction))
        requires
            self.repository is Some,
        ensures
            r.0.phase == IngestPhase::RollingBack,
            r.0.url == self.url,
            r.0.branch == self.branch,
            r.0.uploader_ip == self.uploader_ip,
            r.0.repository == self.repository,
            r.0.failure == Some(err),
            r.0.identities@ == self.identities@,
            r.1 == IngestAction::DeleteRepository(self.repository->0.id),
    {
        let id = match &self.repository {
            Some(r) => r.id,
            None => 0,
        };
        (
            Ingestion { phase: IngestPhase::RollingBack, failure: Some(err), ..self },
            IngestAction::DeleteRepository(id),
        )
    }

    /// Take the runner's report on the pending action and decide the next one.
    pub fn step(self, event: IngestEvent) -> (r: (Ingestion, IngestAction))
        requires
            self.wf(),
            self.phase != IngestPhase::Done,
        ensures
            r.0.wf(),
            ingest_next(self, event, r.0, r.1),
    {
        proof {
            reveal(ingest_next);
        }
        match self.phase {
            IngestPhase::AwaitingLookup => match event {
                IngestEvent::Lookup(true) => self.fail(
                    AppError::new(
                        AppErrorType::AlreadyExistsError,
                        "Repository already exists",
                        String::new(),
                    ),
                ),
                IngestEvent::Lookup(false) => {
                    let ip = match &self.uploader_ip {
                        Some(ip) => Some(ip.clone()),
                        None => None,
                    };
                    match ip {
                        None => self.fail(
                            AppError::new(
                                AppErrorType::AuthorizationError,
                                "Failed to fetch uploader ip",
                                String::new(),
                            ),
                        ),
                        Some(uploader_ip) => {
                            let url = self.url.clone();
                            (
                                Ingestion { phase: IngestPhase::AwaitingInsert, ..self },
                                IngestAction::InsertRepository { url, uploader_ip },
                            )
                        },
                    }
                },
                _ => {
                    let err = stray(event);
                    self.fail(err)
                },
            },
            IngestPhase::AwaitingInsert => match event {
                IngestEvent::RepositoryInserted(r) => {
                    let repo_name = self.url.clone();
                    let branch = self.branch.clone();
                    (
                        Ingestion {
                            phase: IngestPhase::AwaitingExtraction,
                            repository: Some(r),
                            ..self
                        },
                        IngestAction::Extract { repo_name, branch },
                    )
                },
                _ => {
                    let err = stray(event);
                    self.fail(err)
                },
            },
            IngestPhase::AwaitingExtraction => match event {
                IngestEvent::Extracted(cs) => {
                    if cs.len() == 0 {
                        return self.roll_back(
                            AppError::new(
                                AppErrorType::DbError,
                                "The history holds no commit",
                                String::new(),
                            ),
                        );
                    }
                    let commits = stamp_commits(&cs, &self.url);
                    let identities = distinct_identities(&commits);
                    proof {
                        let a = commits@[0].author_email@;
                        assert(addresses(commits@).contains(a));
                        assert(views(identities@).to_set().contains(a));
                    }
                    let count = identities.len();
                    assert(count == identities@.len());
                    let action = register(&identities[0]);
                    (
                        Ingestion {
                            phase: IngestPhase::RegisteringIdentity(0),
                            commits,
                            identities,
                            ..self
                        },
                        action,
                    )
                },
                IngestEvent::ExtractionFailed(x) => {
                    let err = extraction_error(x);
                    self.roll_back(err)
                },
                _ => {
                    let err = stray(event);
                    self.roll_back(err)
                },
            },
            IngestPhase::RegisteringIdentity(i) => match event {
                IngestEvent::IdentityRegistered | IngestEvent::IdentityExisted => {
                    if i < self.identities.len() - 1 {
                        let action = register(&self.identities[i + 1]);
                        (Ingestion { phase: IngestPhase::RegisteringIdentity(i + 1), ..self }, action)
                    } else {
                        let batch = duplicate_all(&self.commits);
                        (
                            Ingestion { phase: IngestPhase::AwaitingCommits, ..self },
                            IngestAction::InsertCommits(batch),
                        )
                    }
                },
                _ => {
                    let err = stray(event);
                    self.roll_back(err)
                },
            },
            IngestPhase::AwaitingCommits => match event {
                IngestEvent::CommitsInserted(rows) => {
                    if rows.len() == 0 {
                        return self.roll_back(
                            AppError::new(
                                AppErrorType::DbError,
                                "Error creating commits",
                                String::new(),
                            ),
                        );
                    }
                    let repository_id = match &self.repository {
                        Some(r) => r.id,
                        None => 0,
                    };
                    let data = BranchData {
                        name: self.branch.clone(),
                        repository_id,
                        head: self.commits[0].hash.clone(),
                    };
                    (
                        Ingestion { phase: IngestPhase::AwaitingBranch, ..self },
                        IngestAction::InsertBranch(data),
                    )
                },
                _ => {
                    let err = stray(event);
                    self.roll_back(err)
                },
            },
            IngestPhase::AwaitingBranch => {
                let Ingestion { url, branch, uploader_ip, repository, .. } = self;
                let repo = repository.unwrap();
                (
                    Ingestion {
                        url,
                        branch,
                        uploader_ip,
                        phase: IngestPhase::Done,
                        repository: None,
                        commits: Vec::new(),
                        identities: Vec::new(),
                        failure: None,
                    },
                    IngestAction::Finish(Ok(repo)),
                )
            },
            _ => {
                let Ingestion { url, branch, uploader_ip, repository, failure, .. } = self;
                let err = failure.unwrap();
                (
                    Ingestion {
                        url,
                        branch,
                        uploader_ip,
                        phase: IngestPhase::Done,
                        repository,
                        commits: Vec::new(),
                        identities: Vec::new(),
                        failure: None,
                    },
                    IngestAction::Finish(Err(err)),
                )
            },
        }
    }
}

/// Registering an address that is stored already counts as success: the
/// ingestion goes on exactly as if the address had just been inserted.
pub proof fn lemma_existing_identity_is_success(s: Ingestion, s2: Ingestion, a: IngestAction)
    requires
        s.phase is RegisteringIdentity,
    ensures
        ingest_next(s, IngestEvent::IdentityExisted, s2, a) == ingest_next(
            s,
            IngestEvent::IdentityRegistered,
            s2,
            a,
        ),
{
    reveal(ingest_next);
}

/// A repository row is only ever inserted right after the lookup found no
/// row for the canonical id.
pub proof fn lemma_insert_only_after_absent_lookup(
    s: Ingestion,
    e: IngestEvent,
    s2: Ingestion,
    a: IngestAction,
)
    requires
        ingest_next(s, e, s2, a),
        a is InsertRepository,
    ensures
        s.phase == IngestPhase::AwaitingLookup,
        e == IngestEvent::Lookup(false),
{
    reveal(ingest_next);
}

/// When the extraction fails after the repository row was created, the next
/// action deletes that row, and whatever the deletion's outcome the ingestion
/// then ends with a `GitError` that carries the extraction's cause.
pub proof fn lemma_extraction_failure_compensates(
    s: Ingestion,
    x: ExtractionError,
    s2: Ingestion,
    a: IngestAction,
    e2: IngestEvent,
    s3: Ingestion,
    a3: IngestAction,
)
    requires
        s.wf(),
        s.phase == IngestPhase::AwaitingExtraction,
        ingest_next(s, IngestEvent::ExtractionFailed(x), s2, a),
        ingest_next(s2, e2, s3, a3),
    ensures
        s.repository matches Some(r) && a == IngestAction::DeleteRepository(r.id),
        s3.phase == IngestPhase::Done,
        a3 matches IngestAction::Finish(Err(err)) && is_extraction_error(err, x),
{
    reveal(ingest_next);
}

/// No ingestion reports an error while a repository row that it created
/// stands: an error comes either before any row was inserted or right after
/// the deletion of the row was asked for, and that deletion is the action
/// with which every compensation starts.
pub proof fn lemma_errors_follow_compensation(
    s: Ingestion,
    e: IngestEvent,
    s2: Ingestion,
    a: IngestAction,
)
    requires
        s.wf(),
        ingest_next(s, e, s2, a),
    ensures
        a matches IngestAction::Finish(Err(_)) ==> s.repository is None || s.phase
            == IngestPhase::RollingBack,
        s2.phase == IngestPhase::RollingBack && s.phase != IngestPhase::RollingBack ==> (s.repository matches Some(r)
            && a == IngestAction::DeleteRepository(r.id)),
{
    reveal(ingest_next);
}

/// The batch handed to the bulk insert is the history that registration
/// started from, unchanged.
pub proof fn lemma_batch_is_history(s: Ingestion, e: IngestEvent, s2: Ingestion, a: IngestAction)
    requires
        s.wf(),
        ingest_next(s, e, s2, a),
    ensures
        a matches IngestAction::InsertCommits(b) ==> b@ == s.commits@,
        s.phase is RegisteringIdentity && s2.phase != IngestPhase::RollingBack ==> s2.commits@
            == s.commits@,
{
    reveal(ingest_next);
}

/// The history kept for persistence is the extracted one, stamped with the
/// repository: the same hashes in the same order, tip first.
pub proof fn lemma_extracted_hashes_kept(
    s: Ingestion,
    cs: Vec<Commit>,
    s2: Ingestion,
    a: IngestAction,
)
    requires
        s.phase == IngestPhase::AwaitingExtraction,
        ingest_next(s, IngestEvent::Extracted(cs), s2, a),
        cs@.len() > 0,
    ensures
        hashes(s2.commits@) == hashes(cs@),
        forall|i: int| 0 <= i < cs@.len() ==> (#[trigger] s2.commits@[i]).hash == cs@[i].hash,
{
    reveal(ingest_next);
    lemma_stamping_keeps_hashes(cs@, s2.commits@, s.url);
}

/// The branch pointer names the requested branch of the ingested repository
/// and points at the first commit of the history, its tip.
pub proof fn lemma_branch_head_is_tip(s: Ingestion, e: IngestEvent, s2: Ingestion, a: IngestAction)
    requires
        s.wf(),
        ingest_next(s, e, s2, a),
        a is InsertBranch,
    ensures
        s.phase == IngestPhase::AwaitingCommits,
        s.commits@.len() > 0,
        s.repository matches Some(r) && a matches IngestAction::InsertBranch(d) && d.head
            == s.commits@[0].hash && d.name == s.branch && d.repository_id == r.id,
{
    reveal(ingest_next);
}

/// The repository rows of a store, by id, each with its canonical id, after
/// the action `a` was answered with `e` by a store that does what it reports.
pub open spec fn rows_after(rows: Map<u128, Seq<char>>, a: IngestAction, e: IngestEvent) -> Map<
    u128,
    Seq<char>,
> {
    match (a, e) {
        (IngestAction::InsertRepository { url, .. }, IngestEvent::RepositoryInserted(r)) => rows.insert(
            r.id,
            url@,
        ),
        (IngestAction::DeleteRepository(id), IngestEvent::RepositoryDeleted) => rows.remove(id),
        _ => rows,
    }
}

/// An ingestion of a canonical id that no row holds, whose extraction fails,
/// ends with a `GitError` and leaves the store's repository rows as they were,
/// so that still no row holds that id.
pub proof fn lemma_failed_extraction_leaves_no_row(
    rows: Map<u128, Seq<char>>,
    s0: Ingestion,
    s1: Ingestion,
    a1: IngestAction,
    r: Repository,
    s2: Ingestion,
    a2: IngestAction,
    x: ExtractionError,
    s3: Ingestion,
    a3: IngestAction,
    s4: Ingestion,
    a4: IngestAction,
)
    requires
        s0.wf(),
        s0.phase == IngestPhase::AwaitingLookup,
        !rows.values().contains(s0.url@),
        !rows.contains_key(r.id),
        ingest_next(s0, IngestEvent::Lookup(false), s1, a1),
        ingest_next(s1, IngestEvent::RepositoryInserted(r), s2, a2),
        ingest_next(s2, IngestEvent::ExtractionFailed(x), s3, a3),
        ingest_next(s3, IngestEvent::RepositoryDeleted, s4, a4),
    ensures
        a4 matches IngestAction::Finish(Err(err)) && err.error_type == AppErrorType::GitError,
        rows_after(
            rows_after(
                rows_after(rows_after(rows, a1, IngestEvent::RepositoryInserted(r)), a2, IngestEvent::ExtractionFailed(x)),
                a3,
                IngestEvent::RepositoryDeleted,
            ),
            a4,
            IngestEvent::RepositoryDeleted,
        ) == rows,
{
    reveal(ingest_next);
    let created = rows_after(rows, a1, IngestEvent::RepositoryInserted(r));
    assert(created == rows.insert(r.id, s0.url@));
    assert(created.remove(r.id) =~= rows);
}

/// A second ingestion of a canonical id that a row holds already ends with
/// the conflict error and leaves the store's repository rows as they were:
/// the id keeps its single row.
pub proof fn lemma_second_ingestion_adds_no_row(
    rows: Map<u128, Seq<char>>,
    s0: Ingestion,
    s1: Ingestion,
    a1: IngestAction,
)
    requires
        s0.phase == IngestPhase::AwaitingLookup,
        rows.values().contains(s0.url@),
        ingest_next(s0, IngestEvent::Lookup(true), s1, a1),
    ensures
        s1.phase == IngestPhase::Done,
        a1 matches IngestAction::Finish(Err(err)) && err.error_type == AppErrorType::AlreadyExistsError,
        rows_after(rows, a1, IngestEvent::Lookup(true)) == rows,
{
    reveal(ingest_next);
}

proof fn lemma_registration_starts(s: Ingestion, cs: Vec<Commit>, s2: Ingestion, a: IngestAction)
    requires
        ingest_next(s, IngestEvent::Extracted(cs), s2, a),
        s.phase == IngestPhase::AwaitingExtraction,
        cs@.len() > 0,
    ensures
        s2.phase == IngestPhase::RegisteringIdentity(0),
        s2.identities@.len() > 0,
        registers(a, s2.identities@[0]@),
        stamped_all(cs@, s2.commits@, s.url),
        lists_identities(s2.commits@, s2.identities@),
{
    reveal(ingest_next);
}

proof fn lemma_registration_continues(s: Ingestion, e: IngestEvent, s2: Ingestion, a: IngestAction)
    requires
        ingest_next(s, e, s2, a),
        s.phase is RegisteringIdentity,
        e is IdentityRegistered || e is IdentityExisted,
    ensures
        s.phase->RegisteringIdentity_0 + 1 < s.identities@.len() ==> {
            &&& s2.phase is RegisteringIdentity
            &&& s2.phase->RegisteringIdentity_0 == s.phase->RegisteringIdentity_0 + 1
            &&& s2.identities@ == s.identities@
            &&& s2.commits@ == s.commits@
            &&& registers(a, s.identities@[s.phase->RegisteringIdentity_0 + 1]@)
        },
        s.phase->RegisteringIdentity_0 + 1 >= s.identities@.len() ==> a is InsertCommits,
{
    reveal(ingest_next);
}

/// `states`, `events` and `actions` form a run: each state steps by its event
/// to the next state and the next action.
pub open spec fn is_run(states: Seq<Ingestion>, events: Seq<IngestEvent>, actions: Seq<IngestAction>) -> bool {
    &&& states.len() == events.len() + 1
    &&& actions.len() == states.len()
    &&& forall|k: int|
        0 <= k < events.len() ==> ingest_next(
            #[trigger] states[k],
            events[k],
            states[k + 1],
            actions[k + 1],
        )
}

/// A run that starts at a non-empty extracted history and answers only
/// registrations: after `k` steps it registers the `k`-th distinct address.
proof fn lemma_registration_prefix(
    states: Seq<Ingestion>,
    events: Seq<IngestEvent>,
    actions: Seq<IngestAction>,
    cs: Vec<Commit>,
    k: int,
)
    requires
        is_run(states, events, actions),
        1 <= k < states.len(),
        states[0].phase == IngestPhase::AwaitingExtraction,
        events[0] == IngestEvent::Extracted(cs),
        cs@.len() > 0,
        forall|j: int|
            1 <= j < k ==> (#[trigger] events[j] is IdentityRegistered || events[j] is IdentityExisted),
        forall|j: int| 1 <= j <= k ==> #[trigger] actions[j] is RegisterIdentity,
    ensures
        states[k].phase is RegisteringIdentity,
        states[k].phase->RegisteringIdentity_0 == k - 1,
        k - 1 < states[1].identities@.len(),
        states[k].identities@ == states[1].identities@,
        states[k].commits@ == states[1].commits@,
        registers(actions[k], states[1].identities@[k - 1]@),
    decreases k,
{
    assert(ingest_next(states[0], events[0], states[1], actions[1]));
    lemma_registration_starts(states[0], cs, states[1], actions[1]);
    if k > 1 {
        lemma_registration_prefix(states, events, actions, cs, k - 1);
        assert(ingest_next(states[k - 1], events[k - 1], states[k], actions[k]));
        assert(actions[k] is RegisterIdentity);
        lemma_registration_continues(states[k - 1], events[k - 1], states[k], actions[k]);
    }
}

/// Over the whole registration of a history's identities, one registration
/// is asked for per distinct address of the history, each address once: for
/// `N` commits that name `M` addresses, exactly `M` registrations, not one per
/// mention.
pub proof fn lemma_registrations_match_addresses(
    states: Seq<Ingestion>,
    events: Seq<IngestEvent>,
    actions: Seq<IngestAction>,
    cs: Vec<Commit>,
)
    requires
        is_run(states, events, actions),
        events.len() >= 1,
        states[0].phase == IngestPhase::AwaitingExtraction,
        events[0] == IngestEvent::Extracted(cs),
        cs@.len() > 0,
        forall|j: int|
            1 <= j < events.len() ==> (#[trigger] events[j] is IdentityRegistered || events[j]
                is IdentityExisted),
        forall|j: int| 1 <= j < events.len() ==> #[trigger] actions[j] is RegisterIdentity,
        actions[events.len() as int] is InsertCommits,
    ensures
        events.len() - 1 == addresses(cs@).len(),
        forall|j: int|
            1 <= j < events.len() ==> registers(#[trigger] actions[j], states[1].identities@[j - 1]@),
        views(states[1].identities@).no_duplicates(),
        views(states[1].identities@).to_set() == addresses(cs@),
{
    let n = events.len() as int;
    assert(ingest_next(states[0], events[0], states[1], actions[1]));
    lemma_registration_starts(states[0], cs, states[1], actions[1]);
    let ids = states[1].identities@;
    let kept = states[1].commits@;
    assert(addresses(kept) =~= addresses(cs@)) by {
        assert forall|a: Seq<char>| addresses(cs@).contains(a) implies addresses(kept).contains(a) by {
            let i = choose|i: int|
                0 <= i < cs@.len() && (#[trigger] cs@[i].author_email@ == a || cs@[i].committer_email@
                    == a);
            assert(stamped(cs@[i], kept[i], states[0].url));
            assert(kept[i].author_email == cs@[i].author_email);
            assert(kept[i].committer_email == cs@[i].committer_email);
        }
        assert forall|a: Seq<char>| addresses(kept).contains(a) implies addresses(cs@).contains(a) by {
            let i = choose|i: int|
                0 <= i < kept.len() && (#[trigger] kept[i].author_email@ == a || kept[i].committer_email@
                    == a);
            assert(stamped(cs@[i], kept[i], states[0].url));
            assert(kept[i].author_email == cs@[i].author_email);
            assert(kept[i].committer_email == cs@[i].committer_email);
        }
    }
    views(ids).unique_seq_to_set();
    assert forall|j: int| 1 <= j < n implies registers(#[trigger] actions[j], ids[j - 1]@) by {
        lemma_registration_prefix(states, events, actions, cs, j);
    }
    if n == 1 {
        assert(actions[1] is RegisterIdentity);
    } else {
        lemma_registration_prefix(states, events, actions, cs, n - 1);
        assert(ingest_next(states[n - 1], events[n - 1], states[n], actions[n]));
        lemma_registration_continues(states[n - 1], events[n - 1], states[n], actions[n]);
    }
}

} // verus!
