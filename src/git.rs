//! The history extractor: the workspace and clone locations of a repository,
//! the normalization of raw commits, and the protocol that acquires a
//! transient clone, walks it and always releases it.
use vstd::prelude::*;

use crate::commit::{Commit, CommitTime};
use crate::helpers::{decimal_digit, push_digit};

verus! {

/// The transient workspace of a repository: `/tmp/<owner>/<name>`.
pub open spec fn tmp_dir_of(repo_name: Seq<char>) -> Seq<char> {
    "/tmp/"@ + repo_name
}

/// Return the temporary folder of the git repository.
pub fn get_tmp_dir(repo_name: &String) -> (r: String)
    ensures
        r@ == tmp_dir_of(repo_name@),
{
    String::from_str("/tmp/").concat(repo_name.as_str())
}

/// The URL that a repository is cloned from. Only the one host is used.
pub fn clone_url(repo_name: &String) -> (r: String)
    ensures
        r@ == "https://github.com/"@ + repo_name@,
{
    String::from_str("https://github.com/").concat(repo_name.as_str())
}

/// The reference of a local branch.
pub fn branch_ref(branch: &String) -> (r: String)
    ensures
        r@ == "refs/heads/"@ + branch@,
{
    String::from_str("refs/heads/").concat(branch.as_str())
}

/// The stored text of a commit message: the full message, with one final
/// line feed removed where it ends with one.
pub open spec fn commit_text(message: Seq<char>) -> Seq<char> {
    if message.len() > 0 && message.last() == '\n' {
        message.drop_last()
    } else {
        message
    }
}

/// The text of a commit message as it is stored (see [`commit_text`]).
pub fn normalize_message(message: &String) -> (r: String)
    ensures
        r@ == commit_text(message@),
{
    let s = message.as_str();
    let len = s.unicode_len();
    if len > 0 && s.get_char(len - 1) == '\n' {
        let trimmed = String::from_str(s.substring_char(0, len - 1));
        assert(trimmed@ =~= message@.drop_last());
        trimmed
    } else {
        message.clone()
    }
}

/// The earliest wall-clock time that is rendered: 1601-01-01 00:00:00, in
/// seconds from the epoch.
pub const MIN_CLOCK_SECONDS: i64 = -11_644_473_600;

/// The latest wall-clock time that is rendered: 9999-12-31 23:59:59, in
/// seconds from the epoch.
pub const MAX_CLOCK_SECONDS: i64 = 253_402_300_799;

/// The largest offset from UTC, in minutes, that a commit time may carry.
pub const MAX_OFFSET_MINUTES: i32 = 1439;

/// The commit's wall-clock time, in seconds, at its own offset.
pub open spec fn local_seconds(t: CommitTime) -> int {
    t.seconds + t.offset_minutes * 60
}

/// A commit time that can be rendered and stored: an offset below a day and a
/// wall-clock time in the years 1601 to 9999.
pub open spec fn valid_time(t: CommitTime) -> bool {
    &&& -MAX_OFFSET_MINUTES <= t.offset_minutes <= MAX_OFFSET_MINUTES
    &&& MIN_CLOCK_SECONDS <= local_seconds(t) <= MAX_CLOCK_SECONDS
}

/// Whether a commit time is valid (see [`valid_time`]).
pub fn is_valid_time(t: &CommitTime) -> (r: bool)
    ensures
        r == valid_time(*t),
{
    if t.offset_minutes < -MAX_OFFSET_MINUTES || t.offset_minutes > MAX_OFFSET_MINUTES {
        return false;
    }
    let shift = t.offset_minutes as i64 * 60;
    if t.seconds < MIN_CLOCK_SECONDS - shift || t.seconds > MAX_CLOCK_SECONDS - shift {
        return false;
    }
    true
}

/// The RFC 2822 zone of an offset: its sign, then hours and minutes in two
/// digits each.
pub open spec fn offset_suffix(offset_minutes: int) -> Seq<char> {
    let sign = if offset_minutes < 0 {
        '-'
    } else {
        '+'
    };
    let a = if offset_minutes < 0 {
        -offset_minutes
    } else {
        offset_minutes
    };
    let (h, m) = (a / 60, a % 60);
    seq![sign, decimal_digit(h / 10), decimal_digit(h % 10), decimal_digit(m / 10), decimal_digit(m % 10)]
}

/// The wall-clock time `seconds` after the epoch, read in UTC and written as
/// `Thu,  1 Jan 1970 00:00:00`.
pub uninterp spec fn wall_clock_text(seconds: int) -> Seq<char>;

/// Relies on chrono's `DateTime::from_timestamp` and its `format` with
/// `%a, %e %b %Y %T`: both are plain arithmetic on the number, so the text
/// depends on it alone, and `from_timestamp` gives a date for every second of
/// the years 1601 to 9999.
#[verifier::external_body]
fn utc_wall_clock(seconds: i64) -> (r: Option<String>)
    requires
        MIN_CLOCK_SECONDS <= seconds <= MAX_CLOCK_SECONDS,
    ensures
        r is Some,
        r matches Some(s) ==> s@ == wall_clock_text(seconds as int),
{
    chrono::DateTime::from_timestamp(seconds, 0).map(|d| d.format("%a, %e %b %Y %T").to_string())
}

/// The RFC 2822 date of a commit from the wall-clock text of its local time
/// and its offset: the text, a space, and the zone.
pub fn date_text(wall_clock: &String, offset_minutes: i32) -> (r: String)
    requires
        -MAX_OFFSET_MINUTES <= offset_minutes <= MAX_OFFSET_MINUTES,
    ensures
        r@ == wall_clock@ + seq![' '] + offset_suffix(offset_minutes as int),
{
    let (a, sign) = if offset_minutes < 0 {
        (-offset_minutes, "-")
    } else {
        (offset_minutes, "+")
    };
    let (hours, minutes) = (a / 60, a % 60);
    proof {
        reveal_strlit(" ");
        reveal_strlit("-");
        reveal_strlit("+");
    }
    let mut out = wall_clock.clone().concat(" ").concat(sign);
    push_digit(&mut out, hours / 10);
    push_digit(&mut out, hours % 10);
    push_digit(&mut out, minutes / 10);
    push_digit(&mut out, minutes % 10);
    assert(out@ =~= wall_clock@ + seq![' '] + offset_suffix(offset_minutes as int));
    out
}

/// The RFC 2822 form of a commit time, e.g. `Thu,  1 Jan 1970 01:00:00 +0100`.
/// `None` exactly where the time is not valid.
pub fn get_date(t: &CommitTime) -> (r: Option<String>)
    ensures
        !valid_time(*t) ==> r is None,
        valid_time(*t) ==> (r matches Some(s) && s@ == wall_clock_text(local_seconds(*t))
            + seq![' '] + offset_suffix(t.offset_minutes as int)),
{
    if !is_valid_time(t) {
        return None;
    }
    let local = t.seconds + t.offset_minutes as i64 * 60;
    match utc_wall_clock(local) {
        Some(clock) => Some(date_text(&clock, t.offset_minutes)),
        None => None,
    }
}

/// A commit as read from the version-control walker, before normalization.
/// An identity part is `None` where it could not be decoded.
#[derive(Debug, Clone)]
pub struct RawCommit {
    pub hash: String,
    pub parent: Option<String>,
    pub message: String,
    pub time: CommitTime,
    pub author_email: Option<String>,
    pub author_name: Option<String>,
    pub committer_email: Option<String>,
    pub committer_name: Option<String>,
}

/// The view of an optional text.
pub open spec fn opt_view(o: Option<String>) -> Option<Seq<char>> {
    match o {
        Some(s) => Some(s@),
        None => None,
    }
}

/// A raw commit can be normalized: both identities are complete and its time
/// is valid.
pub open spec fn decodable(raw: RawCommit) -> bool {
    &&& raw.author_email is Some
    &&& raw.author_name is Some
    &&& raw.committer_email is Some
    &&& raw.committer_name is Some
    &&& valid_time(raw.time)
}

/// `c` is the normalized record of `raw` in the repository `repo_name`.
pub open spec fn normalized(raw: RawCommit, repo_name: Seq<char>, c: Commit) -> bool {
    &&& c.hash@ == raw.hash@
    &&& opt_view(c.tree) == opt_view(raw.parent)
    &&& c.text@ == commit_text(raw.message@)
    &&& c.date == raw.time
    &&& Some(c.author_email@) == opt_view(raw.author_email)
    &&& Some(c.author_name@) == opt_view(raw.author_name)
    &&& Some(c.committer_email@) == opt_view(raw.committer_email)
    &&& Some(c.committer_name@) == opt_view(raw.committer_name)
    &&& c.repository_url@ == repo_name
}

fn clone_opt(o: &Option<String>) -> (r: Option<String>)
    ensures
        opt_view(r) == opt_view(*o),
{
    match o {
        Some(s) => Some(s.clone()),
        None => None,
    }
}

/// The normalized record of a raw commit of the repository `repo_name`, or
/// `None` where the raw commit cannot be decoded.
pub fn get_commit(raw: &RawCommit, repo_name: &String) -> (r: Option<Commit>)
    ensures
        r is Some <==> decodable(*raw),
        r matches Some(c) ==> normalized(*raw, repo_name@, c),
{
    if !is_valid_time(&raw.time) {
        return None;
    }
    match (&raw.author_email, &raw.author_name, &raw.committer_email, &raw.committer_name) {
        (Some(ae), Some(an), Some(ce), Some(cn)) => Some(
            Commit {
                hash: raw.hash.clone(),
                tree: clone_opt(&raw.parent),
                text: normalize_message(&raw.message),
                date: raw.time,
                author_email: ae.clone(),
                author_name: an.clone(),
                committer_email: ce.clone(),
                committer_name: cn.clone(),
                repository_url: repo_name.clone(),
            },
        ),
        _ => None,
    }
}

/// Every raw commit of a history can be normalized.
pub open spec fn all_decodable(raws: Seq<RawCommit>) -> bool {
    forall|i: int| 0 <= i < raws.len() ==> decodable(#[trigger] raws[i])
}

/// `cs` is `raws` normalized one by one, in the same order.
pub open spec fn all_normalized(raws: Seq<RawCommit>, repo_name: Seq<char>, cs: Seq<Commit>) -> bool {
    &&& cs.len() == raws.len()
    &&& forall|i: int| 0 <= i < raws.len() ==> normalized(#[trigger] raws[i], repo_name, cs[i])
}

/// The normalized records of a whole history, in the walker's order, or `None`
/// where any one commit cannot be decoded: a partial history is never given.
pub fn normalize_history(raws: &Vec<RawCommit>, repo_name: &String) -> (r: Option<Vec<Commit>>)
    ensures
        r is Some <==> all_decodable(raws@),
        r matches Some(cs) ==> all_normalized(raws@, repo_name@, cs@),
{
    let mut out: Vec<Commit> = Vec::new();
    let mut i: usize = 0;
    while i < raws.len()
        invariant
            i <= raws@.len(),
            all_decodable(raws@.take(i as int)),
            all_normalized(raws@.take(i as int), repo_name@, out@),
        decreases raws@.len() - i,
    {
        match get_commit(&raws[i], repo_name) {
            Some(c) => {
                out.push(c);
                proof {
                    assert(raws@.take(i + 1) =~= raws@.take(i as int).push(raws@[i as int]));
                }
                i += 1;
            },
            None => {
                proof {
                    assert(!decodable(raws@[i as int]));
                }
                return None;
            },
        }
    }
    proof {
        assert(raws@.take(i as int) =~= raws@);
    }
    Some(out)
}

/// Why an extraction failed.
#[derive(Debug, Clone)]
pub enum ExtractionError {
    /// The repository could not be cloned (network, authentication, not found).
    CloneFailed(String),
    /// The branch does not exist in the clone.
    BranchNotFound(String),
    /// The commit graph could not be walked.
    WalkFailed(String),
    /// A commit of the history could not be decoded.
    MalformedCommit,
    /// The extraction took longer than it was allowed to.
    TimedOut,
    /// The caller gave the extraction up.
    Cancelled,
    /// An answer arrived that does not fit the pending action.
    Unexpected,
}

/// What an extraction asks its runner to do next.
#[derive(Debug)]
pub enum ExtractAction {
    /// Remove whatever is at the workspace path; failures are ignored.
    ClearWorkspace(String),
    /// Clone the whole history from `url` into `path`.
    Clone { url: String, path: String },
    /// Find the local branch `name` and make `reference` the clone's head.
    SelectBranch { name: String, reference: String },
    /// Walk every commit reachable from the head and report them raw.
    Walk,
    /// Delete the workspace; failures are ignored.
    ReleaseWorkspace(String),
    /// The extraction is over, with this result.
    Finish(Result<Vec<Commit>, ExtractionError>),
}

/// What the runner reports back.
#[derive(Debug)]
pub enum ExtractEvent {
    Cleared,
    Cloned,
    CloneFailed(String),
    BranchSelected,
    BranchMissing(String),
    Walked(Vec<RawCommit>),
    WalkFailed(String),
    Released,
    TimedOut,
    Cancelled,
}

/// Which action an extraction waits on.
#[derive(Debug, Clone, Copy, PartialEq, Eq, Structural)]
pub enum ExtractPhase {
    Clearing,
    Cloning,
    SelectingBranch,
    Walking,
    Releasing,
    Finished,
}

/// One extraction of the history of a branch: the decisions between the
/// outside steps, which its runner performs.
#[derive(Debug)]
pub struct Extraction {
    pub repo_name: String,
    pub branch: String,
    pub phase: ExtractPhase,
    /// The result to hand out once the workspace is released.
    pub outcome: Option<Result<Vec<Commit>, ExtractionError>>,
}

/// The error that an event other than the awaited one ends an extraction with.
pub open spec fn failure_of(e: ExtractEvent) -> ExtractionError {
    match e {
        ExtractEvent::CloneFailed(m) => ExtractionError::CloneFailed(m),
        ExtractEvent::BranchMissing(m) => ExtractionError::BranchNotFound(m),
        ExtractEvent::WalkFailed(m) => ExtractionError::WalkFailed(m),
        ExtractEvent::TimedOut => ExtractionError::TimedOut,
        ExtractEvent::Cancelled => ExtractionError::Cancelled,
        _ => ExtractionError::Unexpected,
    }
}

/// `s2` holds `outcome` and releases the workspace of `s`.
pub open spec fn releases(
    s: Extraction,
    outcome: Result<Vec<Commit>, ExtractionError>,
    s2: Extraction,
    a: ExtractAction,
) -> bool {
    &&& s2.phase == ExtractPhase::Releasing
    &&& s2.outcome == Some(outcome)
    &&& a matches ExtractAction::ReleaseWorkspace(p) && p@ == tmp_dir_of(s.repo_name@)
}

/// One step of an extraction: in state `s` the event `e` leads to state `s2`
/// and the action `a`.
pub open spec fn extract_next(s: Extraction, e: ExtractEvent, s2: Extraction, a: ExtractAction) -> bool {
    &&& s2.repo_name == s.repo_name
    &&& s2.branch == s.branch
    &&& match s.phase {
        ExtractPhase::Clearing => match e {
            ExtractEvent::Cleared => {
                &&& s2.phase == ExtractPhase::Cloning
                &&& s2.outcome is None
                &&& a matches ExtractAction::Clone { url, path } && url@ == "https://github.com/"@
                    + s.repo_name@ && path@ == tmp_dir_of(s.repo_name@)
            },
            _ => releases(s, Err(failure_of(e)), s2, a),
        },
        ExtractPhase::Cloning => match e {
            ExtractEvent::Cloned => {
                &&& s2.phase == ExtractPhase::SelectingBranch
                &&& s2.outcome is None
                &&& a matches ExtractAction::SelectBranch { name, reference } && name@ == s.branch@
                    && reference@ == "refs/heads/"@ + s.branch@
            },
            _ => releases(s, Err(failure_of(e)), s2, a),
        },
        ExtractPhase::SelectingBranch => match e {
            ExtractEvent::BranchSelected => {
                &&& s2.phase == ExtractPhase::Walking
                &&& s2.outcome is None
                &&& a is Walk
            },
            _ => releases(s, Err(failure_of(e)), s2, a),
        },
        ExtractPhase::Walking => match e {
            ExtractEvent::Walked(raws) => {
                &&& s2.phase == ExtractPhase::Releasing
                &&& a matches ExtractAction::ReleaseWorkspace(p) && p@ == tmp_dir_of(s.repo_name@)
                &&& if all_decodable(raws@) {
                    s2.outcome matches Some(Ok(cs)) && all_normalized(raws@, s.repo_name@, cs@)
                } else {
                    s2.outcome matches Some(Err(ExtractionError::MalformedCommit))
                }
            },
            _ => releases(s, Err(failure_of(e)), s2, a),
        },
        ExtractPhase::Releasing => {
            &&& s2.phase == ExtractPhase::Finished
            &&& s2.outcome is None
            &&& s.outcome matches Some(o) && a == ExtractAction::Finish(o)
        },
        ExtractPhase::Finished => false,
    }
}

fn failure(e: ExtractEvent) -> (r: ExtractionError)
    ensures
        r == failure_of(e),
{
    match e {
        ExtractEvent::CloneFailed(m) => ExtractionError::CloneFailed(m),
        ExtractEvent::BranchMissing(m) => ExtractionError::BranchNotFound(m),
        ExtractEvent::WalkFailed(m) => ExtractionError::WalkFailed(m),
        ExtractEvent::TimedOut => ExtractionError::TimedOut,
        ExtractEvent::Cancelled => ExtractionError::Cancelled,
        _ => ExtractionError::Unexpected,
    }
}

impl Extraction {
    /// The extraction holds a result exactly while it releases its workspace.
    pub open spec fn wf(&self) -> bool {
        (self.phase == ExtractPhase::Releasing) == (self.outcome is Some)
    }

    /// Begin the extraction of `branch` of the repository `repo_name`: first
    /// clear a workspace left over by an earlier attempt.
    pub fn start(repo_name: String, branch: String) -> (r: (Extraction, ExtractAction))
        ensures
            r.0.wf(),
            r.0.repo_name == repo_name,
            r.0.branch == branch,
            r.0.phase == ExtractPhase::Clearing,
            r.1 matches ExtractAction::ClearWorkspace(p) && p@ == tmp_dir_of(repo_name@),
    {
        let path = get_tmp_dir(&repo_name);
        (
            Extraction { repo_name, branch, phase: ExtractPhase::Clearing, outcome: None },
            ExtractAction::ClearWorkspace(path),
        )
    }

    fn release(self, outcome: Result<Vec<Commit>, ExtractionError>) -> (r: (Extraction, ExtractAction))
        ensures
            releases(self, outcome, r.0, r.1),
            r.0.repo_name == self.repo_name,
            r.0.branch == self.branch,
    {
        let path = get_tmp_dir(&self.repo_name);
        (
            Extraction {
                repo_name: self.repo_name,
                branch: self.branch,
                phase: ExtractPhase::Releasing,
                outcome: Some(outcome),
            },
            ExtractAction::ReleaseWorkspace(path),
        )
    }

    /// Take the runner's report on the pending action and decide the next one.
    pub fn step(self, event: ExtractEvent) -> (r: (Extraction, ExtractAction))
        requires
            self.wf(),
            self.phase != ExtractPhase::Finished,
        ensures
            r.0.wf(),
            extract_next(self, event, r.0, r.1),
    {
        match self.phase {
            ExtractPhase::Clearing => match event {
                ExtractEvent::Cleared => {
                    let url = clone_url(&self.repo_name);
                    let path = get_tmp_dir(&self.repo_name);
                    (
                        Extraction { phase: ExtractPhase::Cloning, outcome: None, ..self },
                        ExtractAction::Clone { url, path },
                    )
                },
                _ => self.release(Err(failure(event))),
            },
            ExtractPhase::Cloning => match event {
                ExtractEvent::Cloned => {
                    let name = self.branch.clone();
                    let reference = branch_ref(&self.branch);
                    (
                        Extraction { phase: ExtractPhase::SelectingBranch, outcome: None, ..self },
                        ExtractAction::SelectBranch { name, reference },
                    )
                },
                _ => self.release(Err(failure(event))),
            },
            ExtractPhase::SelectingBranch => match event {
                ExtractEvent::BranchSelected => (
                    Extraction { phase: ExtractPhase::Walking, outcome: None, ..self },
                    ExtractAction::Walk,
                ),
                _ => self.release(Err(failure(event))),
            },
            ExtractPhase::Walking => match event {
                ExtractEvent::Walked(raws) => match normalize_history(&raws, &self.repo_name) {
                    Some(cs) => self.release(Ok(cs)),
                    None => self.release(Err(ExtractionError::MalformedCommit)),
                },
                _ => self.release(Err(failure(event))),
            },
            _ => {
                let outcome = self.outcome.unwrap();
                (
                    Extraction {
                        repo_name: self.repo_name,
                        branch: self.branch,
                        phase: ExtractPhase::Finished,
                        outcome: None,
                    },
                    ExtractAction::Finish(outcome),
                )
            },
        }
    }
}

/// An extraction ends only right after it released its workspace, the
/// workspace of its own repository, and every outcome but progress toward the
/// walk leads to that release: no transient clone outlives an extraction,
/// whether it succeeded or failed.
pub proof fn lemma_workspace_released(s: Extraction, e: ExtractEvent, s2: Extraction, a: ExtractAction)
    requires
        s.wf(),
        extract_next(s, e, s2, a),
    ensures
        a is Finish ==> s.phase == ExtractPhase::Releasing,
        (s2.phase == ExtractPhase::Finished) == (a is Finish),
        s2.phase == ExtractPhase::Releasing ==> (a matches ExtractAction::ReleaseWorkspace(p) && p@
            == tmp_dir_of(s.repo_name@)),
        s.phase != ExtractPhase::Releasing ==> s2.phase == ExtractPhase::Releasing || a is Clone
            || a is SelectBranch || a is Walk,
        a matches ExtractAction::Clone { path, .. } ==> path@ == tmp_dir_of(s.repo_name@),
{
}

/// `states`, `events` and `actions` form a run of an extraction: each state
/// steps by its event to the next state and the next action.
pub open spec fn is_extract_run(
    states: Seq<Extraction>,
    events: Seq<ExtractEvent>,
    actions: Seq<ExtractAction>,
) -> bool {
    &&& states.len() == events.len() + 1
    &&& actions.len() == states.len()
    &&& forall|k: int|
        0 <= k < events.len() ==> extract_next(
            #[trigger] states[k],
            events[k],
            states[k + 1],
            actions[k + 1],
        )
}

proof fn lemma_run_keeps_repository(
    states: Seq<Extraction>,
    events: Seq<ExtractEvent>,
    actions: Seq<ExtractAction>,
    k: int,
)
    requires
        is_extract_run(states, events, actions),
        0 <= k < states.len(),
    ensures
        states[k].repo_name == states[0].repo_name,
    decreases k,
{
    if k > 0 {
        lemma_run_keeps_repository(states, events, actions, k - 1);
        assert(extract_next(states[k - 1], events[k - 1], states[k], actions[k]));
    }
}

/// Whatever happens during a whole extraction, from its start (see
/// [`Extraction::start`]) to its end,
/// the action just before the end deletes the workspace of the repository it
/// was started for: no transient clone remains after it, success or failure.
pub proof fn lemma_finished_run_released(
    states: Seq<Extraction>,
    events: Seq<ExtractEvent>,
    actions: Seq<ExtractAction>,
)
    requires
        is_extract_run(states, events, actions),
        states[0].phase == ExtractPhase::Clearing,
        actions[0] is ClearWorkspace,
        actions.last() is Finish,
    ensures
        actions.len() >= 3,
        actions[actions.len() - 2] matches ExtractAction::ReleaseWorkspace(p) && p@ == tmp_dir_of(
            states[0].repo_name@,
        ),
{
    let n = states.len() as int;
    assert(n >= 2) by {
        if n == 1 {
            assert(actions.last() == actions[0]);
        }
    }
    assert(extract_next(states[n - 2], events[n - 2], states[n - 1], actions[n - 1]));
    assert(states[n - 2].phase == ExtractPhase::Releasing);
    assert(n - 2 > 0);
    assert(extract_next(states[n - 3], events[n - 3], states[n - 2], actions[n - 2]));
    lemma_run_keeps_repository(states, events, actions, n - 3);
}

} // verus!
