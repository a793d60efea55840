//! The plan of a run: one entry for each project asked for, built while the
//! answers of the GitLab instance come in.
//!
//! The [`Planner`] does not send anything. It says which request is due,
//! takes what came of it, and keeps the entries in the order of the names.

use vstd::prelude::*;
use vstd::string::*;
use crate::api::{api_root, base_url, branch_address, branch_exists, branch_url, project_address, project_url};
use crate::config::State;
use crate::text::clone_strings;

verus! {

/// What the instance knows of a project.
#[derive(Debug, Clone, PartialEq, Eq)]
pub struct RepoResponse {
    pub id: u64,
    pub default_branch: String,
    pub web_url: String,
    /// The name under which the project was asked for, once it is planned.
    pub branch_to_create: Option<String>,
}

/// A project's metadata as contracts see it.
pub struct RepoResponseView {
    pub id: u64,
    pub default_branch: Seq<char>,
    pub web_url: Seq<char>,
    pub branch_to_create: Option<Seq<char>>,
}

impl View for RepoResponse {
    type V = RepoResponseView;

    open spec fn view(&self) -> RepoResponseView {
        RepoResponseView {
            id: self.id,
            default_branch: self.default_branch@,
            web_url: self.web_url@,
            branch_to_create: self.branch_to_create.deep_view(),
        }
    }
}

impl DeepView for RepoResponse {
    type V = RepoResponseView;

    open spec fn deep_view(&self) -> RepoResponseView {
        self@
    }
}

/// One entry of a plan: a project by name, what was learned of it, and
/// whether it is left alone.
#[derive(Debug, Clone, PartialEq, Eq)]
pub struct Repo {
    pub repo: Option<RepoResponse>,
    pub skipped: bool,
    pub repo_name: String,
}

/// A plan entry as contracts see it.
pub struct RepoView {
    pub repo: Option<RepoResponseView>,
    pub skipped: bool,
    pub repo_name: Seq<char>,
}

impl RepoView {
    /// An entry without metadata is always skipped.
    pub open spec fn wf(self) -> bool {
        self.repo is None ==> self.skipped
    }
}

impl View for Repo {
    type V = RepoView;

    open spec fn view(&self) -> RepoView {
        RepoView { repo: self.repo.deep_view(), skipped: self.skipped, repo_name: self.repo_name@ }
    }
}

impl DeepView for Repo {
    type V = RepoView;

    open spec fn deep_view(&self) -> RepoView {
        self@
    }
}

/// What came of the request that was due.
#[derive(Debug, Clone, PartialEq, Eq)]
pub enum PlanEvent {
    /// The metadata could not be had: no answer, or one that could not be read.
    FetchFailed,
    /// The metadata of the project.
    Fetched(RepoResponse),
    /// The status code of the answer to the question for the branch.
    BranchStatus(u16),
    /// The question for the branch got no answer.
    CheckFailed,
}

/// An event as contracts see it.
pub enum PlanEventView {
    FetchFailed,
    Fetched(RepoResponseView),
    BranchStatus(u16),
    CheckFailed,
}

impl View for PlanEvent {
    type V = PlanEventView;

    open spec fn view(&self) -> PlanEventView {
        match self {
            PlanEvent::FetchFailed => PlanEventView::FetchFailed,
            PlanEvent::Fetched(repo) => PlanEventView::Fetched(repo@),
            PlanEvent::BranchStatus(status) => PlanEventView::BranchStatus(*status),
            PlanEvent::CheckFailed => PlanEventView::CheckFailed,
        }
    }
}

/// The request that is due.
#[derive(Debug, Clone, PartialEq, Eq)]
pub enum PlanRequest {
    /// Read the metadata of a project from this address.
    Project(String),
    /// Ask at this address whether the branch exists.
    Branch(String),
    /// Every name has its entry.
    Finished,
    /// A question for a branch got no answer: the run ends in failure.
    Failed,
}

/// A due request as contracts see it.
pub enum PlanRequestView {
    Project(Seq<char>),
    Branch(Seq<char>),
    Finished,
    Failed,
}

impl View for PlanRequest {
    type V = PlanRequestView;

    open spec fn view(&self) -> PlanRequestView {
        match self {
            PlanRequest::Project(url) => PlanRequestView::Project(url@),
            PlanRequest::Branch(url) => PlanRequestView::Branch(url@),
            PlanRequest::Finished => PlanRequestView::Finished,
            PlanRequest::Failed => PlanRequestView::Failed,
        }
    }
}

/// Where the building of a plan stands.
#[derive(Clone, Copy, Debug, PartialEq, Eq, Structural)]
pub enum Phase {
    Fetching,
    Checking,
    Finished,
    Failed,
}

/// A planner as contracts see it: the root of the REST interface, the
/// branch to create, the names asked for, the entries made so far, metadata
/// that waits for its branch check, and whether the planning has failed.
pub struct PlannerView {
    pub base_url: Seq<char>,
    pub branch_name: Seq<char>,
    pub names: Seq<Seq<char>>,
    pub entries: Seq<RepoView>,
    pub pending: Option<RepoResponseView>,
    pub halted: bool,
}

/// The entries made so far belong to the first names, in their order, and
/// each entry without metadata is skipped. Metadata waits for its branch
/// check only while its name has no entry yet.
pub open spec fn plan_wf(p: PlannerView) -> bool {
    &&& p.entries.len() <= p.names.len()
    &&& p.pending is Some ==> p.entries.len() < p.names.len()
    &&& forall|i: int|
        0 <= i < p.entries.len() ==> (#[trigger] p.entries[i]).repo_name == p.names[i]
            && p.entries[i].wf()
}

/// Where a planner stands: failed, waiting for a branch check, waiting for
/// metadata, or finished, in this order of precedence.
pub open spec fn phase(p: PlannerView) -> Phase {
    if p.halted {
        Phase::Failed
    } else if p.pending is Some {
        Phase::Checking
    } else if p.entries.len() < p.names.len() {
        Phase::Fetching
    } else {
        Phase::Finished
    }
}

/// The name whose entry is made next.
pub open spec fn current_name(p: PlannerView) -> Seq<char> {
    p.names[p.entries.len() as int]
}

/// The request that is due in each phase, with its address.
pub open spec fn next_request(p: PlannerView) -> PlanRequestView {
    match phase(p) {
        Phase::Fetching => PlanRequestView::Project(project_address(p.base_url, current_name(p))),
        Phase::Checking => PlanRequestView::Branch(
            branch_address(p.base_url, p.pending->0.id, p.branch_name),
        ),
        Phase::Finished => PlanRequestView::Finished,
        Phase::Failed => PlanRequestView::Failed,
    }
}

/// The entry of a project whose metadata could not be had.
pub open spec fn failed_entry(name: Seq<char>) -> RepoView {
    RepoView { repo: None, skipped: true, repo_name: name }
}

/// The entry of a project whose branch check was answered with `status`.
pub open spec fn checked_entry(name: Seq<char>, repo: RepoResponseView, status: u16) -> RepoView {
    RepoView { repo: Some(repo), skipped: status == 200, repo_name: name }
}

/// The planner after an event. A failed fetch makes a skipped entry and the
/// next name is due. Metadata is kept, marked with the name, until the
/// branch check is answered; the answer makes the entry, skipped exactly when
/// the branch exists. A branch check without an answer ends the planning. An
/// event that does not belong to the request that was due changes nothing.
pub open spec fn after(p: PlannerView, e: PlanEventView) -> PlannerView {
    match (phase(p), e) {
        (Phase::Fetching, PlanEventView::FetchFailed) => PlannerView {
            entries: p.entries.push(failed_entry(current_name(p))),
            ..p
        },
        (Phase::Fetching, PlanEventView::Fetched(repo)) => PlannerView {
            pending: Some(RepoResponseView { branch_to_create: Some(current_name(p)), ..repo }),
            ..p
        },
        (Phase::Checking, PlanEventView::BranchStatus(status)) => PlannerView {
            entries: p.entries.push(checked_entry(current_name(p), p.pending->0, status)),
            pending: None,
            ..p
        },
        (Phase::Checking, PlanEventView::CheckFailed) => PlannerView { halted: true, ..p },
        _ => p,
    }
}

/// The words that follow a project's address in the preview.
pub open spec fn marker(exists: bool) -> Seq<char> {
    if exists {
        " ⚠️ Branch exists ⚠️"@
    } else {
        " ✅ "@
    }
}

/// The line to show for an event, where it makes an entry.
pub open spec fn notice(p: PlannerView, e: PlanEventView) -> Option<Seq<char>> {
    match (phase(p), e) {
        (Phase::Fetching, PlanEventView::FetchFailed) => Some(
            current_name(p) + ": Skipped Failure on retrieving information"@,
        ),
        (Phase::Checking, PlanEventView::BranchStatus(status)) => Some(
            p.pending->0.web_url + marker(status == 200),
        ),
        _ => None,
    }
}

/// Builds the plan of one run, request by request.
pub struct Planner {
    base_url: String,
    branch_name: String,
    names: Vec<String>,
    entries: Vec<Repo>,
    pending: Option<RepoResponse>,
    halted: bool,
}

impl View for Planner {
    type V = PlannerView;

    closed spec fn view(&self) -> PlannerView {
        PlannerView {
            base_url: self.base_url@,
            branch_name: self.branch_name@,
            names: self.names.deep_view(),
            entries: self.entries.deep_view(),
            pending: self.pending.deep_view(),
            halted: self.halted,
        }
    }
}

impl Planner {
    #[verifier::type_invariant]
    spec fn inv(self) -> bool {
        plan_wf(self@)
    }

    /// A planner for the projects of `state`, with no entry yet.
    pub fn new(state: &State) -> (r: Planner)
        ensures
            r@ == (PlannerView {
                base_url: api_root(state@.gitlab_url),
                branch_name: state@.branch_name,
                names: state@.repos,
                entries: Seq::empty(),
                pending: None,
                halted: false,
            }),
            plan_wf(r@),
    {
        let r = Planner {
            base_url: base_url(state.gitlab_url.as_str()),
            branch_name: state.branch_name.clone(),
            names: clone_strings(&state.repos),
            entries: Vec::new(),
            pending: None,
            halted: false,
        };
        assert(r.entries.deep_view() =~= Seq::empty());
        r
    }

    /// The request that is due.
    pub fn request(&self) -> (r: PlanRequest)
        ensures
            r@ == next_request(self@),
            plan_wf(self@),
    {
        proof {
            use_type_invariant(self);
        }
        if self.halted {
            return PlanRequest::Failed;
        }
        match &self.pending {
            Some(repo) => PlanRequest::Branch(
                branch_url(self.base_url.as_str(), repo.id, self.branch_name.as_str()),
            ),
            None => {
                if self.entries.len() < self.names.len() {
                    let name = &self.names[self.entries.len()];
                    PlanRequest::Project(project_url(self.base_url.as_str(), name.as_str()))
                } else {
                    PlanRequest::Finished
                }
            },
        }
    }

    /// Takes what came of the request that was due. Gives the planner for
    /// the next request and, where an entry was made, the line to show.
    pub fn record(self, event: PlanEvent) -> (r: (Planner, Option<String>))
        ensures
            r.0@ == after(self@, event@),
            r.1.deep_view() == notice(self@, event@),
            plan_wf(self@),
            plan_wf(r.0@),
    {
        proof {
            use_type_invariant(&self);
        }
        let ghost before = self@;
        let Planner { base_url, branch_name, names, mut entries, pending, halted } = self;
        if halted {
            return (Planner { base_url, branch_name, names, entries, pending, halted }, None);
        }
        match (pending, event) {
            (Some(repo), PlanEvent::BranchStatus(status)) => {
                let exists = branch_exists(status);
                let mut line = repo.web_url.clone();
                if exists {
                    line.append(" ⚠️ Branch exists ⚠️");
                } else {
                    line.append(" ✅ ");
                }
                let repo_name = names[entries.len()].clone();
                entries.push(Repo { repo: Some(repo), skipped: exists, repo_name });
                assert(entries.deep_view() =~= before.entries.push(
                    checked_entry(current_name(before), before.pending->0, status),
                ));
                (
                    Planner { base_url, branch_name, names, entries, pending: None, halted },
                    Some(line),
                )
            },
            (Some(repo), PlanEvent::CheckFailed) => (
                Planner { base_url, branch_name, names, entries, pending: Some(repo), halted: true },
                None,
            ),
            (None, PlanEvent::FetchFailed) => {
                if entries.len() < names.len() {
                    let repo_name = names[entries.len()].clone();
                    let mut line = repo_name.clone();
                    line.append(": Skipped Failure on retrieving information");
                    entries.push(Repo { repo: None, skipped: true, repo_name });
                    assert(entries.deep_view() =~= before.entries.push(
                        failed_entry(current_name(before)),
                    ));
                    (
                        Planner { base_url, branch_name, names, entries, pending: None, halted },
                        Some(line),
                    )
                } else {
                    (Planner { base_url, branch_name, names, entries, pending: None, halted }, None)
                }
            },
            (None, PlanEvent::Fetched(repo)) => {
                if entries.len() < names.len() {
                    let marked = RepoResponse {
                        id: repo.id,
                        default_branch: repo.default_branch,
                        web_url: repo.web_url,
                        branch_to_create: Some(names[entries.len()].clone()),
                    };
                    (
                        Planner {
                            base_url,
                            branch_name,
                            names,
                            entries,
                            pending: Some(marked),
                            halted,
                        },
                        None,
                    )
                } else {
                    (Planner { base_url, branch_name, names, entries, pending: None, halted }, None)
                }
            },
            (pending, _) => (
                Planner { base_url, branch_name, names, entries, pending, halted },
                None,
            ),
        }
    }

    /// The entries made so far, in the order of the names.
    pub fn into_plan(self) -> (r: Vec<Repo>)
        ensures
            r.deep_view() == self@.entries,
            plan_wf(self@),
    {
        proof {
            use_type_invariant(&self);
        }
        self.entries
    }
}

/// An event never disturbs the plan: the names stay, the entries made stay
/// where they are, and at most one entry is added behind them.
pub proof fn lemma_entries_only_grow(p: PlannerView, e: PlanEventView)
    requires
        plan_wf(p),
    ensures
        plan_wf(after(p, e)),
        after(p, e).names == p.names,
        p.entries.len() <= after(p, e).entries.len() <= p.entries.len() + 1,
        after(p, e).entries.take(p.entries.len() as int) == p.entries,
{
    assert(after(p, e).entries.take(p.entries.len() as int) =~= p.entries);
}

/// The planner after a row of events, taken one after the other.
pub open spec fn after_all(p: PlannerView, events: Seq<PlanEventView>) -> PlannerView
    decreases events.len(),
{
    if events.len() == 0 {
        p
    } else {
        after(after_all(p, events.drop_last()), events.last())
    }
}

/// Whatever happens during a run, the plan keeps to the names: the entries
/// made before stay in front, in their order, and each entry belongs to the
/// name at its place.
pub proof fn lemma_run_keeps_entries(p: PlannerView, events: Seq<PlanEventView>)
    requires
        plan_wf(p),
    ensures
        plan_wf(after_all(p, events)),
        after_all(p, events).names == p.names,
        p.entries.len() <= after_all(p, events).entries.len() <= p.entries.len() + events.len(),
        after_all(p, events).entries.take(p.entries.len() as int) == p.entries,
    decreases events.len(),
{
    if events.len() > 0 {
        let earlier = after_all(p, events.drop_last());
        lemma_run_keeps_entries(p, events.drop_last());
        lemma_entries_only_grow(earlier, events.last());
        let last = after(earlier, events.last());
        assert(last.entries.take(p.entries.len() as int) =~= p.entries) by {
            assert forall|i: int| 0 <= i < p.entries.len() implies last.entries[i]
                == p.entries[i] by {
                assert(last.entries.take(earlier.entries.len() as int)[i] == earlier.entries[i]);
                assert(earlier.entries.take(p.entries.len() as int)[i] == p.entries[i]);
            }
        }
    }
}

/// A project whose metadata cannot be had gets an entry without metadata
/// that is skipped, and the planning goes on with the next name.
pub proof fn lemma_failed_fetch_is_skipped(p: PlannerView)
    requires
        plan_wf(p),
        phase(p) == Phase::Fetching,
    ensures
        after(p, PlanEventView::FetchFailed).entries == p.entries.push(
            RepoView { repo: None, skipped: true, repo_name: p.names[p.entries.len() as int] },
        ),
        phase(after(p, PlanEventView::FetchFailed)) != Phase::Failed,
        phase(after(p, PlanEventView::FetchFailed)) != Phase::Checking,
{
}

/// A finished plan has one entry for each name, in the order of the names.
pub proof fn lemma_finished_plan_is_complete(p: PlannerView)
    requires
        plan_wf(p),
        phase(p) == Phase::Finished,
    ensures
        p.entries.len() == p.names.len(),
        forall|i: int| 0 <= i < p.names.len() ==> (#[trigger] p.entries[i]).repo_name == p.names[i],
        forall|i: int| 0 <= i < p.names.len() ==> (#[trigger] p.entries[i]).wf(),
{
}

} // verus!
