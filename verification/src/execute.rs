//! Carrying out a plan: which entries lead to a request that creates the
//! branch, and what is reported of each entry.

use vstd::prelude::*;
use vstd::string::*;
use crate::api::{branch_created, branches_address, branches_url};
use crate::plan::{Repo, RepoView};

verus! {

/// A request that creates a branch: where it is sent, and the two values of
/// its body, the new branch's name and the branch it starts from.
#[derive(Debug, Clone, PartialEq, Eq)]
pub struct CreateRequest {
    pub url: String,
    pub branch: String,
    pub reference: String,
}

/// A request to create a branch as contracts see it.
pub struct CreateRequestView {
    pub url: Seq<char>,
    pub branch: Seq<char>,
    pub reference: Seq<char>,
}

impl View for CreateRequest {
    type V = CreateRequestView;

    open spec fn view(&self) -> CreateRequestView {
        CreateRequestView { url: self.url@, branch: self.branch@, reference: self.reference@ }
    }
}

impl DeepView for CreateRequest {
    type V = CreateRequestView;

    open spec fn deep_view(&self) -> CreateRequestView {
        self@
    }
}

/// The body of a request: the field `branch` with the new branch's name,
/// then the field `ref` with the branch it starts from.
pub open spec fn body_of(request: CreateRequestView) -> Seq<(Seq<char>, Seq<char>)> {
    seq![("branch"@, request.branch), ("ref"@, request.reference)]
}

impl CreateRequest {
    /// The fields of the body, each with its name and its value.
    pub fn body(&self) -> (r: Vec<(String, String)>)
        ensures
            r.deep_view() == body_of(self@),
    {
        let mut fields: Vec<(String, String)> = Vec::new();
        fields.push((String::from_str("branch"), self.branch.clone()));
        fields.push((String::from_str("ref"), self.reference.clone()));
        fields
    }
}

/// An entry is acted on when it is not skipped and its metadata is known.
pub open spec fn actionable(entry: RepoView) -> bool {
    !entry.skipped && entry.repo is Some
}

/// The request that an entry leads to, if it is acted on: the new branch
/// starts from the project's default branch.
pub open spec fn request_for(entry: RepoView, base_url: Seq<char>, branch_name: Seq<char>) -> Option<
    CreateRequestView,
> {
    if actionable(entry) {
        Some(
            CreateRequestView {
                url: branches_address(base_url, entry.repo->0.id),
                branch: branch_name,
                reference: entry.repo->0.default_branch,
            },
        )
    } else {
        None
    }
}

/// The requests of a whole plan: those of its entries that are acted on, in
/// the order of the plan.
pub open spec fn requests_for(plan: Seq<RepoView>, base_url: Seq<char>, branch_name: Seq<char>) -> Seq<
    CreateRequestView,
>
    decreases plan.len(),
{
    if plan.len() == 0 {
        Seq::empty()
    } else {
        let earlier = requests_for(plan.drop_last(), base_url, branch_name);
        match request_for(plan.last(), base_url, branch_name) {
            Some(request) => earlier.push(request),
            None => earlier,
        }
    }
}

/// How many entries of a plan are acted on.
pub open spec fn actionable_count(plan: Seq<RepoView>) -> nat
    decreases plan.len(),
{
    if plan.len() == 0 {
        0
    } else {
        actionable_count(plan.drop_last()) + if actionable(plan.last()) {
            1nat
        } else {
            0nat
        }
    }
}

/// The request to send for one entry; none for an entry that is skipped or
/// has no metadata.
pub fn create_request(entry: &Repo, base_url: &str, branch_name: &str) -> (r: Option<CreateRequest>)
    ensures
        r.deep_view() == request_for(entry@, base_url@, branch_name@),
{
    if entry.skipped {
        return None;
    }
    match &entry.repo {
        Some(repo) => Some(
            CreateRequest {
                url: branches_url(base_url, repo.id),
                branch: String::from_str(branch_name),
                reference: repo.default_branch.clone(),
            },
        ),
        None => None,
    }
}

/// The requests to send for a plan, in the order in which they are sent.
pub fn create_requests(plan: &Vec<Repo>, base_url: &str, branch_name: &str) -> (r: Vec<
    CreateRequest,
>)
    ensures
        r.deep_view() == requests_for(plan.deep_view(), base_url@, branch_name@),
{
    let mut out: Vec<CreateRequest> = Vec::new();
    let mut i: usize = 0;
    while i < plan.len()
        invariant
            i <= plan.len(),
            out.deep_view() == requests_for(plan.deep_view().take(i as int), base_url@, branch_name@),
        decreases plan.len() - i,
    {
        let made = create_request(&plan[i], base_url, branch_name);
        proof {
            let next = plan.deep_view().take(i + 1);
            assert(next.drop_last() =~= plan.deep_view().take(i as int));
        }
        if let Some(request) = made {
            out.push(request);
        }
        i += 1;
    }
    assert(plan.deep_view().take(plan.len() as int) =~= plan.deep_view());
    out
}

/// What became of an entry.
#[derive(Clone, Copy, Debug, PartialEq, Eq, Structural)]
pub enum Outcome {
    Skipped,
    Created,
    Failed,
}

/// What an entry and the answer to its request amount to. `answer` is the
/// status code, or nothing where the request got no answer.
pub open spec fn outcome_of(entry: RepoView, answer: Option<u16>) -> Outcome {
    if !actionable(entry) {
        Outcome::Skipped
    } else if answer == Some(201u16) {
        Outcome::Created
    } else {
        Outcome::Failed
    }
}

/// Judges one entry: skipped where no request was due, created on status
/// 201, failed on any other status and where no answer came.
pub fn outcome(entry: &Repo, answer: Option<u16>) -> (r: Outcome)
    ensures
        r == outcome_of(entry@, answer),
{
    if entry.skipped || entry.repo.is_none() {
        return Outcome::Skipped;
    }
    match answer {
        Some(status) => {
            if branch_created(status) {
                Outcome::Created
            } else {
                Outcome::Failed
            }
        },
        None => Outcome::Failed,
    }
}

/// The line that reports an entry.
pub open spec fn report_text(entry: RepoView, result: Outcome) -> Seq<char> {
    match result {
        Outcome::Skipped => entry.repo_name + ": "@ + "skipped"@,
        Outcome::Created => entry.repo_name + ": "@ + web_url_of(entry) + " "@ + "created ✅"@,
        Outcome::Failed => entry.repo_name + ": "@ + web_url_of(entry) + " "@ + "error ⛔"@,
    }
}

/// The project's address for a browser, empty where it is not known.
pub open spec fn web_url_of(entry: RepoView) -> Seq<char> {
    match entry.repo {
        Some(repo) => repo.web_url,
        None => Seq::empty(),
    }
}

/// The line that reports an entry: its name, then `skipped`, or the
/// project's address and whether the branch was created.
pub fn report_line(entry: &Repo, result: Outcome) -> (r: String)
    ensures
        r@ == report_text(entry@, result),
{
    let mut line = entry.repo_name.clone();
    line.append(": ");
    match result {
        Outcome::Skipped => {
            line.append("skipped");
        },
        _ => {
            match &entry.repo {
                Some(repo) => {
                    line.append(repo.web_url.as_str());
                },
                None => {},
            }
            line.append(" ");
            match result {
                Outcome::Created => {
                    line.append("created ✅");
                },
                _ => {
                    line.append("error ⛔");
                },
            }
        },
    }
    line
}

/// A plan leads to exactly one request for each of its entries that is
/// acted on: skipped entries and entries without metadata cause none.
pub proof fn lemma_one_request_per_actionable_entry(
    plan: Seq<RepoView>,
    base_url: Seq<char>,
    branch_name: Seq<char>,
)
    ensures
        requests_for(plan, base_url, branch_name).len() == actionable_count(plan),
        requests_for(plan, base_url, branch_name).len() <= plan.len(),
    decreases plan.len(),
{
    if plan.len() > 0 {
        lemma_one_request_per_actionable_entry(plan.drop_last(), base_url, branch_name);
    }
}

/// The requests keep the order of the plan: what a longer plan adds is sent
/// after everything that the shorter plan leads to.
pub proof fn lemma_requests_keep_order(
    plan: Seq<RepoView>,
    entry: RepoView,
    base_url: Seq<char>,
    branch_name: Seq<char>,
)
    ensures
        requests_for(plan.push(entry), base_url, branch_name) == (match request_for(
            entry,
            base_url,
            branch_name,
        ) {
            Some(request) => requests_for(plan, base_url, branch_name).push(request),
            None => requests_for(plan, base_url, branch_name),
        }),
{
    assert(plan.push(entry).drop_last() =~= plan);
}

} // verus!
