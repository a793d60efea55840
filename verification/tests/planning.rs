use gitlab_branch_gen::config::State;
use gitlab_branch_gen::execute::{
    create_request, create_requests, outcome, report_line, CreateRequest, Outcome,
};
use gitlab_branch_gen::plan::{PlanEvent, PlanRequest, Planner, Repo, RepoResponse};

fn s(text: &str) -> String {
    String::from(text)
}

fn state(repos: Vec<String>) -> State {
    State {
        branch_name: s("feature"),
        repos,
        gitlab_api: s("token"),
        gitlab_url: s("https://gitlab.com"),
    }
}

fn response(id: u64, web_url: &str) -> RepoResponse {
    RepoResponse { id, default_branch: s("main"), web_url: s(web_url), branch_to_create: None }
}

fn entry(name: &str, id: u64, skipped: bool) -> Repo {
    Repo {
        repo: Some(RepoResponse {
            id,
            default_branch: s("main"),
            web_url: format!("https://gitlab.com/{name}"),
            branch_to_create: Some(s(name)),
        }),
        skipped,
        repo_name: s(name),
    }
}

#[test]
fn failed_fetch_is_skipped_and_the_next_name_is_planned() {
    let planner = Planner::new(&state(vec![s("broken"), s("group/ok")]));
    assert_eq!(
        planner.request(),
        PlanRequest::Project(s("https://gitlab.com/api/v4/projects/broken"))
    );
    let (planner, line) = planner.record(PlanEvent::FetchFailed);
    assert_eq!(line, Some(s("broken: Skipped Failure on retrieving information")));
    assert_eq!(
        planner.request(),
        PlanRequest::Project(s("https://gitlab.com/api/v4/projects/group%2Fok"))
    );
    let (planner, line) =
        planner.record(PlanEvent::Fetched(response(12, "https://gitlab.com/group/ok")));
    assert_eq!(line, None);
    assert_eq!(
        planner.request(),
        PlanRequest::Branch(s("https://gitlab.com/api/v4/projects/12/repository/branches/feature"))
    );
    let (planner, line) = planner.record(PlanEvent::BranchStatus(404));
    assert_eq!(line, Some(s("https://gitlab.com/group/ok \u{2705} ")));
    assert_eq!(planner.request(), PlanRequest::Finished);
    let plan = planner.into_plan();
    assert_eq!(plan.len(), 2);
    assert_eq!(plan[0], Repo { repo: None, skipped: true, repo_name: s("broken") });
    assert_eq!(
        plan[1],
        Repo {
            repo: Some(RepoResponse {
                id: 12,
                default_branch: s("main"),
                web_url: s("https://gitlab.com/group/ok"),
                branch_to_create: Some(s("group/ok")),
            }),
            skipped: false,
            repo_name: s("group/ok"),
        }
    );
}

#[test]
fn existing_branch_is_skipped() {
    let planner = Planner::new(&state(vec![s("a")]));
    let (planner, _) = planner.record(PlanEvent::Fetched(response(3, "https://gitlab.com/a")));
    let (planner, line) = planner.record(PlanEvent::BranchStatus(200));
    assert_eq!(
        line,
        Some(s("https://gitlab.com/a \u{26a0}\u{fe0f} Branch exists \u{26a0}\u{fe0f}"))
    );
    let plan = planner.into_plan();
    assert_eq!(plan.len(), 1);
    assert!(plan[0].skipped);
    assert_eq!(plan[0].repo.as_ref().map(|r| r.id), Some(3));
}

#[test]
fn unanswered_branch_check_ends_the_planning() {
    let planner = Planner::new(&state(vec![s("a"), s("b")]));
    let (planner, _) = planner.record(PlanEvent::Fetched(response(3, "w")));
    let (planner, line) = planner.record(PlanEvent::CheckFailed);
    assert_eq!(line, None);
    assert_eq!(planner.request(), PlanRequest::Failed);
    let (planner, line) = planner.record(PlanEvent::FetchFailed);
    assert_eq!(line, None);
    assert_eq!(planner.request(), PlanRequest::Failed);
    assert_eq!(planner.into_plan().len(), 0);
}

#[test]
fn events_out_of_turn_change_nothing() {
    let planner = Planner::new(&state(vec![s("a")]));
    let (planner, line) = planner.record(PlanEvent::BranchStatus(200));
    assert_eq!(line, None);
    let (planner, line) = planner.record(PlanEvent::CheckFailed);
    assert_eq!(line, None);
    assert_eq!(planner.request(), PlanRequest::Project(s("https://gitlab.com/api/v4/projects/a")));
    let (planner, _) = planner.record(PlanEvent::Fetched(response(1, "w")));
    let (planner, line) = planner.record(PlanEvent::FetchFailed);
    assert_eq!(line, None);
    let (planner, _) = planner.record(PlanEvent::BranchStatus(500));
    assert_eq!(planner.request(), PlanRequest::Finished);
    let (planner, line) = planner.record(PlanEvent::FetchFailed);
    assert_eq!(line, None);
    assert_eq!(planner.into_plan().len(), 1);
}

#[test]
fn duplicate_names_get_an_entry_each() {
    let planner = Planner::new(&state(vec![s("a"), s("a")]));
    let (planner, _) = planner.record(PlanEvent::FetchFailed);
    let (planner, _) = planner.record(PlanEvent::FetchFailed);
    assert_eq!(planner.request(), PlanRequest::Finished);
    let plan = planner.into_plan();
    assert_eq!(plan.len(), 2);
    assert_eq!(plan[0].repo_name, "a");
    assert_eq!(plan[1].repo_name, "a");
}

#[test]
fn empty_project_list_is_finished_at_once() {
    let planner = Planner::new(&state(vec![]));
    assert_eq!(planner.request(), PlanRequest::Finished);
    assert!(planner.into_plan().is_empty());
}

#[test]
fn skipped_entry_in_the_middle_causes_no_request() {
    let plan = vec![entry("one", 1, false), entry("two", 2, true), entry("three", 3, false)];
    let requests = create_requests(&plan, "https://gitlab.com/api/v4", "feature");
    assert_eq!(
        requests,
        vec![
            CreateRequest {
                url: s("https://gitlab.com/api/v4/projects/1/repository/branches"),
                branch: s("feature"),
                reference: s("main"),
            },
            CreateRequest {
                url: s("https://gitlab.com/api/v4/projects/3/repository/branches"),
                branch: s("feature"),
                reference: s("main"),
            },
        ]
    );
    assert!(create_request(&plan[0], "b", "feature").is_some());
    assert_eq!(create_request(&plan[1], "b", "feature"), None);
    assert!(create_request(&plan[2], "b", "feature").is_some());
}

#[test]
fn entry_without_metadata_causes_no_request() {
    let bare = Repo { repo: None, skipped: false, repo_name: s("x") };
    assert_eq!(create_request(&bare, "b", "f"), None);
    let failed = Repo { repo: None, skipped: true, repo_name: s("x") };
    assert_eq!(create_request(&failed, "b", "f"), None);
    assert!(create_requests(&vec![bare, failed], "b", "f").is_empty());
}

#[test]
fn request_starts_from_the_default_branch() {
    let mut e = entry("group/p", 77, false);
    e.repo.as_mut().unwrap().default_branch = s("develop");
    assert_eq!(
        create_request(&e, "https://g.example/api/v4", "release/1"),
        Some(CreateRequest {
            url: s("https://g.example/api/v4/projects/77/repository/branches"),
            branch: s("release/1"),
            reference: s("develop"),
        })
    );
}

#[test]
fn outcome_of_each_answer() {
    let live = entry("a", 1, false);
    assert_eq!(outcome(&live, Some(201)), Outcome::Created);
    assert_eq!(outcome(&live, Some(200)), Outcome::Failed);
    assert_eq!(outcome(&live, Some(400)), Outcome::Failed);
    assert_eq!(outcome(&live, None), Outcome::Failed);
    assert_eq!(outcome(&entry("a", 1, true), Some(201)), Outcome::Skipped);
    let bare = Repo { repo: None, skipped: false, repo_name: s("x") };
    assert_eq!(outcome(&bare, Some(201)), Outcome::Skipped);
}

#[test]
fn report_lines() {
    let live = entry("a", 1, false);
    assert_eq!(report_line(&live, Outcome::Skipped), "a: skipped");
    assert_eq!(report_line(&live, Outcome::Created), "a: https://gitlab.com/a created \u{2705}");
    assert_eq!(report_line(&live, Outcome::Failed), "a: https://gitlab.com/a error \u{26d4}");
}

#[test]
fn body_names_branch_and_ref() {
    let request = CreateRequest { url: s("u"), branch: s("feature"), reference: s("main") };
    assert_eq!(request.body(), vec![(s("branch"), s("feature")), (s("ref"), s("main"))]);
}
