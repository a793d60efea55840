use gitlab_branch_gen::api::{
    base_url, branch_created, branch_exists, branch_url, branches_url, project_url,
    token_accepted, token_header,
};
use gitlab_branch_gen::confirm::confirmed;
use gitlab_branch_gen::text::push_decimal;

#[test]
fn base_url_appends_the_api_root() {
    assert_eq!(base_url("https://gitlab.com"), "https://gitlab.com/api/v4");
}

#[test]
fn project_url_escapes_the_name() {
    assert_eq!(
        project_url("https://gitlab.com/api/v4", "group/project"),
        "https://gitlab.com/api/v4/projects/group%2Fproject"
    );
}

#[test]
fn project_url_keeps_unreserved_characters() {
    assert_eq!(project_url("b", "Az09-._~"), "b/projects/Az09-._~");
}

#[test]
fn project_url_escapes_bytes_of_other_characters() {
    assert_eq!(project_url("b", "a b/\u{e9}"), "b/projects/a%20b%2F%C3%A9");
}

#[test]
fn branches_url_holds_the_decimal_id() {
    assert_eq!(branches_url("b", 0), "b/projects/0/repository/branches");
    assert_eq!(branches_url("b", 42), "b/projects/42/repository/branches");
    assert_eq!(
        branches_url("b", u64::MAX),
        "b/projects/18446744073709551615/repository/branches"
    );
}

#[test]
fn branch_url_holds_id_and_branch() {
    assert_eq!(
        branch_url("https://g.example/api/v4", 1007, "feature/x"),
        "https://g.example/api/v4/projects/1007/repository/branches/feature/x"
    );
}

#[test]
fn decimal_is_appended() {
    let mut out = String::from("n=");
    push_decimal(&mut out, 9);
    push_decimal(&mut out, 10);
    push_decimal(&mut out, 305);
    assert_eq!(out, "n=910305");
}

#[test]
fn only_200_means_the_branch_exists() {
    assert!(branch_exists(200));
    assert!(!branch_exists(201));
    assert!(!branch_exists(404));
    assert!(!branch_exists(0));
}

#[test]
fn only_201_means_the_branch_was_created() {
    assert!(branch_created(201));
    assert!(!branch_created(200));
    assert!(!branch_created(400));
}

#[test]
fn token_header_name() {
    assert_eq!(token_header(), "PRIVATE-TOKEN");
}

#[test]
fn confirmation_cancels_on_other_input() {
    assert!(!confirmed("n"));
    assert!(!confirmed(""));
    assert!(!confirmed("Y"));
    assert!(!confirmed("YES"));
    assert!(!confirmed("yes please"));
    assert!(!confirmed("y es"));
    assert!(!confirmed("\n"));
}

#[test]
fn confirmation_proceeds_on_y_and_yes() {
    assert!(confirmed("y"));
    assert!(confirmed("yes"));
}

#[test]
fn confirmation_ignores_white_space_at_the_ends() {
    assert!(confirmed("y\n"));
    assert!(confirmed("  yes\r\n"));
    assert!(confirmed("\tyes \u{a0}\u{3000}"));
}

#[test]
fn token_without_control_characters_is_accepted() {
    assert!(token_accepted("glpat-AbC_123"));
    assert!(token_accepted(""));
    assert!(token_accepted("with space and\ttab"));
    assert!(token_accepted("caf\u{e9}"));
}

#[test]
fn token_with_control_characters_is_refused() {
    assert!(!token_accepted("line\nbreak"));
    assert!(!token_accepted("\u{7f}"));
    assert!(!token_accepted("nul\u{0}"));
    assert!(!token_accepted("token\r"));
}
