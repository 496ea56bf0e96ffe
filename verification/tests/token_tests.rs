use ffmerge::errors::{Error, GitOp, MissingField};
use ffmerge::reference::PrRef;
use ffmerge::text::{find_colon, is_pr_number, parse_u64_numeral, str_eq};

fn s(x: &str) -> String {
    x.to_string()
}

#[test]
fn numerals_parse() {
    assert_eq!(parse_u64_numeral("42"), Some(42));
    assert_eq!(parse_u64_numeral("0"), Some(0));
    assert_eq!(parse_u64_numeral("+7"), Some(7));
    assert_eq!(parse_u64_numeral("18446744073709551615"), Some(u64::MAX));
}

#[test]
fn non_numerals_are_rejected() {
    assert_eq!(parse_u64_numeral(""), None);
    assert_eq!(parse_u64_numeral("+"), None);
    assert_eq!(parse_u64_numeral("18446744073709551616"), None);
    assert_eq!(parse_u64_numeral("12a"), None);
    assert_eq!(parse_u64_numeral("feature-x"), None);
    assert_eq!(parse_u64_numeral("-3"), None);
    assert_eq!(parse_u64_numeral("4 2"), None);
    assert!(is_pr_number("42"));
    assert!(!is_pr_number("alice:feature-x"));
}

#[test]
fn first_colon_is_found() {
    assert_eq!(find_colon("alice:feature-x"), Some(5));
    assert_eq!(find_colon(":x"), Some(0));
    assert_eq!(find_colon("a:b:c"), Some(1));
    assert_eq!(find_colon("feature-x"), None);
    assert_eq!(find_colon(""), None);
}

#[test]
fn str_eq_compares_content() {
    assert!(str_eq("abc", "abc"));
    assert!(!str_eq("abc", "abd"));
    assert!(!str_eq("abc", "abcd"));
    assert!(str_eq("", ""));
}

#[test]
fn qualified_branch_of_fork() {
    let pr = PrRef { branch: s("feature-x"), fork_owner: Some(s("alice")) };
    assert_eq!(pr.qualified_branch(), "alice:feature-x");
}

#[test]
fn qualified_branch_without_fork() {
    let pr = PrRef::from_branch(s("feature-x"));
    assert_eq!(pr.qualified_branch(), "feature-x");
}

#[test]
fn not_approved_message_names_branch() {
    let e = Error::NotApproved { branch: s("feature-x") };
    let msg = e.message();
    assert!(msg.contains("feature-x"));
    assert!(msg.contains("has not been approved"));
}

#[test]
fn rebase_conflict_message() {
    let e = Error::RebaseConflict { branch: s("feature-x"), remote: s("origin"), base: s("main") };
    let msg = e.message();
    assert!(msg.contains("did not cleanly rebase"));
    assert_eq!(
        msg,
        "feature-x did not cleanly rebase onto origin/main; do so manually and try again"
    );
}

#[test]
fn diverged_message_names_both_sides() {
    let e = Error::DivergedBranch { branch: s("feature-x"), remote: s("origin") };
    assert_eq!(
        e.message(),
        "local branch feature-x differs from remote branch origin/feature-x"
    );
}

#[test]
fn tool_and_usage_messages() {
    assert_eq!(Error::ToolMissing { git: true }.message(), "tool `git` is required");
    assert_eq!(Error::ToolMissing { git: false }.message(), "tool `gh` is required");
    assert_eq!(
        Error::Usage.message(),
        "on default branch; must specify the PR number or branch name to merge"
    );
    assert_eq!(Error::Git { op: GitOp::AbortRebase }.message(), "failed aborting rebase");
    assert_eq!(
        Error::Protocol { field: MissingField::HeadRefName }.message(),
        "malformed response: missing headRefName"
    );
}
