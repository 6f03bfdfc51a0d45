use lolbunny::hop::{dash_alias, HopType};
use lolbunny::parse::validate;

#[test]
fn test_validate_has_cmd_no_params() {
    assert_eq!(validate("cal"), ("cal", "", "cal"));
}

#[test]
fn nobody_broke_validate() {
    assert_eq!(validate("cal"), ("cal", "", "cal"));
    let tricksters = [
        // (what are we testing, what broke)
        ("cal param1 param2", "the whole test"),
        (" cal param1 param2", "prepended whitespace"),
        ("cal param1 param2 ", "appended whitespace"),
    ];
    for (test_me, complaint) in tricksters.iter() {
        assert_eq!(
            validate(test_me),
            ("cal", "param1 param2", "cal param1 param2"),
            "failed because {}",
            complaint
        );
    }
}

#[test]
fn test_get_sandbox_uri() {
    assert_eq!(
        HopType::Sandbox("bar.test.com/").to_string("foo"),
        "https://foo.bar.test.com/"
    );
}

#[test]
fn test_get_gitlab_uri_is_project() {
    assert_eq!(
        HopType::GitLab("https://code.bar.foo.com/").to_string("foo/bar"),
        "https://code.bar.foo.com/foo/bar"
    );
}

#[test]
fn test_get_gitlab_uri_is_search() {
    assert_eq!(
        HopType::GitLab("https://code.bar.foo.com/").to_string("foobar"),
        "https://code.bar.foo.com/search?utf8=%E2%9C%93&search=foobar"
    );
}

#[test]
fn test_get_dashboard_uri_is_alias() {
    let fail = "fail";
    assert_eq!(
        HopType::Dashboard("https://dash.board.foo.com/").to_string("ids"),
        format!(
            "https://dash.board.foo.com/dashboard/{}",
            dash_alias("ids").unwrap_or(fail)
        )
    );
}

#[test]
fn test_get_dashboard_uri_is_search() {
    assert_eq!(
        HopType::Dashboard("https://dash.board.foo.com/").to_string("search terms"),
        "https://dash.board.foo.com/lists?q=search%20terms"
    );
}

#[test]
fn test_get_jira_uri_is_default() {
    assert_eq!(
        HopType::Jira("https://jira/").to_string(""),
        "https://jira/issues/?filter=-1"
    );
}

#[test]
fn test_get_jira_uri_is_is_discreet() {
    assert_eq!(
        HopType::Jira("https://jira/").to_string("FOO-1234"),
        "https://jira/browse/FOO-1234"
    );
}

#[test]
fn test_get_jira_uri_is_create() {
    assert_eq!(
        HopType::Jira("https://jira/").to_string("create"),
        "https://jira/secure/CreateIssue!default.jspa"
    );
}

#[test]
fn test_get_jira_uri_is_create_alt() {
    assert_eq!(
        HopType::Jira("https://jira/").to_string("new"),
        "https://jira/secure/CreateIssue!default.jspa"
    );
}

#[test]
fn test_get_bgs_uri_no_flags() {
    assert_eq!(
        HopType::SourceGraph("https://sg/").to_string("blahblahblah"),
        "https://sg/search?q=blahblahblah&patternType=literal"
    );
}

#[test]
fn test_get_bgs_uri_string_literal_flags() {
    assert_eq!(
        HopType::SourceGraph("https://sg/").to_string("sl blahblahblah"),
        "https://sg/search?q=blahblahblah&patternType=literal&case=false"
    );
}

#[test]
fn test_get_bgs_uri_regexp_flags() {
    assert_eq!(
        HopType::SourceGraph("https://sg/").to_string("re blahblahblah"),
        "https://sg/search?q=blahblahblah&patternType=regexp&case=false"
    );
}

#[test]
fn test_get_bgs_uri_structural_flags() {
    assert_eq!(
        HopType::SourceGraph("https://sg/").to_string("st blahblahblah"),
        "https://sg/search?q=blahblahblah&patternType=structural&case=true"
    );
}

#[test]
fn test_get_bgs_uri_case_insensitive() {
    assert_eq!(
        HopType::SourceGraph("https://sg/").to_string("rec blahblahblah"),
        "https://sg/search?q=blahblahblah&patternType=regexp&case=true"
    );
}

#[test]
fn test_get_bgs_uri_with_spaces() {
    assert_eq!(
        HopType::SourceGraph("https://sg/").to_string("foo bar baz"),
        "https://sg/search?q=foo%20bar%20baz&patternType=literal"
    );
}
