use lolbunny::encode::encode;
use lolbunny::help::render_help_page;
use lolbunny::hop::{kanban_alias, runbook_alias, HopType};
use lolbunny::registry::{lookup, registry, resolve};

use percent_encoding::{utf8_percent_encode, AsciiSet, CONTROLS};

#[test]
fn encode_leaves_safe_strings_alone() {
    let safe = "https://example.com/path?q=abc&x=1;!*'()%~";
    assert_eq!(encode(safe), safe);
}

#[test]
fn encode_is_idempotent_on_anything() {
    let once = encode("a b\"c<d>e`f\u{2713}\u{1}");
    let twice = encode(&once);
    assert_eq!(twice, once);
}

#[test]
fn encode_escapes_the_unsafe_set() {
    assert_eq!(encode("a b"), "a%20b");
    assert_eq!(encode("\"<>`"), "%22%3C%3E%60");
    assert_eq!(encode("\u{0}\u{1f}\u{7f}"), "%00%1F%7F");
    assert_eq!(encode("\u{2713}"), "%E2%9C%93");
    assert_eq!(encode(""), "");
}

#[test]
fn encode_agrees_with_percent_encoding_crate() {
    let set: &'static AsciiSet =
        Box::leak(Box::new(CONTROLS.add(b' ').add(b'"').add(b'<').add(b'>').add(b'`')));
    let samples = [
        "plain",
        "with space",
        "quote\"angle<angle>tick`",
        "unicode \u{2713} mark \u{e9}\u{4e16}\u{754c}",
        "control\u{1}\u{7f}del",
        "",
        "%already%20encoded",
    ];
    for s in samples.iter() {
        assert_eq!(encode(s), utf8_percent_encode(s, set).to_string(), "on {:?}", s);
    }
}

#[test]
fn kanban_strategy_board_and_default() {
    assert_eq!(
        HopType::Kanban("https://jira/").to_string("passp"),
        format!(
            "https://jira/secure/RapidBoard.jspa?rapidView={}",
            kanban_alias("passp").unwrap()
        )
    );
    assert_eq!(
        HopType::Kanban("https://jira/").to_string("nope"),
        "https://jira/secure/RapidBoard.jspa"
    );
}

#[test]
fn runbook_strategy_alias_and_fallback() {
    assert_eq!(
        HopType::Runbook("https://wiki/").to_string("passp"),
        format!("https://wiki/{}", runbook_alias("passp").unwrap())
    );
    assert_eq!(HopType::Runbook("https://wiki/").to_string("unknown team"), "https://wiki/");
}

#[test]
fn officespace_strategy_search_and_portal() {
    assert_eq!(
        HopType::OfficeSpace("https://os/").to_string("Jane Doe"),
        "https://os/visual-directory/search/Jane%20Doe"
    );
    assert_eq!(HopType::OfficeSpace("https://os/").to_string(""), "https://os/portal");
}

#[test]
fn proctor_strategy_definition_and_base() {
    assert_eq!(
        HopType::Proctor("https://proc/").to_string("mytest"),
        "https://proc/definition/mytest"
    );
    assert_eq!(HopType::Proctor("https://proc/").to_string(""), "https://proc/");
}

#[test]
fn workday_strategy_search_and_home() {
    assert_eq!(
        HopType::Workday("https://wd/").to_string("some name"),
        "https://wd/search.htmld?q=some%20name"
    );
    assert_eq!(HopType::Workday("https://wd/").to_string(""), "https://wd/home.htmld");
}

#[test]
fn basic_strategy_appends_then_encodes() {
    assert_eq!(
        HopType::Basic("https://google.com/search?q=").to_string("two words"),
        "https://google.com/search?q=two%20words"
    );
}

#[test]
fn sourcegraph_trailing_space_after_flag() {
    assert_eq!(
        HopType::SourceGraph("https://sg/").to_string("re "),
        "https://sg/search?q=&patternType=regexp&case=false"
    );
}

#[test]
fn sourcegraph_structural_case_flag() {
    assert_eq!(
        HopType::SourceGraph("https://sg/").to_string("stc needle"),
        "https://sg/search?q=needle&patternType=structural&case=true"
    );
    assert_eq!(
        HopType::SourceGraph("https://sg/").to_string("slc needle"),
        "https://sg/search?q=needle&patternType=literal&case=true"
    );
}

#[test]
fn lookup_finds_registered_tokens() {
    let reg = registry();
    let jira = lookup(&reg, "jira").unwrap();
    assert_eq!(jira.token, "jira");
    assert!(lookup(&reg, "nosuch").is_none());
    assert!(lookup(&reg, "JIRA").is_none(), "lookup is case-sensitive");
}

#[test]
fn kanban_token_is_registered_against_jira_strategy() {
    // The configuration registers both `jira` and `kanban` against the
    // Jira strategy, so `kanban <team>` browses an issue instead of
    // opening a board; preserved as it stands.
    let reg = registry();
    let kanban = lookup(&reg, "kanban").unwrap();
    assert_eq!(kanban.hop.to_string("passp"), "https://bugs.indeed.com/browse/passp");
}

#[test]
fn resolve_known_command() {
    let reg = registry();
    assert_eq!(
        resolve(&reg, " g rust language "),
        "https://google.com/search?q=rust%20language"
    );
    assert_eq!(
        resolve(&reg, "jira FOO-123"),
        "https://bugs.indeed.com/browse/FOO-123"
    );
}

#[test]
fn resolve_unknown_command_falls_back_to_web_search() {
    let reg = registry();
    assert_eq!(
        resolve(&reg, "frobnicate all the things"),
        "https://google.com/search?q=frobnicate%20all%20the%20things"
    );
}

#[test]
fn resolve_empty_input_falls_back() {
    let reg = registry();
    assert_eq!(resolve(&reg, "   "), "https://google.com/search?q=");
}

#[test]
fn validate_trims_unicode_whitespace() {
    assert_eq!(
        lolbunny::validate("\u{a0}cal param\u{3000}"),
        ("cal", "param", "cal param")
    );
}

#[test]
fn sourcegraph_multibyte_query_is_a_literal_search() {
    assert_eq!(
        HopType::SourceGraph("https://sg/").to_string("h\u{e9} needle"),
        "https://sg/search?q=h%C3%A9%20needle&patternType=literal"
    );
}

#[test]
fn help_page_has_one_row_per_entry() {
    let reg = registry();
    let page = render_help_page(&reg);
    assert_eq!(page.matches("<tr><td>").count(), reg.len());
    for e in reg.iter() {
        let row = format!(
            "<tr><td>{0}</td><td>{1}</td><td><a href=\"{2}\">{2}</a></td></tr>",
            e.token,
            e.help,
            e.hop.to_string("EXAMPLE")
        );
        assert!(page.contains(&row), "missing row for {}", e.token);
    }
}

#[test]
fn help_page_example_urls_come_from_the_strategies() {
    let reg = registry();
    let page = render_help_page(&reg);
    assert!(page.contains("https://calendar.google.com/EXAMPLE"));
    assert!(page.contains("https://EXAMPLE.sandbox.indeed.net"));
}
