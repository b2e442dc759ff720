use git_help::Locale;
use git_help::HelpRequest;
use git_help::RenderOutput;
use git_help::Topic;
use git_help::parse_topic;
use git_help::render;
use git_help::render_overview;
use git_help::render_topic_detail;
use git_help::resolve_locale;
use git_help::text::ADVANCED_COMMANDS_EN;
use git_help::text::ADVANCED_COMMANDS_JP;
use git_help::text::BASIC_COMMANDS_EN;
use git_help::text::BASIC_COMMANDS_JP;
use git_help::text::CHERRY_PICK_DETAILS_JP;
use git_help::text::MERGE_DETAILS_JP;
use git_help::text::MIDDLE_LEVEL_COMMANDS_EN;
use git_help::text::MIDDLE_LEVEL_COMMANDS_JP;
use git_help::text::REBASE_DETAILS_JP;
use git_help::text::detail_block;
use git_help::text::Tier;
use git_help::text::overview_block;

const MERGE_DETAILS_EN_EXPECTED: &str = r#"
Git Merge Command:
+-------------------------+------------------------------------------+
| Command                 | Description                              |
+-------------------------+------------------------------------------+
| merge <branch>          | Join two or more development histories   |
+-------------------------+------------------------------------------+
| Suboption               | Description                              |
+-------------------------+------------------------------------------+
| --no-ff                 | Create a merge commit even when the      |
|                         | merge resolves as a fast-forward         |
| --squash                | Merge changes but do not commit them     |
| --strategy <strategy>   | Use the given merge strategy             |
+-------------------------+------------------------------------------+

Example:
    git merge feature-branch   Merge 'feature-branch' into the current branch
"#;

#[test]
fn default_locale_for_absent_variable() {
    assert_eq!(resolve_locale(None), Locale::En);
}

#[test]
fn default_locale_for_empty_string() {
    assert_eq!(resolve_locale(Some("")), Locale::En);
}

#[test]
fn default_locale_for_garbage_strings() {
    assert_eq!(resolve_locale(Some("en")), Locale::En);
    assert_eq!(resolve_locale(Some("en_US.UTF-8")), Locale::En);
    assert_eq!(resolve_locale(Some("xx_YY")), Locale::En);
    assert_eq!(resolve_locale(Some("garbage value!!")), Locale::En);
    assert_eq!(resolve_locale(Some("j")), Locale::En);
    assert_eq!(resolve_locale(Some("jpn")), Locale::En);
    assert_eq!(resolve_locale(Some("jpx_JP")), Locale::En);
    assert_eq!(resolve_locale(Some("_jp")), Locale::En);
    assert_eq!(resolve_locale(Some("JP")), Locale::En);
}

#[test]
fn alternate_locale_for_bare_jp() {
    assert_eq!(resolve_locale(Some("jp")), Locale::Jp);
}

#[test]
fn alternate_locale_for_jp_with_suffix() {
    assert_eq!(resolve_locale(Some("jp_JP")), Locale::Jp);
    assert_eq!(resolve_locale(Some("jp_ANYTHING")), Locale::Jp);
    assert_eq!(resolve_locale(Some("jp_JP.UTF-8")), Locale::Jp);
    assert_eq!(resolve_locale(Some("jp_")), Locale::Jp);
}

#[test]
fn overview_default_is_three_blocks_in_order() {
    let expected = format!(
        "{}\n{}\n{}\n",
        BASIC_COMMANDS_EN, MIDDLE_LEVEL_COMMANDS_EN, ADVANCED_COMMANDS_EN
    );
    assert_eq!(render_overview(Locale::En), expected);
}

#[test]
fn overview_alternate_is_three_blocks_in_order() {
    let expected = format!(
        "{}\n{}\n{}\n",
        BASIC_COMMANDS_JP, MIDDLE_LEVEL_COMMANDS_JP, ADVANCED_COMMANDS_JP
    );
    assert_eq!(render_overview(Locale::Jp), expected);
}

#[test]
fn overview_blocks_follow_tier_and_locale() {
    assert_eq!(overview_block(Tier::Basic, Locale::En), BASIC_COMMANDS_EN);
    assert_eq!(overview_block(Tier::Middle, Locale::Jp), MIDDLE_LEVEL_COMMANDS_JP);
    assert!(overview_block(Tier::Advanced, Locale::En).contains("rebase <branch>"));
    assert!(overview_block(Tier::Basic, Locale::Jp).contains("基本的な Git コマンド"));
}

#[test]
fn merge_detail_default_is_verbatim() {
    let expected = format!("{}\n", MERGE_DETAILS_EN_EXPECTED);
    assert_eq!(
        render_topic_detail("merge", Locale::En),
        RenderOutput::Stdout(expected)
    );
}

#[test]
fn detail_blocks_follow_topic_and_locale() {
    assert_eq!(detail_block(Topic::Merge, Locale::En), MERGE_DETAILS_EN_EXPECTED);
    assert_eq!(detail_block(Topic::Merge, Locale::Jp), MERGE_DETAILS_JP);
    assert_eq!(detail_block(Topic::Rebase, Locale::Jp), REBASE_DETAILS_JP);
    assert_eq!(detail_block(Topic::CherryPick, Locale::Jp), CHERRY_PICK_DETAILS_JP);
    assert!(detail_block(Topic::Rebase, Locale::En).contains("git rebase master"));
    assert!(detail_block(Topic::CherryPick, Locale::En).contains("git cherry-pick abc123"));
    assert!(detail_block(Topic::Merge, Locale::Jp).contains("Git Merge コマンド"));
}

#[test]
fn unknown_topic_writes_only_the_diagnostic() {
    let expected = "No details available for the command: unknown-xyz\n".to_string();
    assert_eq!(
        render_topic_detail("unknown-xyz", Locale::En),
        RenderOutput::Stderr(expected.clone())
    );
    assert_eq!(
        render_topic_detail("unknown-xyz", Locale::Jp),
        RenderOutput::Stderr(expected)
    );
}

#[test]
fn unknown_topic_is_not_fatal_shape() {
    match render_topic_detail("status", Locale::En) {
        RenderOutput::Stderr(msg) => {
            assert_eq!(msg, "No details available for the command: status\n");
        }
        RenderOutput::Stdout(_) => panic!("unknown topic must go to standard error"),
    }
}

#[test]
fn parse_topic_recognizes_exactly_the_detailed_topics() {
    assert_eq!(parse_topic("merge"), Some(Topic::Merge));
    assert_eq!(parse_topic("rebase"), Some(Topic::Rebase));
    assert_eq!(parse_topic("cherry-pick"), Some(Topic::CherryPick));
    assert_eq!(parse_topic(""), None);
    assert_eq!(parse_topic("Merge"), None);
    assert_eq!(parse_topic("merge "), None);
    assert_eq!(parse_topic("cherrypick"), None);
    assert_eq!(parse_topic("status"), None);
}

#[test]
fn same_request_twice_is_byte_identical() {
    for locale in [Locale::En, Locale::Jp] {
        let first = render(&HelpRequest::Overview, locale);
        let second = render(&HelpRequest::Overview, locale);
        assert_eq!(first, second);
        for name in ["merge", "rebase", "cherry-pick", "unknown-xyz"] {
            let first = render(&HelpRequest::Detail(name.to_string()), locale);
            let second = render(&HelpRequest::Detail(name.to_string()), locale);
            assert_eq!(first, second);
        }
    }
}

#[test]
fn every_topic_has_both_renderings() {
    for name in ["merge", "rebase", "cherry-pick"] {
        for locale in [Locale::En, Locale::Jp] {
            match render_topic_detail(name, locale) {
                RenderOutput::Stdout(text) => assert!(!text.is_empty()),
                RenderOutput::Stderr(_) => {
                    panic!("a detailed topic must render in every locale")
                }
            }
        }
    }
    for topic in [Topic::Merge, Topic::Rebase, Topic::CherryPick] {
        for locale in [Locale::En, Locale::Jp] {
            assert!(!detail_block(topic, locale).is_empty());
        }
    }
}

#[test]
fn render_dispatches_on_topic_presence() {
    let overview = render(&HelpRequest::Overview, Locale::Jp);
    assert_eq!(overview, RenderOutput::Stdout(render_overview(Locale::Jp)));
    let detail = render(&HelpRequest::Detail("rebase".to_string()), Locale::Jp);
    assert_eq!(
        detail,
        RenderOutput::Stdout(format!("{}\n", REBASE_DETAILS_JP))
    );
}
