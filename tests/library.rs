use gut::colors::{bold, dim, error, highlight, info, success, warning, Color};
use gut::commands::{
    branch_git_args, is_confirmed, join_words, last_message_git_args,
    recommit_git_args, save_git_args, template_target, undo_option, untrack_git_args, UndoOption,
};
use gut::config::{config_from_parsed, config_from_text, decimal, validate_config};
use gut::dispatch::{handler_for, plan_invocation, Action, Handler};
use gut::distance::levenshtein;
use gut::hooks::{hook_files, hook_script, needs_write};
use gut::json::JsonValue;
use gut::resolve::{classify, command_vocabulary, resolve, MatchKind, MAX_DISTANCE};

fn strings(items: &[&str]) -> Vec<String> {
    items.iter().map(|s| s.to_string()).collect()
}

fn parse(text: &str) -> JsonValue {
    let loaded = config_from_text(text);
    loaded.config
}

#[test]
fn colors_wrap_messages() {
    assert_eq!(success("ok"), "\x1b[32m✓\x1b[0m ok");
    assert_eq!(error("bad"), "\x1b[31m✗\x1b[0m bad");
    assert_eq!(warning("hm"), "\x1b[33m⚠\x1b[0m hm");
    assert_eq!(info("fyi"), "\x1b[34mℹ\x1b[0m fyi");
    assert_eq!(highlight("x"), "\x1b[36mx\x1b[0m");
    assert_eq!(bold("x"), "\x1b[1mx\x1b[0m");
    assert_eq!(dim("x"), "\x1b[2mx\x1b[0m");
    assert_eq!(Color::MAGENTA, "\x1b[35m");
}

#[test]
fn distance_known_values() {
    assert_eq!(levenshtein("kitten", "sitting"), 3);
    assert_eq!(levenshtein("", "abc"), 3);
    assert_eq!(levenshtein("abc", ""), 3);
    assert_eq!(levenshtein("", ""), 0);
    assert_eq!(levenshtein("comit", "commit"), 1);
    assert_eq!(levenshtein("stauts", "status"), 2);
    assert_eq!(levenshtein("héllo", "hello"), 1);
}

#[test]
fn distance_identity_and_symmetry() {
    for a in ["", "a", "commit", "remove-committed", "ünïcödé"] {
        assert_eq!(levenshtein(a, a), 0);
    }
    let pairs = [("flaw", "lawn"), ("gc", "fsck"), ("push", "pull"), ("", "tag")];
    for (a, b) in pairs {
        assert_eq!(levenshtein(a, b), levenshtein(b, a));
    }
}

#[test]
fn resolve_typo_of_commit() {
    let v = command_vocabulary();
    let r = resolve("comit", &v);
    assert_eq!(v[r.index.unwrap()], "commit");
    assert_eq!(r.distance, 1);
    assert_eq!(classify(&r), MatchKind::Fuzzy);
}

#[test]
fn resolve_foreign_token_misses() {
    let v = command_vocabulary();
    assert!(v.contains(&"status"));
    let r = resolve("xyzxyzxyz", &v);
    assert!(r.distance > MAX_DISTANCE);
    assert_eq!(classify(&r), MatchKind::Miss);
}

#[test]
fn resolve_exact_and_first_of_equals() {
    let v = command_vocabulary();
    let r = resolve("stash", &v);
    assert_eq!(v[r.index.unwrap()], "stash");
    assert_eq!(classify(&r), MatchKind::Exact);
    let v = vec!["ab", "ac", "a"];
    let r = resolve("ad", &v);
    assert_eq!(r.index, Some(0));
    assert_eq!(r.distance, 1);
    // "log" and "rlog" are both near "lg"; the minimum is kept.
    let v = command_vocabulary();
    let r = resolve("lg", &v);
    let best = v.iter().map(|c| levenshtein("lg", c)).min().unwrap();
    let first = v.iter().position(|c| levenshtein("lg", c) == best).unwrap();
    assert_eq!(r.index, Some(first));
    assert_eq!(r.distance, best);
}

#[test]
fn resolve_empty_vocabulary() {
    let v: Vec<&str> = Vec::new();
    let r = resolve("commit", &v);
    assert_eq!(r.index, None);
    assert_eq!(r.distance, usize::MAX);
    assert_eq!(classify(&r), MatchKind::Miss);
}

#[test]
fn vocabulary_order() {
    let v = command_vocabulary();
    assert_eq!(v.len(), 41);
    assert_eq!(v[0], "template");
    assert_eq!(v[40], "help");
}

#[test]
fn plan_without_arguments_shows_usage() {
    let p = plan_invocation(&Vec::new());
    assert!(matches!(p.action, Action::Usage));
    assert!(p.notice.is_none());
}

#[test]
fn plan_fuzzy_enhanced_command() {
    let p = plan_invocation(&strings(&["comit", "-m", "x"]));
    assert_eq!(
        p.notice.as_deref(),
        Some("[gut] subcommand smart infer: comit \x1b[32m=>\x1b[0m commit")
    );
    match p.action {
        Action::Run(h, rest) => {
            assert_eq!(h, Handler::Commit);
            assert_eq!(rest, strings(&["-m", "x"]));
        }
        _ => panic!("expected the commit handler"),
    }
}

#[test]
fn plan_fuzzy_alias_uses_corrected_name() {
    let p = plan_invocation(&strings(&["stauts", "-s"]));
    assert!(p.notice.is_some());
    match p.action {
        Action::Passthrough(a) => assert_eq!(a, strings(&["status", "-s"])),
        _ => panic!("expected passthrough"),
    }
}

#[test]
fn plan_exact_alias_is_silent() {
    let p = plan_invocation(&strings(&["status", "-s"]));
    assert!(p.notice.is_none());
    match p.action {
        Action::Passthrough(a) => assert_eq!(a, strings(&["status", "-s"])),
        _ => panic!("expected passthrough"),
    }
}

#[test]
fn plan_miss_forwards_everything() {
    let args = strings(&["xyzxyzxyz", "--flag"]);
    let p = plan_invocation(&args);
    assert!(p.notice.is_none());
    match p.action {
        Action::Passthrough(a) => assert_eq!(a, args),
        _ => panic!("expected passthrough"),
    }
}

#[test]
fn handlers_by_name() {
    assert_eq!(handler_for("template"), Some(Handler::Template));
    assert_eq!(handler_for("remove-committed"), Some(Handler::RemoveCommitted));
    assert_eq!(handler_for("log"), Some(Handler::Log));
    assert_eq!(handler_for("status"), None);
}

#[test]
fn decimal_writing() {
    assert_eq!(decimal(0), "0");
    assert_eq!(decimal(7), "7");
    assert_eq!(decimal(10), "10");
    assert_eq!(decimal(1234), "1234");
}

#[test]
fn json_lookups() {
    let v = parse(r#"{"a": {"b": "x"}, "n": 5, "m": -1, "f": 1.5, "t": true}"#);
    assert_eq!(v.get("a").and_then(|a| a.get("b")).and_then(|b| b.as_str()), Some("x"));
    assert!(v.get("n").unwrap().is_u64());
    assert!(!v.get("m").unwrap().is_u64());
    assert!(!v.get("f").unwrap().is_u64());
    assert!(v.get("t").unwrap().is_boolean());
    assert!(v.get("zz").is_none());
    assert!(v.get("a").unwrap().get("b").unwrap().get("c").is_none());
}

#[test]
fn invalid_format_mode_still_loads() {
    let loaded = config_from_text(r#"{"commit": {"format_mode": "sideways"}}"#);
    assert!(loaded.config.get("commit").is_some());
    let expected = warning(
        "Config warning: Invalid format_mode 'sideways'. Valid values: 'upper_case', 'lower_case'",
    );
    assert_eq!(loaded.diagnostics, vec![expected]);
}

#[test]
fn valid_configuration_has_no_warnings() {
    let text = r#"{"commit": {"format_mode": "lower_case", "emoji_enabled": true,
        "require_conventional": false}, "log": {"count": 10, "info": "less"},
        "tlog": {"info": "more"}, "hooks": [{"name": "pre-commit", "commands": []}]}"#;
    assert!(config_from_text(text).diagnostics.is_empty());
}

#[test]
fn every_kind_of_warning_in_order() {
    let text = r#"{"commit": {"format_mode": "x", "emoji_enabled": 1,
        "require_conventional": "no"}, "log": {"count": -1, "info": "all"},
        "tlog": {"count": "5"}, "hooks": [{"commands": []}, {"name": "a"}, {}]}"#;
    let w = validate_config(&parse(text));
    assert_eq!(
        w,
        strings(&[
            "Invalid format_mode 'x'. Valid values: 'upper_case', 'lower_case'",
            "emoji_enabled should be a boolean (true/false)",
            "require_conventional should be a boolean (true/false)",
            "log.count should be a positive number",
            "log.info should be 'less' or 'more'",
            "tlog.count should be a positive number",
            "Hook #1 is missing 'name' field",
            "Hook #2 is missing 'commands' field",
            "Hook #3 is missing 'name' field",
            "Hook #3 is missing 'commands' field",
        ])
    );
}

#[test]
fn invalid_json_uses_defaults() {
    let loaded = config_from_text("{not json");
    match &loaded.config {
        JsonValue::Object(m) => assert!(m.is_empty()),
        _ => panic!("expected an empty object"),
    }
    assert_eq!(loaded.diagnostics.len(), 2);
    assert!(loaded.diagnostics[0].starts_with(&error("Invalid JSON in gut.config.json: ")));
    assert!(loaded.diagnostics[0].len() > error("Invalid JSON in gut.config.json: ").len());
    assert_eq!(loaded.diagnostics[1], "Using default configuration.");
}

#[test]
fn parse_result_given_directly() {
    let loaded = config_from_parsed(Err("boom".to_string()));
    assert_eq!(
        loaded.diagnostics,
        vec![error("Invalid JSON in gut.config.json: boom"), "Using default configuration.".to_string()]
    );
    let loaded = config_from_parsed(Ok(JsonValue::Null));
    assert!(loaded.diagnostics.is_empty());
    assert!(matches!(loaded.config, JsonValue::Null));
}

#[test]
fn hook_with_condition_script() {
    let config = parse(
        r#"{"hooks": [{"name": "pre-commit", "condition": "test -f VERSION", "commands": ["echo hi"]}]}"#,
    );
    let files = hook_files(&config);
    assert_eq!(files.len(), 1);
    assert_eq!(files[0].name, "pre-commit");
    assert_eq!(
        files[0].script,
        "#!/bin/sh\nset -e\nif ! (test -f VERSION); then exit 0; fi\necho hi\n"
    );
}

#[test]
fn hook_script_without_condition_skips_non_strings() {
    let commands = vec![JsonValue::Str("a".to_string()), JsonValue::Number(Some(3)), JsonValue::Str("b".to_string())];
    assert_eq!(hook_script("", &commands), "#!/bin/sh\nset -e\na\nb\n");
}

#[test]
fn hook_missing_commands_is_skipped_and_reported() {
    let config = parse(r#"{"hooks": [{"name": "pre-push"}, {"name": "post-merge", "commands": ["x"]}]}"#);
    let files = hook_files(&config);
    assert_eq!(files.len(), 1);
    assert_eq!(files[0].name, "post-merge");
    assert_eq!(validate_config(&config), strings(&["Hook #1 is missing 'commands' field"]));
}

#[test]
fn no_hooks_no_files() {
    assert!(hook_files(&parse("{}")).is_empty());
    assert!(hook_files(&parse(r#"{"hooks": {"name": "x"}}"#)).is_empty());
}

#[test]
fn sync_twice_writes_once() {
    let config = parse(r#"{"hooks": [{"name": "pre-commit", "commands": ["make test"]},
        {"name": "pre-push", "condition": "true", "commands": ["make lint"]}]}"#);
    let mut disk: std::collections::BTreeMap<String, String> = Default::default();
    let mut writes = 0;
    for _ in 0..2 {
        for f in hook_files(&config) {
            if needs_write(disk.get(&f.name).map(|s| s.as_str()), &f.script) {
                disk.insert(f.name.clone(), f.script.clone());
                writes += 1;
            }
        }
        if writes != 2 {
            panic!("first run writes both files, the second none");
        }
    }
    let first: Vec<(String, String)> = hook_files(&config).into_iter().map(|f| (f.name, f.script)).collect();
    let again: Vec<(String, String)> = hook_files(&config).into_iter().map(|f| (f.name, f.script)).collect();
    assert_eq!(first, again);
    assert!(needs_write(Some("old"), "new"));
    assert!(needs_write(None, ""));
}

#[test]
fn branch_arguments() {
    assert!(branch_git_args(&Vec::new()).is_none());
    assert_eq!(branch_git_args(&strings(&["feat"])).unwrap(), strings(&["checkout", "-b", "feat"]));
}

#[test]
fn save_arguments() {
    assert_eq!(save_git_args(&Vec::new()), strings(&["stash", "push"]));
    assert_eq!(
        save_git_args(&strings(&["work", "in", "progress"])),
        strings(&["stash", "push", "-m", "work in progress"])
    );
    assert_eq!(join_words(&strings(&["one"])), "one");
    assert_eq!(join_words(&Vec::new()), "");
}

#[test]
fn template_arguments() {
    assert!(template_target(&Vec::new()).is_none());
    let t = template_target(&strings(&["url"])).unwrap();
    assert_eq!((t.repo.as_str(), t.dest.as_str()), ("url", "."));
    let t = template_target(&strings(&["url", "dir"])).unwrap();
    assert_eq!(t.dest, "dir");
}

#[test]
fn undo_options() {
    assert_eq!(undo_option("commit"), Some(UndoOption::Commit));
    assert_eq!(undo_option("nope"), None);
    assert!(UndoOption::Changes.needs_confirmation());
    assert!(!UndoOption::Stage.needs_confirmation());
    assert_eq!(
        UndoOption::Changes.git_steps(),
        vec![strings(&["reset", "--hard"]), strings(&["clean", "-fd"])]
    );
    assert_eq!(UndoOption::Commit.git_steps(), vec![strings(&["reset", "--soft", "HEAD~1"])]);
    assert_eq!(UndoOption::Stage.git_steps(), vec![strings(&["reset", "HEAD"])]);
    assert_eq!(UndoOption::Commit.announcement(), "Undoing last commit (keeping changes)...");
    assert_eq!(UndoOption::Changes.completion(), "All changes discarded.");
}

#[test]
fn confirmation_text() {
    assert!(is_confirmed("  yes\n"));
    assert!(is_confirmed("yes"));
    assert!(!is_confirmed("y"));
    assert!(!is_confirmed("yes please"));
    assert!(is_confirmed("\u{3000}yes\u{a0}"));
}

#[test]
fn non_string_format_mode_warns() {
    let w = validate_config(&parse(r#"{"commit": {"format_mode": 5}}"#));
    assert_eq!(
        w,
        strings(&["Invalid format_mode (not a string). Valid values: 'upper_case', 'lower_case'"])
    );
}

#[test]
fn non_string_info_warns() {
    let w = validate_config(&parse(r#"{"log": {"info": true}, "tlog": {"info": null}}"#));
    assert_eq!(
        w,
        strings(&["log.info should be 'less' or 'more'", "tlog.info should be 'less' or 'more'"])
    );
}

#[test]
fn remove_committed_arguments() {
    assert_eq!(recommit_git_args("fix: typo\n\n"), strings(&["commit", "-m", "fix: typo"]));
    assert_eq!(untrack_git_args(".env"), strings(&["rm", "--cached", ".env"]));
    assert_eq!(last_message_git_args(), strings(&["log", "-1", "--pretty=%B"]));
}
