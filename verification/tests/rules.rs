use yandex_music_mod::engine::PatchRun;
use yandex_music_mod::error::PatcherError;
use yandex_music_mod::patches::{
    patch_config_js, patch_create_window_js, patch_html, patch_main_js, patch_system_menu_js,
    MOD_MAIN_JS, MOD_PRELOAD_JS, MOD_RENDERER_CSS, MOD_RENDERER_JS,
};
use yandex_music_mod::paths::has_extension;
use yandex_music_mod::rules::{
    apply_rule, default_rules, html_rule, mod_assets, rewrite_file, selects, Found, OutcomeKind,
    PatchAction, PatchKind, PatchOutcome, PatchRule,
};

fn text(content: &str) -> Found {
    Found::Text(content.to_string())
}

fn written(action: PatchAction) -> String {
    match action {
        PatchAction::WriteText(text) => text,
        other => panic!("unexpected action {:?}", other),
    }
}

#[test]
fn default_rules_have_distinct_targets_in_order() {
    let rules = default_rules(false);
    let targets: Vec<&str> = rules.iter().map(|rule| rule.target.as_str()).collect();
    assert_eq!(
        targets,
        vec![
            "package.json",
            "main/config.js",
            "main/lib/systemMenu.js",
            "main/lib/createWindow.js",
            "main/index.js",
            "main/lib/preload.js",
            "app/media/splash_screen",
        ]
    );
    for i in 0..targets.len() {
        for j in (i + 1)..targets.len() {
            assert_ne!(targets[i], targets[j]);
        }
    }
    assert!(matches!(rules[0].kind, PatchKind::JsonMutation));
    assert!(matches!(rules[1].kind, PatchKind::TextReplaceList(_)));
    assert!(matches!(rules[2].kind, PatchKind::TextReplaceList(_)));
    assert!(matches!(rules[3].kind, PatchKind::TextReplaceList(_)));
    assert!(matches!(rules[4].kind, PatchKind::TextAppend(_)));
    assert!(matches!(rules[5].kind, PatchKind::TextAppend(_)));
    assert!(matches!(rules[6].kind, PatchKind::DirectoryRemoval));
}

#[test]
fn rules_agree_with_the_patch_functions() {
    let rules = default_rules(true);
    let content = "enableDevTools: false; show: false; return window; createWindow)(); \
                   deviceInfo_js_1.devicePlatform === platform_js_1.Platform.MACOS";
    assert_eq!(written(apply_rule(&rules[1], &text(content)).action), patch_config_js(content));
    assert_eq!(written(apply_rule(&rules[2], &text(content)).action), patch_system_menu_js(content));
    assert_eq!(
        written(apply_rule(&rules[3], &text(content)).action),
        patch_create_window_js(content, true)
    );
    let plain = default_rules(false);
    assert_eq!(
        written(apply_rule(&plain[3], &text(content)).action),
        patch_create_window_js(content, false)
    );
    let main = format!("{}\n\n// YandexMusicMod main.js\n{}", patch_main_js(content), MOD_MAIN_JS);
    assert_eq!(written(apply_rule(&rules[4], &text(content)).action), main);
    let preload = format!("{}\n\n// YandexMusicMod preload.js\n{}", content, MOD_PRELOAD_JS);
    assert_eq!(written(apply_rule(&rules[5], &text(content)).action), preload);
}

#[test]
fn missing_targets_are_skipped_except_the_package_metadata() {
    let rules = default_rules(false);
    let result = apply_rule(&rules[0], &Found::Missing);
    assert_eq!(result.outcome.kind(), OutcomeKind::Failed);
    assert!(matches!(result.action, PatchAction::Nothing));
    for rule in rules.iter().skip(1) {
        let result = apply_rule(rule, &Found::Missing);
        assert!(matches!(result.outcome, PatchOutcome::SkippedMissing));
        assert!(matches!(result.action, PatchAction::Nothing));
    }
    let result = apply_rule(&html_rule(), &Found::Missing);
    assert!(matches!(result.outcome, PatchOutcome::SkippedMissing));
}

#[test]
fn directory_removal_on_a_missing_directory_is_a_quiet_success() {
    let rule = PatchRule { target: "app/media/splash_screen".to_string(), kind: PatchKind::DirectoryRemoval };
    let result = apply_rule(&rule, &Found::Missing);
    assert_eq!(result.outcome.kind(), OutcomeKind::SkippedMissing);
    assert!(matches!(result.action, PatchAction::Nothing));
    let result = apply_rule(&rule, &Found::Directory);
    assert_eq!(result.outcome.kind(), OutcomeKind::Applied);
    assert!(matches!(result.action, PatchAction::RemoveDirectory));
    let result = apply_rule(&rule, &text("a file"));
    assert_eq!(result.outcome.kind(), OutcomeKind::Failed);
    assert!(matches!(result.action, PatchAction::Nothing));
}

#[test]
fn package_metadata_rule_mutates_or_fails() {
    let rules = default_rules(false);
    let result = apply_rule(
        &rules[0],
        &text(r#"{"dependencies": {"@yandex-chats/signer": "1.0.0", "left-pad": "1.3.0"}}"#),
    );
    assert!(matches!(result.outcome, PatchOutcome::Applied));
    let json: serde_json::Value = serde_json::from_str(&written(result.action)).unwrap();
    assert!(json["dependencies"].get("@yandex-chats/signer").is_none());
    assert_eq!(json["dependencies"]["left-pad"], "1.3.0");
    assert_eq!(json["dependencies"].as_object().unwrap().len(), 1);

    let result = apply_rule(&rules[0], &text("not a document"));
    match result.outcome {
        PatchOutcome::Failed(reason) => {
            assert!(!reason.is_empty());
            assert!(!reason.starts_with("Patching failed: "));
        }
        other => panic!("unexpected outcome {:?}", other),
    }
    assert!(matches!(result.action, PatchAction::Nothing));
    let result = apply_rule(&rules[0], &Found::Directory);
    assert_eq!(result.outcome.kind(), OutcomeKind::Failed);
}

#[test]
fn script_rule_on_a_directory_fails() {
    let rules = default_rules(false);
    let result = apply_rule(&rules[1], &Found::Directory);
    assert_eq!(result.outcome.kind(), OutcomeKind::Failed);
    assert!(matches!(result.action, PatchAction::Nothing));
}

#[test]
fn tree_rewrite_selects_markup_documents() {
    let rule = html_rule();
    assert_eq!(rule.target, "app");
    assert!(selects(&rule, "app/index.html"));
    assert!(selects(&rule, "app/deep/er/page.html"));
    assert!(!selects(&rule, "app/index.htm"));
    assert!(!selects(&rule, "app/index.html.bak"));
    assert!(!selects(&rule, "app/.html"));
    assert!(!selects(&rule, "app/html"));
    assert!(!selects(&default_rules(false)[1], "app/index.html"));

    let input = "<html><head><title>Test</title></head></html>";
    assert_eq!(rewrite_file(&rule, "app/index.html", input), Some(patch_html(input)));
    assert_eq!(rewrite_file(&rule, "app/script.js", input), None);
    assert_eq!(rewrite_file(&default_rules(false)[1], "app/index.html", input), None);

    let result = apply_rule(&rule, &Found::Directory);
    assert!(matches!(result.outcome, PatchOutcome::Applied));
    assert!(matches!(result.action, PatchAction::RewriteTree));
}

#[test]
fn tree_rewrite_on_a_single_file() {
    let rule = PatchRule {
        target: "app/only.html".to_string(),
        kind: PatchKind::TreeRewrite { extension: "html".to_string(), script: Vec::new() },
    };
    let result = apply_rule(&rule, &text("x"));
    assert!(matches!(result.outcome, PatchOutcome::Applied));
    assert_eq!(written(result.action), "x");
    let result = apply_rule(&html_rule(), &text("x"));
    assert!(matches!(result.outcome, PatchOutcome::Applied));
    assert!(matches!(result.action, PatchAction::Nothing));
}

#[test]
fn extension_needs_a_dot_inside_the_name() {
    assert!(has_extension("a.html", "html"));
    assert!(has_extension("dir/a.b.html", "html"));
    assert!(has_extension("a..html", "html"));
    assert!(has_extension("a.", ""));
    assert!(!has_extension(".html", "html"));
    assert!(!has_extension("dir/.html", "html"));
    assert!(!has_extension("html", "html"));
    assert!(!has_extension("a.HTML", "html"));
    assert!(!has_extension("a.xhtml", "html"));
    assert!(!has_extension("", "html"));
    assert!(!has_extension("", ""));
    assert!(has_extension("документ.html", "html"));
}

#[test]
fn mod_assets_are_the_renderer_files() {
    let assets = mod_assets();
    assert_eq!(assets.len(), 2);
    assert_eq!(assets[0].path, "app/yandexMusicMod/renderer.js");
    assert_eq!(assets[0].content, MOD_RENDERER_JS);
    assert_eq!(assets[1].path, "app/yandexMusicMod/renderer.css");
    assert_eq!(assets[1].content, MOD_RENDERER_CSS);
}

#[test]
fn engine_applies_rules_in_order() {
    let mut run = PatchRun::new(default_rules(false));
    assert_eq!(run.pending(), Some(0));
    let action = run.step(&text("{}"));
    assert!(matches!(action, PatchAction::WriteText(_)));
    assert_eq!(run.pending(), Some(1));
    assert_eq!(written(run.step(&text("enableDevTools:false"))), "enableDevTools: true");
    for _ in 2..6 {
        assert!(matches!(run.step(&Found::Missing), PatchAction::Nothing));
    }
    assert_eq!(run.pending(), Some(6));
    assert!(matches!(run.step(&Found::Directory), PatchAction::RemoveDirectory));
    assert_eq!(run.pending(), None);
    assert!(!run.halted());
    assert!(matches!(run.step(&Found::Directory), PatchAction::Nothing));
    let outcomes = run.conclude().unwrap();
    let kinds: Vec<OutcomeKind> = outcomes.iter().map(|outcome| outcome.kind()).collect();
    assert_eq!(
        kinds,
        vec![
            OutcomeKind::Applied,
            OutcomeKind::Applied,
            OutcomeKind::SkippedMissing,
            OutcomeKind::SkippedMissing,
            OutcomeKind::SkippedMissing,
            OutcomeKind::SkippedMissing,
            OutcomeKind::Applied,
        ]
    );
}

#[test]
fn engine_stops_at_the_first_failure() {
    let mut run = PatchRun::new(default_rules(false));
    assert!(matches!(run.step(&Found::Missing), PatchAction::Nothing));
    assert!(run.halted());
    assert_eq!(run.pending(), None);
    assert!(matches!(run.step(&text("enableDevTools:false")), PatchAction::Nothing));
    assert_eq!(run.outcomes.len(), 1);
    match run.conclude() {
        Err(PatcherError::PatchError(detail)) => {
            assert_eq!(detail, "package.json: the required file is missing")
        }
        other => panic!("unexpected result {:?}", other),
    }
}

#[test]
fn engine_over_no_rules_is_done_at_once() {
    let run = PatchRun::new(Vec::new());
    assert_eq!(run.pending(), None);
    assert!(run.conclude().unwrap().is_empty());
}

/// A tree in memory: what stands at each path.
fn found_in(tree: &[(String, String)], directories: &[&str], target: &str) -> Found {
    if directories.contains(&target) {
        return Found::Directory;
    }
    match tree.iter().find(|(path, _)| path == target) {
        Some((_, content)) => Found::Text(content.clone()),
        None => Found::Missing,
    }
}

fn run_over(tree: &mut Vec<(String, String)>, directories: &mut Vec<&str>) -> Vec<OutcomeKind> {
    let mut run = PatchRun::new(default_rules(false));
    while let Some(index) = run.pending() {
        let target = run.rules[index].target.clone();
        let found = found_in(tree, directories, &target);
        match run.step(&found) {
            PatchAction::WriteText(text) => {
                for entry in tree.iter_mut() {
                    if entry.0 == target {
                        entry.1 = text.clone();
                    }
                }
            }
            PatchAction::RemoveDirectory => directories.retain(|dir| *dir != target),
            PatchAction::Nothing | PatchAction::RewriteTree => {}
        }
    }
    run.conclude().unwrap().iter().map(|outcome| outcome.kind()).collect()
}

fn content_of<'a>(tree: &'a [(String, String)], path: &str) -> &'a str {
    &tree.iter().find(|(p, _)| p == path).unwrap().1
}

#[test]
fn second_run_over_a_tree_repeats_only_the_appends() {
    let mut tree = vec![
        (
            "package.json".to_string(),
            r#"{"name": "yandex-music", "dependencies": {"@yandex-chats/signer": "1", "b": "2"}}"#
                .to_string(),
        ),
        ("main/config.js".to_string(), "enableDevTools:false, enableAutoUpdate: true".to_string()),
        ("main/lib/preload.js".to_string(), "preload();".to_string()),
    ];
    let mut directories = vec!["app/media/splash_screen"];

    let first = run_over(&mut tree, &mut directories);
    assert_eq!(
        first,
        vec![
            OutcomeKind::Applied,
            OutcomeKind::Applied,
            OutcomeKind::SkippedMissing,
            OutcomeKind::SkippedMissing,
            OutcomeKind::SkippedMissing,
            OutcomeKind::Applied,
            OutcomeKind::Applied,
        ]
    );
    assert!(directories.is_empty());
    let after_first = tree.clone();
    assert_eq!(
        content_of(&tree, "main/config.js"),
        "enableDevTools: true, enableAutoUpdate: false"
    );

    let second = run_over(&mut tree, &mut directories);
    assert_eq!(second[6], OutcomeKind::SkippedMissing);
    assert_eq!(content_of(&tree, "package.json"), content_of(&after_first, "package.json"));
    assert_eq!(content_of(&tree, "main/config.js"), content_of(&after_first, "main/config.js"));
    let once = content_of(&after_first, "main/lib/preload.js");
    let twice = content_of(&tree, "main/lib/preload.js");
    assert_ne!(once, twice);
    assert_eq!(once.matches("// YandexMusicMod preload.js").count(), 1);
    assert_eq!(twice.matches("// YandexMusicMod preload.js").count(), 2);
}

fn reason_of(outcome: PatchOutcome) -> String {
    match outcome {
        PatchOutcome::Failed(reason) => reason,
        other => panic!("unexpected outcome {:?}", other),
    }
}

#[test]
fn failures_say_why() {
    let rules = default_rules(false);
    assert_eq!(
        reason_of(apply_rule(&rules[0], &Found::Missing).outcome),
        "the required file is missing"
    );
    assert_eq!(
        reason_of(apply_rule(&rules[0], &Found::Directory).outcome),
        "the target is a directory, not a file"
    );
    assert_eq!(
        reason_of(apply_rule(&rules[0], &text("[1, 2, 3]")).outcome),
        "package metadata is not a JSON object"
    );
    assert_eq!(
        reason_of(apply_rule(&rules[4], &Found::Directory).outcome),
        "the target is a directory, not a file"
    );
    assert_eq!(
        reason_of(apply_rule(&rules[6], &text("file")).outcome),
        "the target is a file, not a directory"
    );
}
