use yandex_music_mod::patches::{
    generate_analytics_blocker_js, generate_settings_reader_js, patch_config_js,
    patch_create_window_js, patch_html, patch_main_js, patch_package_json, patch_system_menu_js,
    HTML_INJECTION,
};

#[test]
fn test_patch_config_js() {
    let input = "enableDevTools: false, enableAutoUpdate: true";
    let output = patch_config_js(input);
    assert!(output.contains("enableDevTools: true"));
    assert!(output.contains("enableAutoUpdate: false"));
}

#[test]
fn test_patch_html() {
    let input = "<html><head><title>Test</title></head></html>";
    let output = patch_html(input);
    assert!(output.contains("yandexMusicMod/renderer.js"));
    assert!(output.contains("yandexMusicMod/renderer.css"));
}

#[test]
fn test_patch_package_json() {
    let input = r#"{
            "name": "yandex-music",
            "dependencies": {"@yandex-chats/signer": "1.0.0", "other": "2.0.0"},
            "common": {"OLD": 100},
            "meta": {"PRODUCT_NAME": "Yandex Music"},
            "appConfig": {"enableDevTools": false}
        }"#;

    let output = patch_package_json(input).unwrap();
    let json: serde_json::Value = serde_json::from_str(&output).unwrap();

    assert_eq!(json["name"], "YandexMusicMod");
    assert!(json["dependencies"]["@yandex-chats/signer"].is_null());
    assert!(!json["dependencies"]["other"].is_null());
}

#[test]
fn config_js_exact_output() {
    assert_eq!(
        patch_config_js("enableDevTools: false, enableAutoUpdate: true"),
        "enableDevTools: true, enableAutoUpdate: false"
    );
    assert_eq!(
        patch_config_js("a{enableDevTools:false,enableAutoUpdate:true}"),
        "a{enableDevTools: true,enableAutoUpdate: false}"
    );
    assert_eq!(patch_config_js("nothing to do"), "nothing to do");
    assert_eq!(patch_config_js(""), "");
}

#[test]
fn config_js_second_run_changes_nothing() {
    let once = patch_config_js("x enableDevTools: false y enableAutoUpdate:true z");
    let twice = patch_config_js(&once);
    assert_eq!(once, twice);
}

#[test]
fn config_js_overlap_is_replaced_again() {
    let input = "enableDevTools: falsenableDevTools: false";
    let once = patch_config_js(input);
    assert_eq!(once, "enableDevTools: truenableDevTools: false");
    let twice = patch_config_js(&once);
    assert_eq!(twice, "enableDevTools: truenableDevTools: true");
}

#[test]
fn html_injection_stands_once_behind_head() {
    let input = "<html><head><title>Test</title></head></html>";
    let output = patch_html(input);
    assert_eq!(output.matches("<script src=\"/yandexMusicMod/renderer.js\"></script>").count(), 1);
    assert_eq!(
        output.matches("<link rel=\"stylesheet\" href=\"/yandexMusicMod/renderer.css\">").count(),
        1
    );
    let expected = format!("<html>{}<title>Test</title></head></html>", HTML_INJECTION);
    assert_eq!(output, expected);
    assert!(output.starts_with("<html><head>"));
    assert!(output.ends_with("<title>Test</title></head></html>"));
}

#[test]
fn html_without_head_is_unchanged() {
    assert_eq!(patch_html("<html><body></body></html>"), "<html><body></body></html>");
}

#[test]
fn system_menu_gets_reader_and_setting() {
    let input = "if (deviceInfo_js_1.devicePlatform === platform_js_1.Platform.MACOS) {}";
    let output = patch_system_menu_js(input);
    let expected = format!("{}\n{}", generate_settings_reader_js(), "if (enableSystemToolbar) {}");
    assert_eq!(output, expected);
}

#[test]
fn create_window_without_devtools() {
    let input = "a config_js_1.config.app.enableDevTools b titleBarStyle: 'hidden' c \
                 titleBarStyle:'hidden' d minWidth: 768 e minHeight: 650 f show: false g return window;";
    let output = patch_create_window_js(input, false);
    let expected = format!(
        "{}\n{}",
        generate_settings_reader_js(),
        "a true b titleBarStyle: !enableSystemToolbar && 'hidden' c \
         titleBarStyle: !enableSystemToolbar && 'hidden' d minWidth: 360 e minHeight: 550 f show: true g return window;"
    );
    assert_eq!(output, expected);
}

#[test]
fn create_window_with_devtools() {
    let output = patch_create_window_js("x; return window; }", true);
    let expected = format!(
        "{}\n{}",
        generate_settings_reader_js(),
        "x; window.webContents.openDevTools();\nreturn window; }"
    );
    assert_eq!(output, expected);
}

#[test]
fn settings_reader_reads_the_toolbar_setting() {
    let reader = generate_settings_reader_js();
    assert!(reader.starts_with("\nconst fs = require(\"fs\");\n"));
    assert!(reader.contains("[\"devtools/systemToolbar\"]"));
    assert!(reader.ends_with("} catch (e) {}\n"));
}

#[test]
fn analytics_blocker_lists_urls_and_headers() {
    let blocker = generate_analytics_blocker_js();
    assert!(blocker.starts_with("\nconst { session } = require(\"electron\");\n"));
    assert!(blocker.contains(
        "    urls: [\"https://yandex.ru/clck/*\",\"https://mc.yandex.ru/*\",\"https://api.music.yandex.net/dynamic-pages/trigger/*\",\"https://log.strm.yandex.ru/*\",\"https://api.acquisition-gwe.plus.yandex.net/*\",\"https://api.events.plus.yandex.net/*\",\"https://events.plus.yandex.net/*\",\"https://plus.yandex.net/*\",\"https://yandex.ru/ads/*\",\"https://strm.yandex.ru/ping\"],\n"
    ));
    assert!(blocker
        .contains("    const bannedHeaders = [\"x-yandex-music-device\",\"x-request-id\"];\n"));
    assert!(blocker.contains("    callback({ cancel: true });\n"));
    assert!(blocker.ends_with("  },\n);\n"));
}

#[test]
fn main_js_gets_blocker_behind_create_window() {
    let output = patch_main_js("(0, createWindow_js_1.createWindow)();\nrest");
    let expected = format!(
        "(0, createWindow_js_1.createWindow)();{}\nrest",
        generate_analytics_blocker_js()
    );
    assert_eq!(output, expected);
    assert_eq!(patch_main_js("no call here"), "no call here");
}

#[test]
fn package_json_rejects_what_is_no_document() {
    let err = patch_package_json("{ not json").unwrap_err();
    assert!(matches!(err, yandex_music_mod::error::PatcherError::PatchError(_)));
    assert!(err.message().starts_with("Patching failed: "));
}

#[test]
fn package_json_rejects_what_is_no_object() {
    for input in ["[1, 2]", "42", "\"text\"", "true"] {
        let err = patch_package_json(input).unwrap_err();
        assert!(matches!(err, yandex_music_mod::error::PatcherError::PatchError(_)));
    }
}

#[test]
fn package_json_null_counts_as_empty_object() {
    let output = patch_package_json("null").unwrap();
    let json: serde_json::Value = serde_json::from_str(&output).unwrap();
    let keys: Vec<&String> = json.as_object().unwrap().keys().collect();
    assert_eq!(keys, vec!["author", "build", "name"]);
}

#[test]
fn package_json_without_sections_still_gets_identity() {
    let output = patch_package_json("{}").unwrap();
    let json: serde_json::Value = serde_json::from_str(&output).unwrap();
    assert_eq!(json["name"], "YandexMusicMod");
    assert_eq!(
        json["author"],
        "YandexMusicBetaModeFastLP [github.com/Jhon-Crow/YandexMusicBetaModeFastLP]"
    );
    assert_eq!(json["build"]["appId"], "ru.yandex.desktop.music.mod");
    assert_eq!(json["build"]["productName"], "Яндекс Музыка");
    assert_eq!(json["build"]["win"]["icon"], "assets/icon.ico");
    assert_eq!(json["build"]["mac"]["icon"], "assets/icon.ico");
    assert_eq!(json["build"]["linux"]["icon"], "assets/icon.png");
    assert_eq!(json["build"]["extraResources"][0]["from"], "assets/");
    assert_eq!(json["build"]["extraResources"][0]["to"], "assets/");
    assert_eq!(json["build"]["extraResources"][0]["filter"][0], "**/*");
    assert!(json.get("common").is_none());
    assert!(json.get("meta").is_none());
    assert!(json.get("appConfig").is_none());
    assert!(json.get("dependencies").is_none());
}

#[test]
fn package_json_fills_sections() {
    let input = r#"{
        "dependencies": {"@yandex-chats/signer": "1.0.0", "other": "2.0.0"},
        "devDependencies": {"@yandex-chats/signer": "1.0.0", "tool": "3.0.0"},
        "common": {"OLD": 100, "SUPPORT_URL": "https://example.org"},
        "meta": {"PRODUCT_NAME": "Yandex Music"},
        "appConfig": {"enableDevTools": false, "kept": 1},
        "untouched": [1, 2.5, "x", null]
    }"#;
    let output = patch_package_json(input).unwrap();
    let json: serde_json::Value = serde_json::from_str(&output).unwrap();
    assert!(json["dependencies"].get("@yandex-chats/signer").is_none());
    assert_eq!(json["dependencies"]["other"], "2.0.0");
    assert!(json["devDependencies"].get("@yandex-chats/signer").is_none());
    assert_eq!(json["devDependencies"]["tool"], "3.0.0");
    assert_eq!(json["common"]["OLD"], 100);
    assert_eq!(json["common"]["REFRESH_EVENT_TRIGGER_TIME_MS"], 999_999_999);
    assert_eq!(json["common"]["UPDATE_POLL_INTERVAL_MS"], 999_999_999);
    assert_eq!(json["common"]["SUPPORT_URL"], "<empty>");
    assert_eq!(json["meta"]["PRODUCT_NAME"], "Yandex Music Mod");
    assert_eq!(json["meta"]["PRODUCT_NAME_LOCALIZED"], "Yandex Music Mod");
    assert_eq!(json["meta"]["APP_ID"], "ru.yandex.desktop.music.mod");
    assert_eq!(
        json["meta"]["COPYRIGHT"],
        "YandexMusicBetaModeFastLP [github.com/Jhon-Crow/YandexMusicBetaModeFastLP]"
    );
    assert_eq!(
        json["meta"]["TRADEMARK"],
        "YandexMusicBetaModeFastLP [github.com/Jhon-Crow/YandexMusicBetaModeFastLP]"
    );
    assert_eq!(json["appConfig"]["enableDevTools"], true);
    assert_eq!(json["appConfig"]["enableAutoUpdate"], false);
    assert_eq!(json["appConfig"]["enableUpdateByProbability"], false);
    assert_eq!(json["appConfig"]["systemDefaultLanguage"], "ru");
    assert_eq!(json["appConfig"]["kept"], 1);
    let untouched: serde_json::Value = serde_json::from_str("[1, 2.5, \"x\", null]").unwrap();
    assert_eq!(json["untouched"], untouched);
}

#[test]
fn package_json_sections_that_are_no_objects_stay() {
    let output = patch_package_json(r#"{"dependencies": 3, "common": "text", "meta": [1]}"#).unwrap();
    let json: serde_json::Value = serde_json::from_str(&output).unwrap();
    assert_eq!(json["dependencies"], 3);
    assert_eq!(json["common"], "text");
    assert_eq!(json["meta"][0], 1);
}

#[test]
fn package_json_second_run_changes_nothing() {
    let input = r#"{"name": "yandex-music", "dependencies": {"@yandex-chats/signer": "1", "b": "2"},
        "common": {}, "meta": {}, "appConfig": {}}"#;
    let once = patch_package_json(input).unwrap();
    let twice = patch_package_json(&once).unwrap();
    assert_eq!(once, twice);
}

#[test]
fn package_json_is_written_pretty() {
    let output = patch_package_json(r#"{"zeta": 1}"#).unwrap();
    assert!(output.starts_with("{\n  \"author\": "));
    assert!(output.ends_with("\n  \"zeta\": 1\n}"));
}
