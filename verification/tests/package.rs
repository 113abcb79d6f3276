use yandex_music_mod::error::PatcherError;
use yandex_music_mod::package::{banned_dependencies, mutate_package};
use yandex_music_mod::patches::{banned_headers, blocked_analytics_urls};

fn parse(text: &str) -> serde_json::Value {
    serde_json::from_str(text).unwrap()
}

#[test]
fn mutation_of_a_value_strips_and_fills() {
    let doc = parse(
        r#"{"dependencies": {"@yandex-chats/signer": "1", "keep": "2"}, "common": {}, "x": [1]}"#,
    );
    let mutated = mutate_package(doc).unwrap();
    let expected = parse(
        r#"{
            "author": "YandexMusicBetaModeFastLP [github.com/Jhon-Crow/YandexMusicBetaModeFastLP]",
            "build": {
                "appId": "ru.yandex.desktop.music.mod",
                "productName": "Яндекс Музыка",
                "win": {"icon": "assets/icon.ico"},
                "mac": {"icon": "assets/icon.ico"},
                "linux": {"icon": "assets/icon.png"},
                "extraResources": [{"from": "assets/", "to": "assets/", "filter": ["**/*"]}]
            },
            "common": {
                "REFRESH_EVENT_TRIGGER_TIME_MS": 999999999,
                "UPDATE_POLL_INTERVAL_MS": 999999999,
                "SUPPORT_URL": "<empty>"
            },
            "dependencies": {"keep": "2"},
            "name": "YandexMusicMod",
            "x": [1]
        }"#,
    );
    assert_eq!(mutated, expected);
}

#[test]
fn mutation_is_idempotent_on_values() {
    let doc = parse(
        r#"{"devDependencies": {"@yandex-chats/signer": "1"}, "meta": {"APP_ID": "old"},
            "appConfig": {"enableAutoUpdate": true}, "name": 7}"#,
    );
    let once = mutate_package(doc).unwrap();
    let twice = mutate_package(once.clone()).unwrap();
    assert_eq!(once, twice);
    assert_eq!(once["meta"]["APP_ID"], "ru.yandex.desktop.music.mod");
    assert_eq!(once["appConfig"]["enableAutoUpdate"], false);
    assert_eq!(once["devDependencies"].as_object().unwrap().len(), 0);
}

#[test]
fn mutation_refuses_what_is_no_object() {
    for text in ["[]", "1", "\"s\"", "false"] {
        assert!(matches!(mutate_package(parse(text)), Err(PatcherError::PatchError(_))));
    }
    let from_null = mutate_package(serde_json::Value::Null).unwrap();
    assert_eq!(from_null.as_object().unwrap().len(), 3);
}

#[test]
fn fixed_lists() {
    assert_eq!(banned_dependencies(), vec!["@yandex-chats/signer"]);
    assert_eq!(banned_headers(), vec!["x-yandex-music-device", "x-request-id"]);
    let urls = blocked_analytics_urls();
    assert_eq!(urls.len(), 10);
    assert_eq!(urls[0], "https://yandex.ru/clck/*");
    assert_eq!(urls[9], "https://strm.yandex.ru/ping");
}
