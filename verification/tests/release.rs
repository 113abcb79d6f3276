use yandex_music_mod::error::PatcherError;
use yandex_music_mod::cli::{
    download_target, hash_preview, select_build, should_wait_before_exit, DEFAULT_OUTPUT_DIR,
};
use yandex_music_mod::release::{
    builds_from_update, download_url, manifest_url, AppBuild, CommonConfig, UpdateFile,
    UpdateInfo, UPDATE_DOMAIN,
};

fn info() -> UpdateInfo {
    UpdateInfo {
        files: vec![
            UpdateFile { url: "Yandex_Music_x64_5.0.1.exe".to_string(), sha512: "abc".to_string(), size: 100 },
            UpdateFile { url: "Yandex_Music_x86_5.0.1.exe".to_string(), sha512: "def".to_string(), size: 90 },
        ],
        release_date: Some("2024-01-01".to_string()),
        version: "5.0.1".to_string(),
        common_config: Some(CommonConfig { deprecated_versions: Some("<4.0.0".to_string()) }),
    }
}

#[test]
fn one_build_for_each_file() {
    let builds = builds_from_update(&info());
    assert_eq!(builds.len(), 2);
    assert_eq!(builds[0].path, "Yandex_Music_x64_5.0.1.exe");
    assert_eq!(builds[0].hash, "abc");
    assert_eq!(builds[0].size, 100);
    assert_eq!(builds[1].path, "Yandex_Music_x86_5.0.1.exe");
    assert_eq!(builds[1].hash, "def");
    assert_eq!(builds[1].size, 90);
    for build in &builds {
        assert_eq!(build.version, "5.0.1");
        assert_eq!(build.release_date.as_deref(), Some("2024-01-01"));
        assert_eq!(build.deprecated_versions.as_deref(), Some("<4.0.0"));
    }
}

#[test]
fn release_without_config_or_files() {
    let bare = UpdateInfo {
        files: vec![UpdateFile { url: "a.exe".to_string(), sha512: "h".to_string(), size: 1 }],
        release_date: None,
        version: "1".to_string(),
        common_config: None,
    };
    let builds = builds_from_update(&bare);
    assert_eq!(builds.len(), 1);
    assert_eq!(builds[0].release_date, None);
    assert_eq!(builds[0].deprecated_versions, None);
    let unset = UpdateInfo {
        files: Vec::new(),
        release_date: None,
        version: "1".to_string(),
        common_config: Some(CommonConfig { deprecated_versions: None }),
    };
    assert!(builds_from_update(&unset).is_empty());
}

#[test]
fn the_first_build_is_selected() {
    let builds = builds_from_update(&info());
    assert_eq!(select_build(&builds).unwrap().path, "Yandex_Music_x64_5.0.1.exe");
    let none: Vec<AppBuild> = Vec::new();
    match select_build(&none) {
        Err(PatcherError::InvalidBuildInfo(detail)) => assert_eq!(detail, "No builds found"),
        other => panic!("unexpected result {:?}", other),
    }
}

#[test]
fn urls_and_targets() {
    assert_eq!(UPDATE_DOMAIN, "https://music-desktop-application.s3.yandex.net");
    assert_eq!(
        manifest_url(),
        "https://music-desktop-application.s3.yandex.net/stable/latest.yml"
    );
    let builds = builds_from_update(&info());
    assert_eq!(
        download_url(&builds[0]),
        "https://music-desktop-application.s3.yandex.net/stable/Yandex_Music_x64_5.0.1.exe"
    );
    assert_eq!(download_target(DEFAULT_OUTPUT_DIR, "5.0.1"), ".versions/5.0.1.exe");
}

#[test]
fn hash_preview_is_cut_at_thirty_two_characters() {
    let long = "0123456789abcdef0123456789abcdef0123456789";
    assert_eq!(hash_preview(long), "0123456789abcdef0123456789abcdef");
    assert_eq!(hash_preview("short"), "short");
    assert_eq!(hash_preview(""), "");
    assert_eq!(hash_preview("0123456789abcdef0123456789abcdef"), "0123456789abcdef0123456789abcdef");
}

#[test]
fn error_messages_carry_their_prefix() {
    let all = vec![
        (PatcherError::DownloadError("x".to_string()), "Failed to download build: x"),
        (PatcherError::ExtractionError("x".to_string()), "Failed to extract archive: x"),
        (PatcherError::YamlParseError("x".to_string()), "Failed to parse YAML: x"),
        (PatcherError::InvalidBuildInfo("x".to_string()), "Invalid build info: x"),
        (PatcherError::FileNotFound("x".to_string()), "File not found: x"),
        (PatcherError::AsarError("x".to_string()), "ASAR extraction failed: x"),
        (PatcherError::PatchError("x".to_string()), "Patching failed: x"),
        (PatcherError::IoError("x".to_string()), "IO error: x"),
        (PatcherError::HttpError("x".to_string()), "HTTP error: x"),
    ];
    for (error, message) in all {
        assert_eq!(error.message(), message);
    }
}

#[test]
fn waits_only_on_windows_without_a_terminal() {
    assert!(should_wait_before_exit(true, false, false, false, false));
    assert!(!should_wait_before_exit(false, false, false, false, false));
    assert!(!should_wait_before_exit(true, true, false, false, false));
    assert!(!should_wait_before_exit(true, false, true, false, false));
    assert!(!should_wait_before_exit(true, false, false, true, false));
    assert!(!should_wait_before_exit(true, false, false, false, true));
}

#[test]
fn error_detail_is_the_message_without_its_prefix() {
    let error = PatcherError::FileNotFound("app.asar".to_string());
    assert_eq!(error.detail(), "app.asar");
    assert_eq!(error.message(), "File not found: app.asar");
    assert_eq!(PatcherError::IoError(String::new()).detail(), "");
}
