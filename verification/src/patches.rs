//! The patches themselves: the edit script of each script file and markup
//! document, the mutation of the package metadata, and the files that the
//! mod adds to the application.

use crate::error::PatcherError;
use crate::json::{
    encode_string_list, failure_text, json_parse, json_pretty, json_string_list, parse_document,
    render_document, JsonValue,
};
use crate::package::{lemma_mutation_idempotent, mutate_package, mutate_spec};
use crate::text::{
    apply_script, lemma_replace_single_match, lemma_run_script_push, occurs, occurs_at,
    replace_all, run_script, script_view, strings_view, EditStep, EditStepView,
};
use vstd::prelude::*;

verus! {

/// The script that reads the mod's settings; it goes in front of the files
/// that consult them.
pub const SETTINGS_READER_JS: &'static str = r#"
const fs = require("fs");
const path = require("path");
const electron = require("electron");
const appFolder = electron.app.getPath("userData");
const settingsFilePath = path.join(appFolder, "mod_settings.json");
let enableSystemToolbar = false;
try {
  enableSystemToolbar = JSON.parse(fs.readFileSync(settingsFilePath, "utf8"))["devtools/systemToolbar"];
} catch (e) {}
"#;

/// The request blocker up to its list of URL patterns.
pub const BLOCKER_HEAD_JS: &'static str = r#"
const { session } = require("electron");
session.defaultSession.webRequest.onBeforeRequest(
  {
    urls: "#;

/// The request blocker between its list of URL patterns and its list of
/// headers.
pub const BLOCKER_BODY_JS: &'static str = r#",
  },
  (details, callback) => {
    callback({ cancel: true });
  },
);

session.defaultSession.webRequest.onBeforeSendHeaders(
  {
    urls: ["https://api.music.yandex.net/*"],
  },
  (details, callback) => {
    const bannedHeaders = "#;

/// The request blocker after its list of headers.
pub const BLOCKER_TAIL_JS: &'static str = r#";
    bannedHeaders.forEach((header) => {
      details.requestHeaders[header] = undefined;
    });
    callback({ requestHeaders: details.requestHeaders });
  },
);
"#;

/// What takes the place of the opening head tag of a markup document: the
/// tag itself, then the references to the mod's script and stylesheet.
pub const HTML_INJECTION: &'static str = r#"<head><script src="/yandexMusicMod/renderer.js"></script>
        <link rel="stylesheet" href="/yandexMusicMod/renderer.css">"#;

/// The comment that separates the main-process entry script from the mod's
/// code behind it.
pub const MAIN_JS_SEPARATOR: &'static str = "\n\n// YandexMusicMod main.js\n";

/// The comment that separates the preload script from the mod's code behind
/// it.
pub const PRELOAD_JS_SEPARATOR: &'static str = "\n\n// YandexMusicMod preload.js\n";

/// The mod's code for the main process: settings storage, folder dialogs
/// and downloads over IPC.
pub const MOD_MAIN_JS: &'static str = r#"
const electron = require("electron");
const fs = require("fs");
const path = require("path");
const process = require("process");

const appFolder = electron.app.getPath("userData");
const settingsFilePath = path.join(appFolder, "mod_settings.json");
const defaultDownloadPath = path.join(appFolder, "Downloads");

// Create settings directory
fs.mkdir(appFolder, { recursive: true }, (err) => {
  if (err) return console.error(err);
  console.log("mod_settings directory created successfully!");
});

// Create default download directory
fs.mkdir(defaultDownloadPath, { recursive: true }, (err) => {
  if (err) return console.error(err);
  console.log("Default download directory created successfully!");
});

// Initialize settings file
if (!fs.existsSync(settingsFilePath)) {
  const initialSettings = {
    downloadFolderPath: defaultDownloadPath,
  };
  fs.writeFileSync(settingsFilePath, JSON.stringify(initialSettings, null, 2));
} else {
  try {
    const settings = JSON.parse(fs.readFileSync(settingsFilePath, "utf8"));
    if (!settings.downloadFolderPath) {
      settings.downloadFolderPath = defaultDownloadPath;
      fs.writeFileSync(settingsFilePath, JSON.stringify(settings, null, 2));
    }
  } catch (e) {
    const initialSettings = {
      downloadFolderPath: defaultDownloadPath,
    };
    fs.writeFileSync(settingsFilePath, JSON.stringify(initialSettings, null, 2));
  }
}

// IPC handlers for settings
electron.ipcMain.handle("yandexMusicMod.getStorageValue", (_ev, key) => {
  const settings = fs.readFileSync(settingsFilePath, "utf8") || "{}";
  const parsed = JSON.parse(settings);
  return parsed[key] !== undefined ? parsed[key] : null;
});

electron.ipcMain.on("yandexMusicMod.setStorageValue", (_ev, key, value) => {
  const settings = JSON.parse(fs.readFileSync(settingsFilePath, "utf8"));
  settings[key] = value;
  fs.writeFileSync(settingsFilePath, JSON.stringify(settings, null, 2));

  electron.BrowserWindow.getAllWindows().forEach((window) =>
    window.webContents.send("yandexMusicMod.storageValueUpdated", key, value),
  );
});

// Folder selection dialog
electron.ipcMain.handle("yandexMusicMod.selectDownloadFolder", async (_ev) => {
  const result = await electron.dialog.showOpenDialog({
    properties: ["openDirectory"],
    title: "Select download folder",
  });

  if (result.canceled || !result.filePaths.length) {
    return { success: false, path: null };
  }

  return { success: true, path: result.filePaths[0] };
});

// Open folder
electron.ipcMain.handle("yandexMusicMod.openFolder", async (_ev, folderPath) => {
  try {
    require("child_process").exec(`start "" "${folderPath}"`);
    return { success: true };
  } catch (error) {
    console.error("Failed to open folder:", error);
    return { success: false, error: error.message };
  }
});

// Open download directory
electron.ipcMain.on("yandexMusicMod.openDownloadDirectory", (_ev) => {
  let saveFolder;
  try {
    const settings = JSON.parse(fs.readFileSync(settingsFilePath, "utf8"));
    saveFolder = settings.downloadFolderPath || process.env.USERPROFILE + "\\YandexMod Download";
  } catch (e) {
    saveFolder = process.env.USERPROFILE + "\\YandexMod Download";
  }
  require("child_process").exec('start "" "' + saveFolder + '"');
});

console.log("YandexMusicMod main.js loaded successfully!");
"#;

/// The mod's code for the preload script: the API exposed to the renderer.
pub const MOD_PRELOAD_JS: &'static str = r#"
const { contextBridge, ipcRenderer } = require("electron");

// Expose mod API to the renderer process
contextBridge.exposeInMainWorld("yandexMusicMod", {
  getStorageValue: (key) => ipcRenderer.invoke("yandexMusicMod.getStorageValue", key),
  setStorageValue: (key, value) => ipcRenderer.send("yandexMusicMod.setStorageValue", key, value),
  onStorageValueUpdated: (callback) => {
    ipcRenderer.on("yandexMusicMod.storageValueUpdated", (event, key, value) => {
      callback(key, value);
    });
  },
  selectDownloadFolder: () => ipcRenderer.invoke("yandexMusicMod.selectDownloadFolder"),
  openFolder: (folderPath) => ipcRenderer.invoke("yandexMusicMod.openFolder", folderPath),
  openDownloadDirectory: () => ipcRenderer.send("yandexMusicMod.openDownloadDirectory"),
});

console.log("YandexMusicMod preload.js loaded successfully!");
"#;

/// The mod's renderer script.
pub const MOD_RENDERER_JS: &'static str = r#"
(function() {
  console.log("YandexMusicMod renderer.js loaded!");

  // Wait for the page to load
  window.addEventListener("load", function() {
    console.log("YandexMusicMod: Page loaded");

    // Add mod indicator
    const modIndicator = document.createElement("div");
    modIndicator.style.cssText = "position:fixed;bottom:10px;right:10px;padding:5px 10px;background:rgba(0,0,0,0.7);color:#fff;border-radius:5px;font-size:12px;z-index:9999;";
    modIndicator.textContent = "YandexMusicMod";
    document.body.appendChild(modIndicator);

    // Hide indicator after 5 seconds
    setTimeout(() => {
      modIndicator.style.opacity = "0";
      modIndicator.style.transition = "opacity 0.5s";
      setTimeout(() => modIndicator.remove(), 500);
    }, 5000);
  });
})();
"#;

/// The mod's renderer stylesheet.
pub const MOD_RENDERER_CSS: &'static str = r#"
/* YandexMusicMod custom styles */

/* Hide upgrade banners */
.upgrade-banner,
.plus-promo,
.subscription-promo {
  display: none !important;
}

/* Custom scrollbar */
::-webkit-scrollbar {
  width: 8px;
}

::-webkit-scrollbar-track {
  background: rgba(0, 0, 0, 0.1);
}

::-webkit-scrollbar-thumb {
  background: rgba(255, 255, 255, 0.3);
  border-radius: 4px;
}

::-webkit-scrollbar-thumb:hover {
  background: rgba(255, 255, 255, 0.5);
}
"#;

/// URL patterns of analytics and telemetry requests that the patched
/// application cancels.
pub open spec fn blocked_analytics_urls_spec() -> Seq<Seq<char>> {
    seq![
        "https://yandex.ru/clck/*"@,
        "https://mc.yandex.ru/*"@,
        "https://api.music.yandex.net/dynamic-pages/trigger/*"@,
        "https://log.strm.yandex.ru/*"@,
        "https://api.acquisition-gwe.plus.yandex.net/*"@,
        "https://api.events.plus.yandex.net/*"@,
        "https://events.plus.yandex.net/*"@,
        "https://plus.yandex.net/*"@,
        "https://yandex.ru/ads/*"@,
        "https://strm.yandex.ru/ping"@,
    ]
}

/// The URL patterns of analytics and telemetry requests that the patched
/// application cancels.
pub fn blocked_analytics_urls() -> (r: Vec<String>)
    ensures
        strings_view(r@) == blocked_analytics_urls_spec(),
{
    let mut list: Vec<String> = Vec::new();
    list.push("https://yandex.ru/clck/*".to_owned());
    list.push("https://mc.yandex.ru/*".to_owned());
    list.push("https://api.music.yandex.net/dynamic-pages/trigger/*".to_owned());
    list.push("https://log.strm.yandex.ru/*".to_owned());
    list.push("https://api.acquisition-gwe.plus.yandex.net/*".to_owned());
    list.push("https://api.events.plus.yandex.net/*".to_owned());
    list.push("https://events.plus.yandex.net/*".to_owned());
    list.push("https://plus.yandex.net/*".to_owned());
    list.push("https://yandex.ru/ads/*".to_owned());
    list.push("https://strm.yandex.ru/ping".to_owned());
    proof {
        assert(strings_view(list@) =~= blocked_analytics_urls_spec());
    }
    list
}

/// Headers that the patched application strips from API requests.
pub open spec fn banned_headers_spec() -> Seq<Seq<char>> {
    seq!["x-yandex-music-device"@, "x-request-id"@]
}

/// The headers that the patched application strips from API requests.
pub fn banned_headers() -> (r: Vec<String>)
    ensures
        strings_view(r@) == banned_headers_spec(),
{
    let mut list: Vec<String> = Vec::new();
    list.push("x-yandex-music-device".to_owned());
    list.push("x-request-id".to_owned());
    proof {
        assert(strings_view(list@) =~= banned_headers_spec());
    }
    list
}

/// A step that replaces `from` by `to`.
pub open spec fn replace_view(from: &str, to: &str) -> EditStepView {
    EditStepView::Replace { from: from@, to: to@ }
}

/// A step that replaces `from` by `to`.
pub fn replace_step(from: &str, to: &str) -> (r: EditStep)
    ensures
        r@ == replace_view(from, to),
{
    EditStep::Replace { from: from.to_owned(), to: to.to_owned() }
}

/// The edit script of the runtime-configuration script: developer tools on,
/// automatic updates off, with or without a space after the colon.
pub open spec fn config_js_script() -> Seq<EditStepView> {
    seq![
        replace_view("enableDevTools: false", "enableDevTools: true"),
        replace_view("enableDevTools:false", "enableDevTools: true"),
        replace_view("enableAutoUpdate: true", "enableAutoUpdate: false"),
        replace_view("enableAutoUpdate:true", "enableAutoUpdate: false"),
    ]
}

/// The edit script of the runtime-configuration script.
pub fn config_js_steps() -> (r: Vec<EditStep>)
    ensures
        script_view(r@) == config_js_script(),
{
    let mut steps: Vec<EditStep> = Vec::new();
    steps.push(replace_step("enableDevTools: false", "enableDevTools: true"));
    steps.push(replace_step("enableDevTools:false", "enableDevTools: true"));
    steps.push(replace_step("enableAutoUpdate: true", "enableAutoUpdate: false"));
    steps.push(replace_step("enableAutoUpdate:true", "enableAutoUpdate: false"));
    proof {
        assert(script_view(steps@) =~= config_js_script());
    }
    steps
}

/// The patched runtime-configuration script: four replacements, one after
/// another.
pub open spec fn config_js_spec(content: Seq<char>) -> Seq<char> {
    let a = replace_all(content, "enableDevTools: false"@, "enableDevTools: true"@);
    let b = replace_all(a, "enableDevTools:false"@, "enableDevTools: true"@);
    let c = replace_all(b, "enableAutoUpdate: true"@, "enableAutoUpdate: false"@);
    replace_all(c, "enableAutoUpdate:true"@, "enableAutoUpdate: false"@)
}

/// The edit script of the runtime-configuration script gives the patched
/// script.
pub proof fn lemma_config_js_script(content: Seq<char>)
    ensures
        run_script(content, config_js_script()) == config_js_spec(content),
{
    let s0 = Seq::<EditStepView>::empty();
    let s1 = s0.push(replace_view("enableDevTools: false", "enableDevTools: true"));
    let s2 = s1.push(replace_view("enableDevTools:false", "enableDevTools: true"));
    let s3 = s2.push(replace_view("enableAutoUpdate: true", "enableAutoUpdate: false"));
    let s4 = s3.push(replace_view("enableAutoUpdate:true", "enableAutoUpdate: false"));
    assert(s4 =~= config_js_script());
    lemma_run_script_push(content, s0, s1.last());
    lemma_run_script_push(content, s1, s2.last());
    lemma_run_script_push(content, s2, s3.last());
    lemma_run_script_push(content, s3, s4.last());
}

/// Patches the runtime-configuration script: enables the developer tools
/// and disables automatic updates.
pub fn patch_config_js(content: &str) -> (r: String)
    ensures
        r@ == config_js_spec(content@),
        r@ == run_script(content@, config_js_script()),
{
    proof {
        lemma_config_js_script(content@);
    }
    apply_script(content, &config_js_steps())
}

/// The script that reads the mod's settings.
pub fn generate_settings_reader_js() -> (r: String)
    ensures
        r@ == SETTINGS_READER_JS@,
{
    SETTINGS_READER_JS.to_owned()
}

/// The settings reader and the line break that follows it.
pub open spec fn settings_prelude() -> Seq<char> {
    SETTINGS_READER_JS@ + "\n"@
}

/// A step that puts the settings reader and a line break in front.
fn settings_prelude_step() -> (r: EditStep)
    ensures
        r@ == EditStepView::Prepend(settings_prelude()),
{
    EditStep::Prepend(generate_settings_reader_js().concat("\n"))
}

/// The edit script of the system-menu script: the platform test gives way
/// to the toolbar setting, and the settings reader goes in front.
pub open spec fn system_menu_script() -> Seq<EditStepView> {
    seq![
        replace_view(
            "deviceInfo_js_1.devicePlatform === platform_js_1.Platform.MACOS",
            "enableSystemToolbar",
        ),
        EditStepView::Prepend(settings_prelude()),
    ]
}

/// The edit script of the system-menu script.
pub fn system_menu_steps() -> (r: Vec<EditStep>)
    ensures
        script_view(r@) == system_menu_script(),
{
    let mut steps: Vec<EditStep> = Vec::new();
    steps.push(
        replace_step(
            "deviceInfo_js_1.devicePlatform === platform_js_1.Platform.MACOS",
            "enableSystemToolbar",
        ),
    );
    steps.push(settings_prelude_step());
    proof {
        assert(script_view(steps@) =~= system_menu_script());
    }
    steps
}

/// The patched system-menu script: the settings reader, a line break, and
/// the content with the platform test replaced.
pub open spec fn system_menu_js_spec(content: Seq<char>) -> Seq<char> {
    settings_prelude() + replace_all(
        content,
        "deviceInfo_js_1.devicePlatform === platform_js_1.Platform.MACOS"@,
        "enableSystemToolbar"@,
    )
}

/// The edit script of the system-menu script gives the patched script.
pub proof fn lemma_system_menu_script(content: Seq<char>)
    ensures
        run_script(content, system_menu_script()) == system_menu_js_spec(content),
{
    let s0 = Seq::<EditStepView>::empty();
    let s1 = s0.push(
        replace_view(
            "deviceInfo_js_1.devicePlatform === platform_js_1.Platform.MACOS",
            "enableSystemToolbar",
        ),
    );
    let s2 = s1.push(EditStepView::Prepend(settings_prelude()));
    assert(s2 =~= system_menu_script());
    lemma_run_script_push(content, s0, s1.last());
    lemma_run_script_push(content, s1, s2.last());
}

/// Patches the system-menu script so that it goes by the toolbar setting.
pub fn patch_system_menu_js(content: &str) -> (r: String)
    ensures
        r@ == system_menu_js_spec(content@),
        r@ == run_script(content@, system_menu_script()),
{
    proof {
        lemma_system_menu_script(content@);
    }
    apply_script(content, &system_menu_steps())
}

/// The edit script of the window-creation script: developer tools on, the
/// title bar by the toolbar setting, a smaller minimum size, the window
/// shown at once, and the settings reader in front. With `auto_devtools`
/// the developer tools also open before each window is returned; that step
/// runs last, over the whole text.
pub open spec fn create_window_script(auto_devtools: bool) -> Seq<EditStepView> {
    let base = seq![
        replace_view("config_js_1.config.app.enableDevTools", "true"),
        replace_view("titleBarStyle: 'hidden'", "titleBarStyle: !enableSystemToolbar && 'hidden'"),
        replace_view("titleBarStyle:'hidden'", "titleBarStyle: !enableSystemToolbar && 'hidden'"),
        replace_view("minWidth: 768", "minWidth: 360"),
        replace_view("minHeight: 650", "minHeight: 550"),
        replace_view("show: false", "show: true"),
        EditStepView::Prepend(settings_prelude()),
    ];
    if auto_devtools {
        base.push(
            replace_view("return window", "window.webContents.openDevTools();\nreturn window"),
        )
    } else {
        base
    }
}

/// The edit script of the window-creation script.
pub fn create_window_steps(auto_devtools: bool) -> (r: Vec<EditStep>)
    ensures
        script_view(r@) == create_window_script(auto_devtools),
{
    let mut steps: Vec<EditStep> = Vec::new();
    steps.push(replace_step("config_js_1.config.app.enableDevTools", "true"));
    steps.push(
        replace_step("titleBarStyle: 'hidden'", "titleBarStyle: !enableSystemToolbar && 'hidden'"),
    );
    steps.push(
        replace_step("titleBarStyle:'hidden'", "titleBarStyle: !enableSystemToolbar && 'hidden'"),
    );
    steps.push(replace_step("minWidth: 768", "minWidth: 360"));
    steps.push(replace_step("minHeight: 650", "minHeight: 550"));
    steps.push(replace_step("show: false", "show: true"));
    steps.push(settings_prelude_step());
    if auto_devtools {
        steps.push(
            replace_step("return window", "window.webContents.openDevTools();\nreturn window"),
        );
    }
    proof {
        assert(script_view(steps@) =~= create_window_script(auto_devtools));
    }
    steps
}

/// The patched window-creation script: the settings reader, a line break,
/// and the content after six replacements; with `auto_devtools`, the whole
/// of that with the developer tools opened before each window is returned.
pub open spec fn create_window_js_spec(content: Seq<char>, auto_devtools: bool) -> Seq<char> {
    let a = replace_all(content, "config_js_1.config.app.enableDevTools"@, "true"@);
    let b = replace_all(
        a,
        "titleBarStyle: 'hidden'"@,
        "titleBarStyle: !enableSystemToolbar && 'hidden'"@,
    );
    let c = replace_all(
        b,
        "titleBarStyle:'hidden'"@,
        "titleBarStyle: !enableSystemToolbar && 'hidden'"@,
    );
    let d = replace_all(c, "minWidth: 768"@, "minWidth: 360"@);
    let e = replace_all(d, "minHeight: 650"@, "minHeight: 550"@);
    let f = replace_all(e, "show: false"@, "show: true"@);
    let g = settings_prelude() + f;
    if auto_devtools {
        replace_all(g, "return window"@, "window.webContents.openDevTools();\nreturn window"@)
    } else {
        g
    }
}

/// The edit script of the window-creation script gives the patched script.
pub proof fn lemma_create_window_script(content: Seq<char>, auto_devtools: bool)
    ensures
        run_script(content, create_window_script(auto_devtools)) == create_window_js_spec(
            content,
            auto_devtools,
        ),
{
    let s0 = Seq::<EditStepView>::empty();
    let s1 = s0.push(replace_view("config_js_1.config.app.enableDevTools", "true"));
    let s2 = s1.push(
        replace_view("titleBarStyle: 'hidden'", "titleBarStyle: !enableSystemToolbar && 'hidden'"),
    );
    let s3 = s2.push(
        replace_view("titleBarStyle:'hidden'", "titleBarStyle: !enableSystemToolbar && 'hidden'"),
    );
    let s4 = s3.push(replace_view("minWidth: 768", "minWidth: 360"));
    let s5 = s4.push(replace_view("minHeight: 650", "minHeight: 550"));
    let s6 = s5.push(replace_view("show: false", "show: true"));
    let s7 = s6.push(EditStepView::Prepend(settings_prelude()));
    let s8 = s7.push(
        replace_view("return window", "window.webContents.openDevTools();\nreturn window"),
    );
    lemma_run_script_push(content, s0, s1.last());
    lemma_run_script_push(content, s1, s2.last());
    lemma_run_script_push(content, s2, s3.last());
    lemma_run_script_push(content, s3, s4.last());
    lemma_run_script_push(content, s4, s5.last());
    lemma_run_script_push(content, s5, s6.last());
    lemma_run_script_push(content, s6, s7.last());
    lemma_run_script_push(content, s7, s8.last());
    if auto_devtools {
        assert(s8 =~= create_window_script(auto_devtools));
    } else {
        assert(s7 =~= create_window_script(auto_devtools));
    }
}

/// Patches the window-creation script.
pub fn patch_create_window_js(content: &str, auto_devtools: bool) -> (r: String)
    ensures
        r@ == create_window_js_spec(content@, auto_devtools),
        r@ == run_script(content@, create_window_script(auto_devtools)),
{
    proof {
        lemma_create_window_script(content@, auto_devtools);
    }
    apply_script(content, &create_window_steps(auto_devtools))
}

/// The request blocker around the two encoded lists.
pub open spec fn blocker_around(urls_json: Seq<char>, headers_json: Seq<char>) -> Seq<char> {
    BLOCKER_HEAD_JS@ + urls_json + BLOCKER_BODY_JS@ + headers_json + BLOCKER_TAIL_JS@
}

/// The request blocker: it cancels the blocked requests and strips the
/// banned headers, both lists written as JSON.
pub open spec fn analytics_blocker_spec() -> Seq<char> {
    blocker_around(
        json_string_list(blocked_analytics_urls_spec()),
        json_string_list(banned_headers_spec()),
    )
}

/// Puts the request blocker together around the encoded list of URL
/// patterns and the encoded list of headers.
pub fn analytics_blocker_script(urls_json: &str, headers_json: &str) -> (r: String)
    ensures
        r@ == blocker_around(urls_json@, headers_json@),
{
    BLOCKER_HEAD_JS.to_owned().concat(urls_json).concat(BLOCKER_BODY_JS).concat(
        headers_json,
    ).concat(BLOCKER_TAIL_JS)
}

/// The request blocker for the main-process entry script.
pub fn generate_analytics_blocker_js() -> (r: String)
    ensures
        r@ == analytics_blocker_spec(),
{
    let urls_json = encode_string_list(&blocked_analytics_urls());
    let headers_json = encode_string_list(&banned_headers());
    analytics_blocker_script(urls_json.as_str(), headers_json.as_str())
}

/// The edit script of the main-process entry script: the request blocker
/// goes behind the call that creates the window.
pub open spec fn main_js_script() -> Seq<EditStepView> {
    seq![
        EditStepView::Replace {
            from: "createWindow)();"@,
            to: "createWindow)();"@ + analytics_blocker_spec(),
        },
    ]
}

/// The edit script of the main-process entry script.
pub fn main_js_steps() -> (r: Vec<EditStep>)
    ensures
        script_view(r@) == main_js_script(),
{
    let mut steps: Vec<EditStep> = Vec::new();
    let blocker = generate_analytics_blocker_js();
    steps.push(
        EditStep::Replace {
            from: "createWindow)();".to_owned(),
            to: "createWindow)();".to_owned().concat(blocker.as_str()),
        },
    );
    proof {
        assert(script_view(steps@) =~= main_js_script());
    }
    steps
}

/// The patched main-process entry script: the request blocker stands
/// behind every call that creates the window.
pub open spec fn main_js_spec(content: Seq<char>) -> Seq<char> {
    replace_all(content, "createWindow)();"@, "createWindow)();"@ + analytics_blocker_spec())
}

/// The edit script of the main-process entry script gives the patched
/// script.
pub proof fn lemma_main_js_script(content: Seq<char>)
    ensures
        run_script(content, main_js_script()) == main_js_spec(content),
{
    let s0 = Seq::<EditStepView>::empty();
    let s1 = s0.push(
        EditStepView::Replace {
            from: "createWindow)();"@,
            to: "createWindow)();"@ + analytics_blocker_spec(),
        },
    );
    assert(s1 =~= main_js_script());
    lemma_run_script_push(content, s0, s1.last());
}

/// Patches the main-process entry script with the request blocker.
pub fn patch_main_js(content: &str) -> (r: String)
    ensures
        r@ == main_js_spec(content@),
        r@ == run_script(content@, main_js_script()),
{
    proof {
        lemma_main_js_script(content@);
    }
    apply_script(content, &main_js_steps())
}

/// The edit script of a markup document: the references to the mod's
/// script and stylesheet go behind the opening head tag.
pub open spec fn html_script() -> Seq<EditStepView> {
    seq![replace_view("<head>", HTML_INJECTION)]
}

/// The edit script of a markup document.
pub fn html_steps() -> (r: Vec<EditStep>)
    ensures
        script_view(r@) == html_script(),
{
    let mut steps: Vec<EditStep> = Vec::new();
    steps.push(replace_step("<head>", HTML_INJECTION));
    proof {
        assert(script_view(steps@) =~= html_script());
    }
    steps
}

/// The patched markup document: every opening head tag is followed by the
/// references to the mod's script and stylesheet.
pub open spec fn html_spec(content: Seq<char>) -> Seq<char> {
    replace_all(content, "<head>"@, HTML_INJECTION@)
}

/// The edit script of a markup document gives the patched document.
pub proof fn lemma_html_script(content: Seq<char>)
    ensures
        run_script(content, html_script()) == html_spec(content),
{
    let s0 = Seq::<EditStepView>::empty();
    let s1 = s0.push(replace_view("<head>", HTML_INJECTION));
    assert(s1 =~= html_script());
    lemma_run_script_push(content, s0, s1.last());
}

/// Patches a markup document so that it loads the mod's renderer script
/// and stylesheet.
pub fn patch_html(content: &str) -> (r: String)
    ensures
        r@ == html_spec(content@),
        r@ == run_script(content@, html_script()),
{
    proof {
        lemma_html_script(content@);
    }
    apply_script(content, &html_steps())
}

/// A markup document with one opening head tag gets the injection in the
/// place of that tag, and stays as it is before and behind it.
pub proof fn lemma_html_single_head(before: Seq<char>, behind: Seq<char>)
    requires
        forall|i: int|
            0 <= i < before.len() ==> !occurs_at(before + "<head>"@ + behind, "<head>"@, i),
        !occurs(behind, "<head>"@),
    ensures
        html_spec(before + "<head>"@ + behind) == before + HTML_INJECTION@ + behind,
{
    reveal_strlit("<head>");
    lemma_replace_single_match(before, "<head>"@, behind, HTML_INJECTION@);
}

/// The patched text of the package metadata: the text is read as a
/// document, the document is mutated, and the mutation is written out in
/// pretty form. There is none where one of the three steps has none.
pub open spec fn package_json_spec(content: Seq<char>) -> Option<Seq<char>> {
    match json_parse(content) {
        None => None,
        Some(doc) => match mutate_spec(doc) {
            None => None,
            Some(mutated) => json_pretty(mutated),
        },
    }
}

/// Patching the package metadata a second time writes the same text again,
/// whenever the text written by the first run reads back as the document
/// it was written from.
pub proof fn lemma_package_json_rerun(content: Seq<char>, doc: JsonValue, patched: Seq<char>)
    requires
        json_parse(content) == Some(doc),
        mutate_spec(doc) is Some,
        json_pretty(mutate_spec(doc).unwrap()) == Some(patched),
        json_parse(patched) == mutate_spec(doc),
    ensures
        package_json_spec(content) == Some(patched),
        package_json_spec(patched) == Some(patched),
{
    lemma_mutation_idempotent(doc);
}

/// The text reads as a document that is neither an object nor null.
pub open spec fn not_an_object(content: Seq<char>) -> bool {
    json_parse(content) is Some && mutate_spec(json_parse(content).unwrap()).is_none()
}

/// Patches the package metadata. A text that is no JSON document, or whose
/// document is neither an object nor null, is refused as a patch error;
/// in the second case the error says so.
pub fn patch_package_json(content: &str) -> (r: Result<String, PatcherError>)
    ensures
        match r {
            Ok(text) => package_json_spec(content@) == Some(text@),
            Err(e) => package_json_spec(content@).is_none() && e is PatchError && (not_an_object(
                content@,
            ) ==> e.detail_spec() == "package metadata is not a JSON object"@),
        },
{
    let doc = match parse_document(content) {
        Ok(doc) => doc,
        Err(failure) => {
            return Err(PatcherError::PatchError(failure_text(&failure)));
        },
    };
    let mutated = match mutate_package(doc) {
        Ok(mutated) => mutated,
        Err(e) => {
            return Err(e);
        },
    };
    match render_document(&mutated) {
        Ok(text) => Ok(text),
        Err(failure) => Err(PatcherError::PatchError(failure_text(&failure))),
    }
}

} // verus!
