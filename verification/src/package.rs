//! The mutation of the package-metadata document: banned dependencies leave,
//! settings sections are filled in, identity fields and the build section
//! are overwritten.

use crate::error::PatcherError;
use crate::json::{
    array_value, bool_value, empty_object, number_value, put_member, take_member, text_value,
    value_is_null, value_is_object, value_view, values_view, JsonNumber, JsonValue,
};
use crate::text::strings_view;
use vstd::prelude::*;

verus! {

/// The author line written into the metadata.
pub const MOD_AUTHOR: &'static str =
    "YandexMusicBetaModeFastLP [github.com/Jhon-Crow/YandexMusicBetaModeFastLP]";

/// The interval, in milliseconds, written over the refresh and update-poll
/// settings.
pub const FAR_FUTURE_MS: u32 = 999_999_999;

/// The sections of the document whose settings are overwritten.
#[derive(Clone, Copy, Debug, PartialEq, Eq, Structural)]
pub enum Section {
    Common,
    Meta,
    AppConfig,
}

/// Dependencies that must not be in the patched package.
pub open spec fn banned_dependencies_spec() -> Seq<Seq<char>> {
    seq!["@yandex-chats/signer"@]
}

/// The dependencies that must not be in the patched package.
pub fn banned_dependencies() -> (r: Vec<String>)
    ensures
        strings_view(r@) == banned_dependencies_spec(),
{
    let mut list: Vec<String> = Vec::new();
    list.push("@yandex-chats/signer".to_owned());
    proof {
        assert(strings_view(list@) =~= banned_dependencies_spec());
    }
    list
}

/// `m` without the keys listed.
pub open spec fn without_keys(m: Map<Seq<char>, JsonValue>, keys: Seq<Seq<char>>) -> Map<
    Seq<char>,
    JsonValue,
>
    decreases keys.len(),
{
    if keys.len() == 0 {
        m
    } else {
        without_keys(m, keys.drop_last()).remove(keys.last())
    }
}

/// An object loses the keys listed; any other value stays as it is.
pub open spec fn strip_value(v: JsonValue, keys: Seq<Seq<char>>) -> JsonValue {
    match v {
        JsonValue::Object(m) => JsonValue::Object(without_keys(m, keys)),
        _ => v,
    }
}

/// The name under which a section stands in the document.
pub open spec fn section_key(section: Section) -> Seq<char> {
    match section {
        Section::Common => "common"@,
        Section::Meta => "meta"@,
        Section::AppConfig => "appConfig"@,
    }
}

/// The members of a section with its settings overwritten.
pub open spec fn filled(section: Section, m: Map<Seq<char>, JsonValue>) -> Map<
    Seq<char>,
    JsonValue,
> {
    match section {
        Section::Common => m.insert(
            "REFRESH_EVENT_TRIGGER_TIME_MS"@,
            JsonValue::Number(JsonNumber::PosInt(999_999_999)),
        ).insert(
            "UPDATE_POLL_INTERVAL_MS"@,
            JsonValue::Number(JsonNumber::PosInt(999_999_999)),
        ).insert("SUPPORT_URL"@, JsonValue::Text("<empty>"@)),
        Section::Meta => m.insert("PRODUCT_NAME"@, JsonValue::Text("Yandex Music Mod"@)).insert(
            "PRODUCT_NAME_LOCALIZED"@,
            JsonValue::Text("Yandex Music Mod"@),
        ).insert("APP_ID"@, JsonValue::Text("ru.yandex.desktop.music.mod"@)).insert(
            "COPYRIGHT"@,
            JsonValue::Text(MOD_AUTHOR@),
        ).insert("TRADEMARK"@, JsonValue::Text(MOD_AUTHOR@)),
        Section::AppConfig => m.insert("enableDevTools"@, JsonValue::Bool(true)).insert(
            "enableAutoUpdate"@,
            JsonValue::Bool(false),
        ).insert("enableUpdateByProbability"@, JsonValue::Bool(false)).insert(
            "systemDefaultLanguage"@,
            JsonValue::Text("ru"@),
        ),
    }
}

/// An object gets the settings of the section; any other value stays as it
/// is.
pub open spec fn fill_value(section: Section, v: JsonValue) -> JsonValue {
    match v {
        JsonValue::Object(m) => JsonValue::Object(filled(section, m)),
        _ => v,
    }
}

/// An object that holds only an icon path.
pub open spec fn icon_object(path: Seq<char>) -> JsonValue {
    JsonValue::Object(Map::empty().insert("icon"@, JsonValue::Text(path)))
}

/// The build section written into the document.
pub open spec fn build_section_spec() -> JsonValue {
    JsonValue::Object(
        Map::empty().insert("appId"@, JsonValue::Text("ru.yandex.desktop.music.mod"@)).insert(
            "productName"@,
            JsonValue::Text("Яндекс Музыка"@),
        ).insert("win"@, icon_object("assets/icon.ico"@)).insert(
            "mac"@,
            icon_object("assets/icon.ico"@),
        ).insert("linux"@, icon_object("assets/icon.png"@)).insert(
            "extraResources"@,
            JsonValue::Array(
                seq![
                    JsonValue::Object(
                        Map::empty().insert("from"@, JsonValue::Text("assets/"@)).insert(
                            "to"@,
                            JsonValue::Text("assets/"@),
                        ).insert("filter"@, JsonValue::Array(seq![JsonValue::Text("**/*"@)])),
                    ),
                ],
            ),
        ),
    )
}

/// The member under `key`, where there is one, replaced by `member`.
pub open spec fn replace_member(
    root: Map<Seq<char>, JsonValue>,
    key: Seq<char>,
    member: JsonValue,
) -> Map<Seq<char>, JsonValue> {
    if root.contains_key(key) {
        root.insert(key, member)
    } else {
        root
    }
}

/// The members of the document after the mutation.
pub open spec fn mutate_members(root: Map<Seq<char>, JsonValue>) -> Map<Seq<char>, JsonValue> {
    let banned = banned_dependencies_spec();
    let a = replace_member(root, "dependencies"@, strip_value(root["dependencies"@], banned));
    let b = replace_member(a, "devDependencies"@, strip_value(a["devDependencies"@], banned));
    let c = replace_member(b, "common"@, fill_value(Section::Common, b["common"@]));
    let d = c.insert("name"@, JsonValue::Text("YandexMusicMod"@)).insert(
        "author"@,
        JsonValue::Text(MOD_AUTHOR@),
    );
    let e = replace_member(d, "meta"@, fill_value(Section::Meta, d["meta"@]));
    let f = replace_member(e, "appConfig"@, fill_value(Section::AppConfig, e["appConfig"@]));
    f.insert("build"@, build_section_spec())
}

/// The document after the mutation. An object is mutated, null counts as an
/// object without members, and any other document has no mutation.
pub open spec fn mutate_spec(doc: JsonValue) -> Option<JsonValue> {
    match doc {
        JsonValue::Object(m) => Some(JsonValue::Object(mutate_members(m))),
        JsonValue::Null => Some(JsonValue::Object(mutate_members(Map::empty()))),
        _ => None,
    }
}

/// Removes the keys listed from the object under `section`, where the
/// document has such an object.
fn strip_section(root: &mut serde_json::Value, section: &str, banned: &Vec<String>)
    requires
        value_view(*old(root)) is Object,
    ensures
        value_view(*final(root)) == JsonValue::Object(
            replace_member(
                value_view(*old(root)).members(),
                section@,
                strip_value(value_view(*old(root)).members()[section@], strings_view(banned@)),
            ),
        ),
{
    let ghost before = value_view(*root).members();
    match take_member(root, section) {
        None => {
            assert(before.remove(section@) =~= before);
        },
        Some(found) => {
            let mut member = found;
            if value_is_object(&member) {
                let ghost inner = value_view(member).members();
                let mut i: usize = 0;
                while i < banned.len()
                    invariant
                        i <= banned.len(),
                        value_view(member) == JsonValue::Object(
                            without_keys(inner, strings_view(banned@).take(i as int)),
                        ),
                    decreases banned.len() - i,
                {
                    proof {
                        let all = strings_view(banned@);
                        assert(all.take(i + 1).drop_last() == all.take(i as int));
                        assert(all.take(i + 1).last() == banned@[i as int]@);
                    }
                    let _ = take_member(&mut member, banned[i].as_str());
                    i += 1;
                }
                proof {
                    assert(strings_view(banned@).take(i as int) == strings_view(banned@));
                }
            }
            put_member(root, section, member);
            assert(before.remove(section@).insert(section@, value_view(member)) =~= before.insert(
                section@,
                value_view(member),
            ));
        },
    }
}

/// Writes the settings of a section into an object.
fn fill_members(section: Section, member: &mut serde_json::Value)
    requires
        value_view(*old(member)) is Object,
    ensures
        value_view(*final(member)) == JsonValue::Object(
            filled(section, value_view(*old(member)).members()),
        ),
{
    match section {
        Section::Common => {
            put_member(member, "REFRESH_EVENT_TRIGGER_TIME_MS", number_value(FAR_FUTURE_MS));
            put_member(member, "UPDATE_POLL_INTERVAL_MS", number_value(FAR_FUTURE_MS));
            put_member(member, "SUPPORT_URL", text_value("<empty>"));
        },
        Section::Meta => {
            put_member(member, "PRODUCT_NAME", text_value("Yandex Music Mod"));
            put_member(member, "PRODUCT_NAME_LOCALIZED", text_value("Yandex Music Mod"));
            put_member(member, "APP_ID", text_value("ru.yandex.desktop.music.mod"));
            put_member(member, "COPYRIGHT", text_value(MOD_AUTHOR));
            put_member(member, "TRADEMARK", text_value(MOD_AUTHOR));
        },
        Section::AppConfig => {
            put_member(member, "enableDevTools", bool_value(true));
            put_member(member, "enableAutoUpdate", bool_value(false));
            put_member(member, "enableUpdateByProbability", bool_value(false));
            put_member(member, "systemDefaultLanguage", text_value("ru"));
        },
    }
}

/// The name of a section as a string slice.
fn section_name(section: Section) -> (r: &'static str)
    ensures
        r@ == section_key(section),
{
    match section {
        Section::Common => "common",
        Section::Meta => "meta",
        Section::AppConfig => "appConfig",
    }
}

/// Overwrites the settings of the object under the section's name, where
/// the document has such an object.
fn fill_section(root: &mut serde_json::Value, section: Section)
    requires
        value_view(*old(root)) is Object,
    ensures
        value_view(*final(root)) == JsonValue::Object(
            replace_member(
                value_view(*old(root)).members(),
                section_key(section),
                fill_value(section, value_view(*old(root)).members()[section_key(section)]),
            ),
        ),
{
    let ghost before = value_view(*root).members();
    let key = section_name(section);
    match take_member(root, key) {
        None => {
            assert(before.remove(key@) =~= before);
        },
        Some(found) => {
            let mut member = found;
            if value_is_object(&member) {
                fill_members(section, &mut member);
            }
            put_member(root, key, member);
            assert(before.remove(key@).insert(key@, value_view(member)) =~= before.insert(
                key@,
                value_view(member),
            ));
        },
    }
}

/// An object that holds only an icon path.
fn icon_value(path: &str) -> (r: serde_json::Value)
    ensures
        value_view(r) == icon_object(path@),
{
    let mut object = empty_object();
    put_member(&mut object, "icon", text_value(path));
    object
}

/// The build section: application identity, icons per platform, and the
/// assets to bundle.
fn build_section() -> (r: serde_json::Value)
    ensures
        value_view(r) == build_section_spec(),
{
    let mut filter: Vec<serde_json::Value> = Vec::new();
    filter.push(text_value("**/*"));
    let mut resource = empty_object();
    put_member(&mut resource, "from", text_value("assets/"));
    put_member(&mut resource, "to", text_value("assets/"));
    proof {
        assert(values_view(filter@) =~= seq![JsonValue::Text("**/*"@)]);
    }
    put_member(&mut resource, "filter", array_value(filter));
    let ghost resource_view = value_view(resource);
    let mut resources: Vec<serde_json::Value> = Vec::new();
    resources.push(resource);
    proof {
        assert(values_view(resources@) =~= seq![resource_view]);
    }
    let mut build = empty_object();
    put_member(&mut build, "appId", text_value("ru.yandex.desktop.music.mod"));
    put_member(&mut build, "productName", text_value("Яндекс Музыка"));
    put_member(&mut build, "win", icon_value("assets/icon.ico"));
    put_member(&mut build, "mac", icon_value("assets/icon.ico"));
    put_member(&mut build, "linux", icon_value("assets/icon.png"));
    put_member(&mut build, "extraResources", array_value(resources));
    build
}

/// Mutates a package-metadata document. An object, or null in place of an
/// empty one, comes back mutated; any other document is refused as a patch
/// error.
pub fn mutate_package(doc: serde_json::Value) -> (r: Result<serde_json::Value, PatcherError>)
    ensures
        match r {
            Ok(v) => mutate_spec(value_view(doc)) == Some(value_view(v)),
            Err(e) => mutate_spec(value_view(doc)).is_none() && e is PatchError && e.detail_spec()
                == "package metadata is not a JSON object"@,
        },
{
    let mut root = doc;
    if value_is_null(&root) {
        root = empty_object();
    } else if !value_is_object(&root) {
        return Err(PatcherError::PatchError("package metadata is not a JSON object".to_owned()));
    }
    let banned = banned_dependencies();
    strip_section(&mut root, "dependencies", &banned);
    strip_section(&mut root, "devDependencies", &banned);
    fill_section(&mut root, Section::Common);
    put_member(&mut root, "name", text_value("YandexMusicMod"));
    put_member(&mut root, "author", text_value(MOD_AUTHOR));
    fill_section(&mut root, Section::Meta);
    fill_section(&mut root, Section::AppConfig);
    put_member(&mut root, "build", build_section());
    Ok(root)
}

/// What `without_keys` keeps: the members whose key is not listed, each with
/// its value.
pub proof fn lemma_without_keys(m: Map<Seq<char>, JsonValue>, keys: Seq<Seq<char>>)
    ensures
        forall|k: Seq<char>| #[trigger]
            without_keys(m, keys).contains_key(k) <==> m.contains_key(k) && !keys.contains(k),
        forall|k: Seq<char>| #[trigger]
            without_keys(m, keys).contains_key(k) ==> without_keys(m, keys)[k] == m[k],
    decreases keys.len(),
{
    let done = without_keys(m, keys);
    assert forall|k: Seq<char>|
        (#[trigger] done.contains_key(k) <==> m.contains_key(k) && !keys.contains(k)) && (
        done.contains_key(k) ==> done[k] == m[k]) by {
        if keys.len() == 0 {
            assert(!keys.contains(k));
        } else {
            let init = keys.drop_last();
            let before = without_keys(m, init);
            lemma_without_keys(m, init);
            assert(done == before.remove(keys.last()));
            assert(before.contains_key(k) <==> m.contains_key(k) && !init.contains(k));
            if keys.contains(k) {
                let i = choose|i: int| 0 <= i < keys.len() && keys[i] == k;
                if i < keys.len() - 1 {
                    assert(init[i] == k);
                }
            }
            if init.contains(k) {
                let i = choose|i: int| 0 <= i < init.len() && init[i] == k;
                assert(keys[i] == k);
            }
            if k == keys.last() {
                assert(keys[keys.len() - 1] == k);
            }
        }
    }
}

/// Removing the banned keys a second time removes nothing more.
pub proof fn lemma_strip_value_idempotent(v: JsonValue, keys: Seq<Seq<char>>)
    ensures
        strip_value(strip_value(v, keys), keys) == strip_value(v, keys),
{
    match v {
        JsonValue::Object(m) => {
            let once = without_keys(m, keys);
            lemma_without_keys(m, keys);
            lemma_without_keys(once, keys);
            assert(without_keys(once, keys) =~= once);
        },
        _ => {},
    }
}

/// Writing the settings of a section a second time changes nothing.
pub proof fn lemma_fill_value_idempotent(section: Section, v: JsonValue)
    ensures
        fill_value(section, fill_value(section, v)) == fill_value(section, v),
{
    match v {
        JsonValue::Object(m) => {
            let once = filled(section, m);
            assert(filled(section, once) =~= once);
        },
        _ => {},
    }
}

/// The names that the mutation reads or writes at the top of the document
/// differ from one another.
proof fn lemma_top_keys_differ()
    ensures
        "dependencies"@.len() == 12,
        "devDependencies"@.len() == 15,
        "common"@.len() == 6,
        "name"@.len() == 4,
        "author"@.len() == 6,
        "meta"@.len() == 4,
        "appConfig"@.len() == 9,
        "build"@.len() == 5,
        "common"@[0] == 'c',
        "author"@[0] == 'a',
        "name"@[0] == 'n',
        "meta"@[0] == 'm',
{
    reveal_strlit("dependencies");
    reveal_strlit("devDependencies");
    reveal_strlit("common");
    reveal_strlit("name");
    reveal_strlit("author");
    reveal_strlit("meta");
    reveal_strlit("appConfig");
    reveal_strlit("build");
}

/// The mutation is idempotent: a document that was mutated is its own
/// mutation.
pub proof fn lemma_mutation_idempotent(doc: JsonValue)
    requires
        mutate_spec(doc) is Some,
    ensures
        mutate_spec(mutate_spec(doc).unwrap()) == mutate_spec(doc),
{
    let root = doc.members();
    lemma_members_idempotent(root);
}

/// The members of a mutated document are their own mutation.
pub proof fn lemma_members_idempotent(root: Map<Seq<char>, JsonValue>)
    ensures
        mutate_members(mutate_members(root)) == mutate_members(root),
{
    let banned = banned_dependencies_spec();
    let once = mutate_members(root);
    lemma_top_keys_differ();
    lemma_strip_value_idempotent(root["dependencies"@], banned);
    lemma_strip_value_idempotent(root["devDependencies"@], banned);
    lemma_fill_value_idempotent(Section::Common, root["common"@]);
    lemma_fill_value_idempotent(Section::Meta, root["meta"@]);
    lemma_fill_value_idempotent(Section::AppConfig, root["appConfig"@]);
    assert(once.contains_key("dependencies"@) ==> once["dependencies"@] == strip_value(
        root["dependencies"@],
        banned,
    ));
    assert(once.contains_key("devDependencies"@) ==> once["devDependencies"@] == strip_value(
        root["devDependencies"@],
        banned,
    ));
    assert(once.contains_key("common"@) ==> once["common"@] == fill_value(
        Section::Common,
        root["common"@],
    ));
    assert(once.contains_key("meta"@) ==> once["meta"@] == fill_value(
        Section::Meta,
        root["meta"@],
    ));
    assert(once.contains_key("appConfig"@) ==> once["appConfig"@] == fill_value(
        Section::AppConfig,
        root["appConfig"@],
    ));
    assert(mutate_members(once) =~= once);
}

/// Whatever members a document has or lacks, its mutation is an object that
/// carries the identity fields and the build section.
pub proof fn lemma_mutation_writes_identity(root: Map<Seq<char>, JsonValue>)
    ensures
        mutate_members(root).contains_key("name"@),
        mutate_members(root)["name"@] == JsonValue::Text("YandexMusicMod"@),
        mutate_members(root).contains_key("author"@),
        mutate_members(root)["author"@] == JsonValue::Text(MOD_AUTHOR@),
        mutate_members(root).contains_key("build"@),
        mutate_members(root)["build"@] == build_section_spec(),
        mutate_spec(JsonValue::Object(root)) == Some(JsonValue::Object(mutate_members(root))),
{
    lemma_top_keys_differ();
}

/// Where the document lists its dependencies in an object, the mutation
/// drops the banned ones from it and keeps every other one with its value.
pub proof fn lemma_mutation_strips_dependencies(
    root: Map<Seq<char>, JsonValue>,
    deps: Map<Seq<char>, JsonValue>,
)
    requires
        root.contains_key("dependencies"@),
        root["dependencies"@] == JsonValue::Object(deps),
    ensures
        mutate_members(root).contains_key("dependencies"@),
        mutate_members(root)["dependencies"@] is Object,
        forall|k: Seq<char>| #[trigger]
            mutate_members(root)["dependencies"@].members().contains_key(k) <==> deps.contains_key(
                k,
            ) && !banned_dependencies_spec().contains(k),
        forall|k: Seq<char>| #[trigger]
            mutate_members(root)["dependencies"@].members().contains_key(k) ==> mutate_members(
                root,
            )["dependencies"@].members()[k] == deps[k],
{
    lemma_top_keys_differ();
    lemma_without_keys(deps, banned_dependencies_spec());
    assert(mutate_members(root)["dependencies"@] == strip_value(
        root["dependencies"@],
        banned_dependencies_spec(),
    ));
}

} // verus!
