//! The capabilities of a new session request.
//!
//! A WebDriver client names the application to drive under `tauri:options`.
//! The native driver knows nothing of that key, so the options are put in the
//! form that it reads.

use vstd::prelude::*;

use crate::json;
use crate::json::Json;

verus! {

/// The key of the options for a Tauri application.
pub const TAURI_OPTIONS: &'static str = "tauri:options";

/// The options for a Tauri application.
pub struct TauriOptions {
    /// The path of the application's binary.
    pub application: String,
    /// The arguments to start it with.
    pub args: Vec<String>,
}

/// The options for a Tauri application, as plain text.
#[verifier::ext_equal]
pub struct Options {
    pub application: Seq<char>,
    pub args: Seq<Seq<char>>,
}

impl View for TauriOptions {
    type V = Options;

    open spec fn view(&self) -> Options {
        Options {
            application: self.application@,
            args: self.args@.map_values(|arg: String| arg@),
        }
    }
}

/// The items of a JSON array of strings.
pub open spec fn listed_texts(json: Json) -> Option<Seq<Seq<char>>> {
    match json {
        Json::Array(items) => if forall|i: int| 0 <= i < items.len() ==> items[i] is Text {
            Some(items.map_values(|item: Json| item->Text_0))
        } else {
            None
        },
        _ => None,
    }
}

/// The options that a document spells out.
///
/// An object has them under `application`, a string, and `args`, a list of
/// strings that may be left out. An array has them in that order, and nothing
/// after them.
pub open spec fn decoded_options(json: Json) -> Option<Options> {
    let (application, args) = match json {
        Json::Array(items) => (
            if 1 <= items.len() <= 2 {
                Some(items[0])
            } else {
                None
            },
            if items.len() == 2 {
                Some(items[1])
            } else {
                None
            },
        ),
        _ => (json::field(json, "application"@), json::field(json, "args"@)),
    };
    match (application, args) {
        (Some(Json::Text(application)), None) => Some(Options { application, args: seq![] }),
        (Some(Json::Text(application)), Some(list)) => match listed_texts(list) {
            Some(args) => Some(Options { application, args }),
            None => None,
        },
        _ => None,
    }
}

/// The members that tell the native driver what `options` ask for.
pub open spec fn native_members(options: Options) -> Map<Seq<char>, Json> {
    map![
        "webkitgtk:browserOptions"@ => Json::Object(
            map![
                "binary"@ => Json::Text(options.application),
                "args"@ => Json::Array(json::text_items(options.args)),
            ],
        ),
    ]
}

/// The strings in a JSON array of strings.
fn text_list(value: &serde_json::Value) -> (list: Option<Vec<String>>)
    ensures
        match list {
            Some(texts) => listed_texts(json::document(*value)) == Some(
                texts@.map_values(|text: String| text@),
            ),
            None => listed_texts(json::document(*value)) is None,
        },
{
    let items: &Vec<serde_json::Value> = match value.as_array() {
        Some(items) => items,
        None => return None,
    };
    let ghost listed = json::documents(items@);
    let mut texts: Vec<String> = Vec::new();
    let mut i: usize = 0;
    while i < items.len()
        invariant
            i <= items.len(),
            listed == json::documents(items@),
            json::document(*value) == Json::Array(listed),
            texts.len() == i,
            forall|k: int| 0 <= k < i ==> listed[k] == Json::Text(#[trigger] texts@[k]@),
        decreases items.len() - i,
    {
        match items[i].as_str() {
            Some(text) => {
                texts.push(text.to_owned());
            },
            None => {
                assert(!(listed[i as int] is Text));
                return None;
            },
        }
        i += 1;
    }
    proof {
        assert forall|k: int| 0 <= k < listed.len() implies listed[k] is Text by {
            assert(listed[k] == Json::Text(texts@[k]@));
        }
        assert(listed.map_values(|item: Json| item->Text_0) =~= texts@.map_values(
            |text: String| text@,
        ));
    }
    Some(texts)
}

impl TauriOptions {
    /// Reads the options out of a JSON value.
    pub fn from_value(value: &serde_json::Value) -> (options: Option<TauriOptions>)
        ensures
            match options {
                Some(options) => decoded_options(json::document(*value)) == Some(options@),
                None => decoded_options(json::document(*value)) is None,
            },
    {
        let mut application: Option<&serde_json::Value> = None;
        let mut args: Option<&serde_json::Value> = None;
        match value.as_array() {
            Some(items) => {
                assert(json::documents(items@).len() == items@.len());
                if items.len() == 0 || items.len() > 2 {
                    return None;
                }
                application = Some(&items[0]);
                if items.len() == 2 {
                    args = Some(&items[1]);
                }
            },
            None => {
                application = json::member(value, "application");
                args = json::member(value, "args");
            },
        }
        let application: String = match application {
            Some(value) => match value.as_str() {
                Some(text) => text.to_owned(),
                None => return None,
            },
            None => return None,
        };
        match args {
            None => {
                let options = TauriOptions { application, args: Vec::new() };
                assert(options@.args =~= seq![]);
                Some(options)
            },
            Some(list) => match text_list(list) {
                Some(args) => Some(TauriOptions { application, args }),
                None => None,
            },
        }
    }

    /// The members that tell the native driver what the options ask for.
    pub fn into_native_object(self) -> (map: serde_json::Map<String, serde_json::Value>)
        ensures
            json::members(map) == native_members(self@),
    {
        let ghost options = self@;
        let mut browser: serde_json::Map<String, serde_json::Value> = serde_json::Map::new();
        browser.insert("binary".to_owned(), json::text_value(self.application));
        browser.insert("args".to_owned(), json::texts_value(self.args));
        let mut map: serde_json::Map<String, serde_json::Value> = serde_json::Map::new();
        map.insert("webkitgtk:browserOptions".to_owned(), json::object_value(browser));
        assert(json::members(map) =~= native_members(options));
        map
    }
}

/// The members of `capabilities.alwaysMatch`, where it is an object.
pub open spec fn always_match(json: Json) -> Option<Map<Seq<char>, Json>> {
    match json::field(json, "capabilities"@) {
        Some(capabilities) => match json::field(capabilities, "alwaysMatch"@) {
            Some(Json::Object(members)) => Some(members),
            _ => None,
        },
        None => None,
    }
}

/// The document with the members of `capabilities.alwaysMatch` replaced.
pub open spec fn with_always_match(json: Json, members: Map<Seq<char>, Json>) -> Json {
    match json::field(json, "capabilities"@) {
        Some(capabilities) => json::with_field(
            json,
            "capabilities"@,
            json::with_field(capabilities, "alwaysMatch"@, Json::Object(members)),
        ),
        None => json,
    }
}

/// The options that a new session request always asks for, where it spells
/// them out.
pub open spec fn requested_options(json: Json) -> Option<Options> {
    match always_match(json) {
        Some(members) => match json::field(Json::Object(members), TAURI_OPTIONS@) {
            Some(options) => decoded_options(options),
            None => None,
        },
        None => None,
    }
}

/// The members without the options for a Tauri application and with those for
/// the native driver.
pub open spec fn native_form(members: Map<Seq<char>, Json>, options: Options) -> Map<
    Seq<char>,
    Json,
> {
    members.remove(TAURI_OPTIONS@).union_prefer_right(native_members(options))
}

/// A new session request in the form that the native driver reads.
///
/// `capabilities.alwaysMatch` loses its options for a Tauri application. Where
/// these can be read, they come back as options for the native driver, there
/// and in `desiredCapabilities`.
pub open spec fn mapped_capabilities(json: Json) -> Json {
    match always_match(json) {
        None => json,
        Some(members) => match requested_options(json) {
            None => with_always_match(json, members.remove(TAURI_OPTIONS@)),
            Some(options) => {
                let mapped = with_always_match(json, native_form(members, options));
                match json::field(mapped, "desiredCapabilities"@) {
                    Some(Json::Object(desired)) => json::with_field(
                        mapped,
                        "desiredCapabilities"@,
                        Json::Object(native_form(desired, options)),
                    ),
                    _ => mapped,
                }
            },
        },
    }
}

/// Puts `capabilities.alwaysMatch` in the form that the native driver reads,
/// and gives back the members that it got.
fn map_always_match(json: &mut serde_json::Value) -> (native: Option<
    serde_json::Map<String, serde_json::Value>,
>)
    ensures
        match (native, requested_options(json::document(*old(json)))) {
            (Some(native), Some(options)) => json::members(native) == native_members(options),
            (None, None) => true,
            _ => false,
        },
        json::document(*final(json)) == match always_match(json::document(*old(json))) {
            None => json::document(*old(json)),
            Some(members) => with_always_match(
                json::document(*old(json)),
                match requested_options(json::document(*old(json))) {
                    None => members.remove(TAURI_OPTIONS@),
                    Some(options) => native_form(members, options),
                },
            ),
        },
{
    proof {
        let before = json::document(*json);
        json::lemma_with_same_field(before, "capabilities"@);
        if let Some(capabilities) = json::field(before, "capabilities"@) {
            json::lemma_with_same_field(capabilities, "alwaysMatch"@);
        }
    }
    let mut native: Option<serde_json::Map<String, serde_json::Value>> = None;
    if let Some(capabilities) = json::member_mut(json, "capabilities") {
        if let Some(always_match) = json::member_mut(capabilities, "alwaysMatch") {
            if let Some(always_match) = always_match.as_object_mut() {
                if let Some(tauri_options) = json::remove_member(always_match, TAURI_OPTIONS) {
                    if let Some(options) = TauriOptions::from_value(&tauri_options) {
                        native = Some(options.into_native_object());
                    }
                }
                if let Some(members) = &native {
                    json::extend_members(always_match, members.clone());
                }
            }
        }
    }
    native
}

/// Puts a new session request in the form that the native driver reads.
pub fn map_capabilities(json: serde_json::Value) -> (mapped: serde_json::Value)
    ensures
        json::document(mapped) == mapped_capabilities(json::document(json)),
{
    let mut json: serde_json::Value = json;
    if let Some(native) = map_always_match(&mut json) {
        proof {
            json::lemma_with_same_field(json::document(json), "desiredCapabilities"@);
        }
        if let Some(desired) = json::member_mut(&mut json, "desiredCapabilities") {
            if let Some(desired) = desired.as_object_mut() {
                json::remove_member(desired, TAURI_OPTIONS);
                json::extend_members(desired, native);
            }
        }
    }
    json
}

/// The path of the application that a new session request names.
pub open spec fn app_path(json: Json) -> Option<Seq<char>> {
    match json::field(json, "capabilities"@) {
        Some(capabilities) => match json::field(capabilities, "alwaysMatch"@) {
            Some(always_match) => match json::field(always_match, TAURI_OPTIONS@) {
                Some(options) => match json::field(options, "application"@) {
                    Some(Json::Text(path)) => Some(path),
                    _ => None,
                },
                None => None,
            },
            None => None,
        },
        None => None,
    }
}

/// Reads the path of the application out of a new session request.
pub fn extract_app_path(json: &serde_json::Value) -> (path: Option<String>)
    ensures
        match path {
            Some(path) => app_path(json::document(*json)) == Some(path@),
            None => app_path(json::document(*json)) is None,
        },
{
    let capabilities: &serde_json::Value = match json::member(json, "capabilities") {
        Some(capabilities) => capabilities,
        None => return None,
    };
    let always_match: &serde_json::Value = match json::member(capabilities, "alwaysMatch") {
        Some(always_match) => always_match,
        None => return None,
    };
    let tauri_options: &serde_json::Value = match json::member(always_match, TAURI_OPTIONS) {
        Some(tauri_options) => tauri_options,
        None => return None,
    };
    match json::member(tauri_options, "application") {
        Some(application) => match application.as_str() {
            Some(path) => Some(path.to_owned()),
            None => None,
        },
        None => None,
    }
}

/// The keys that the mapping deals with are told apart.
proof fn lemma_keys_differ()
    ensures
        "capabilities"@ != "desiredCapabilities"@,
        TAURI_OPTIONS@ != "webkitgtk:browserOptions"@,
        "binary"@ != "args"@,
{
    reveal_strlit("capabilities");
    reveal_strlit("desiredCapabilities");
    reveal_strlit("tauri:options");
    reveal_strlit("webkitgtk:browserOptions");
    reveal_strlit("binary");
    reveal_strlit("args");
    assert("capabilities"@.len() != "desiredCapabilities"@.len());
    assert("tauri:options"@.len() != "webkitgtk:browserOptions"@.len());
    assert("binary"@.len() != "args"@.len());
}

/// What the mapping makes of `capabilities.alwaysMatch`.
proof fn lemma_mapped_always_match(json: Json)
    ensures
        always_match(mapped_capabilities(json)) == match always_match(json) {
            None => None,
            Some(members) => match requested_options(json) {
                None => Some(members.remove(TAURI_OPTIONS@)),
                Some(options) => Some(native_form(members, options)),
            },
        },
{
    lemma_keys_differ();
}

/// A request without options for a Tauri application is left as it is.
pub proof fn law_no_options_no_change(json: Json)
    requires
        always_match(json) matches Some(members) ==> !members.contains_key(TAURI_OPTIONS@),
    ensures
        mapped_capabilities(json) == json,
{
    if let Some(members) = always_match(json) {
        assert(members.remove(TAURI_OPTIONS@) =~= members);
        let capabilities = json::field(json, "capabilities"@)->0;
        json::lemma_with_same_field(json, "capabilities"@);
        json::lemma_with_same_field(capabilities, "alwaysMatch"@);
    }
}

/// The native driver never sees options for a Tauri application among what it
/// must always match.
pub proof fn law_mapping_hides_tauri_options(json: Json)
    ensures
        always_match(mapped_capabilities(json)) matches Some(members) ==> !members.contains_key(
            TAURI_OPTIONS@,
        ),
{
    lemma_keys_differ();
    lemma_mapped_always_match(json);
}

/// Mapping a request that has been mapped changes nothing.
pub proof fn law_mapping_is_idempotent(json: Json)
    ensures
        mapped_capabilities(mapped_capabilities(json)) == mapped_capabilities(json),
{
    law_mapping_hides_tauri_options(json);
    law_no_options_no_change(mapped_capabilities(json));
}

/// Options that can be read reach the native driver: the path of the
/// application as the binary, and the arguments in order. They do so among
/// what it must always match, and in `desiredCapabilities` where that is an
/// object; there too no options for a Tauri application are left.
pub proof fn law_options_reach_the_native_driver(json: Json, options: Options)
    requires
        requested_options(json) == Some(options),
    ensures
        always_match(mapped_capabilities(json)) matches Some(members) && {
            &&& members.contains_key("webkitgtk:browserOptions"@)
            &&& json::field(members["webkitgtk:browserOptions"@], "binary"@) == Some(
                Json::Text(options.application),
            )
            &&& json::field(members["webkitgtk:browserOptions"@], "args"@) == Some(
                Json::Array(json::text_items(options.args)),
            )
        },
        json::field(json, "desiredCapabilities"@) matches Some(Json::Object(_)) ==> {
            let desired = json::field(mapped_capabilities(json), "desiredCapabilities"@)->0;
            &&& json::field(desired, "webkitgtk:browserOptions"@) == json::field(
                Json::Object(always_match(mapped_capabilities(json))->0),
                "webkitgtk:browserOptions"@,
            )
            &&& json::field(desired, TAURI_OPTIONS@) is None
        },
{
    lemma_keys_differ();
    lemma_mapped_always_match(json);
}

/// Options that cannot be read are dropped, and `desiredCapabilities` stays as
/// it is.
pub proof fn law_unreadable_options_are_dropped(json: Json)
    requires
        requested_options(json) is None,
    ensures
        json::field(mapped_capabilities(json), "desiredCapabilities"@) == json::field(
            json,
            "desiredCapabilities"@,
        ),
        always_match(json) matches Some(members) ==> always_match(mapped_capabilities(json))
            == Some(members.remove(TAURI_OPTIONS@)),
{
    lemma_keys_differ();
    lemma_mapped_always_match(json);
}

/// The mapping touches nothing but the two keys of the options: every other
/// member of the request, of `capabilities`, of `alwaysMatch` and of
/// `desiredCapabilities` stays as it is.
pub proof fn law_mapping_keeps_the_rest(json: Json, key: Seq<char>)
    ensures
        key != "capabilities"@ && key != "desiredCapabilities"@ ==> json::field(
            mapped_capabilities(json),
            key,
        ) == json::field(json, key),
        json::field(json, "capabilities"@) matches Some(capabilities) ==> {
            &&& json::field(mapped_capabilities(json), "capabilities"@) matches Some(mapped)
            &&& key != "alwaysMatch"@ ==> json::field(mapped, key) == json::field(
                capabilities,
                key,
            )
        },
        key != TAURI_OPTIONS@ && key != "webkitgtk:browserOptions"@ ==> {
            &&& always_match(json) matches Some(members) ==> {
                &&& always_match(mapped_capabilities(json)) matches Some(mapped)
                &&& json::field(Json::Object(mapped), key) == json::field(
                    Json::Object(members),
                    key,
                )
            }
            &&& json::field(json, "desiredCapabilities"@) matches Some(desired) ==> {
                &&& json::field(mapped_capabilities(json), "desiredCapabilities"@) matches Some(
                    mapped,
                )
                &&& json::field(mapped, key) == json::field(desired, key)
            }
        },
{
    lemma_keys_differ();
    lemma_mapped_always_match(json);
}

/// The members for the native driver stand no deeper than any object may that
/// has three levels left.
proof fn lemma_native_form_is_shallow(members: Map<Seq<char>, Json>, options: Options, depth: nat)
    requires
        json::shallow(Json::Object(members), depth),
        depth >= 3,
    ensures
        json::shallow(Json::Object(native_form(members, options)), depth),
        json::shallow(Json::Object(members.remove(TAURI_OPTIONS@)), depth),
{
    let browser = native_members(options)["webkitgtk:browserOptions"@];
    let items = json::text_items(options.args);
    let list = Json::Array(items);
    assert(json::shallow(list, (depth - 2) as nat)) by {
        assert forall|i: int| 0 <= i < items.len() implies json::shallow(
            #[trigger] items[i],
            (depth - 3) as nat,
        ) by {
            assert(items[i] is Text);
        }
    }
    assert(json::shallow(browser, (depth - 1) as nat)) by {
        let fields = browser->Object_0;
        assert forall|key: Seq<char>| #[trigger] fields.contains_key(key) implies json::shallow(
            fields[key],
            (depth - 2) as nat,
        ) by {
            assert(fields[key] == list || fields[key] == Json::Text(options.application));
        }
    }
    let changed = native_form(members, options);
    assert forall|key: Seq<char>| #[trigger] changed.contains_key(key) implies json::shallow(
        changed[key],
        (depth - 1) as nat,
    ) by {
        if key == "webkitgtk:browserOptions"@ {
            assert(changed[key] == browser);
        } else {
            json::lemma_shallow_field(Json::Object(members), key, depth);
            assert(changed[key] == members[key]);
        }
    }
    let fewer = members.remove(TAURI_OPTIONS@);
    assert forall|key: Seq<char>| #[trigger] fewer.contains_key(key) implies json::shallow(
        fewer[key],
        (depth - 1) as nat,
    ) by {
        json::lemma_shallow_field(Json::Object(members), key, depth);
        assert(fewer[key] == members[key]);
    }
}

/// The mapping makes no document too deep to be read: it adds nothing below the
/// fifth level.
pub proof fn law_mapping_stays_readable(json: Json, depth: nat)
    requires
        json::shallow(json, depth),
        depth >= 5,
    ensures
        json::shallow(mapped_capabilities(json), depth),
{
    lemma_keys_differ();
    if let Some(members) = always_match(json) {
        let capabilities = json::field(json, "capabilities"@)->0;
        json::lemma_shallow_field(json, "capabilities"@, depth);
        json::lemma_shallow_field(capabilities, "alwaysMatch"@, (depth - 1) as nat);
        let options = match requested_options(json) {
            Some(options) => options,
            None => Options { application: seq![], args: seq![] },
        };
        lemma_native_form_is_shallow(members, options, (depth - 2) as nat);
        let form = match requested_options(json) {
            Some(options) => native_form(members, options),
            None => members.remove(TAURI_OPTIONS@),
        };
        json::lemma_shallow_with_field(
            capabilities,
            "alwaysMatch"@,
            Json::Object(form),
            (depth - 1) as nat,
        );
        json::lemma_shallow_with_field(
            json,
            "capabilities"@,
            json::with_field(capabilities, "alwaysMatch"@, Json::Object(form)),
            depth,
        );
        let mapped = with_always_match(json, form);
        json::lemma_shallow_field(mapped, "desiredCapabilities"@, depth);
        if let Some(Json::Object(desired)) = json::field(mapped, "desiredCapabilities"@) {
            lemma_native_form_is_shallow(desired, options, (depth - 1) as nat);
            json::lemma_shallow_with_field(
                mapped,
                "desiredCapabilities"@,
                Json::Object(native_form(desired, options)),
                depth,
            );
        }
    }
}

/// Where the options that can be read are an object, the application that they
/// name is the one that a plugin session launches.
pub proof fn law_app_path_is_the_requested_application(json: Json, options: Options)
    requires
        requested_options(json) == Some(options),
        !(always_match(json)->0[TAURI_OPTIONS@] is Array),
    ensures
        app_path(json) == Some(options.application),
{
}

/// Options are read from an object with a text `application`, and with `args`,
/// where it has them, a list of texts; or from a list of those two, the second
/// of which may be left out. What is read is that text and those very texts,
/// none where they are left out; nothing else is read as options.
pub proof fn law_options_are_read_whole(json: Json, options: Options)
    ensures
        decoded_options(json) == Some(options) <==> {
            ||| (json matches Json::Object(fields) && {
                &&& fields.contains_key("application"@)
                &&& fields["application"@] == Json::Text(options.application)
                &&& if fields.contains_key("args"@) {
                    fields["args"@] == Json::Array(
                        Seq::new(options.args.len(), |i: int| Json::Text(options.args[i])),
                    )
                } else {
                    options.args.len() == 0
                }
            })
            ||| (json matches Json::Array(items) && {
                &&& 1 <= items.len() <= 2
                &&& items[0] == Json::Text(options.application)
                &&& if items.len() == 2 {
                    items[1] == Json::Array(
                        Seq::new(options.args.len(), |i: int| Json::Text(options.args[i])),
                    )
                } else {
                    options.args.len() == 0
                }
            })
        },
{
    let texts = Seq::new(options.args.len(), |i: int| Json::Text(options.args[i]));
    assert(texts.map_values(|item: Json| item->Text_0) =~= options.args);
    let list = match json {
        Json::Array(items) => if items.len() == 2 {
            Some(items[1])
        } else {
            None
        },
        _ => json::field(json, "args"@),
    };
    if let Some(Json::Array(items)) = list {
        if listed_texts(Json::Array(items)) == Some(options.args) {
            assert forall|i: int| 0 <= i < items.len() implies items[i] == texts[i] by {
                assert(items[i] is Text);
                assert(items.map_values(|item: Json| item->Text_0)[i] == options.args[i]);
            }
            assert(items =~= texts);
        }
    }
    if options.args.len() == 0 {
        assert(options.args =~= Seq::empty());
    }
    if let Some(found) = decoded_options(json) {
        if found.application == options.application && found.args =~= options.args {
            assert(found == options);
        }
    }
}

/// What becomes of a request whose options are decoded.
proof fn lemma_decoded_options_are_mapped(
    root: Map<Seq<char>, Json>,
    capabilities: Map<Seq<char>, Json>,
    always: Map<Seq<char>, Json>,
    options: Options,
    items: Seq<Json>,
)
    requires
        root.contains_key("capabilities"@),
        root["capabilities"@] == Json::Object(capabilities),
        capabilities.contains_key("alwaysMatch"@),
        capabilities["alwaysMatch"@] == Json::Object(always),
        always.contains_key("tauri:options"@),
        decoded_options(always["tauri:options"@]) == Some(options),
        items == Seq::new(options.args.len(), |i: int| Json::Text(options.args[i])),
    ensures
        ({
            let native = Json::Object(
                map!["binary"@ => Json::Text(options.application), "args"@ => Json::Array(items)],
            );
            let always_after = always.remove("tauri:options"@).insert(
                "webkitgtk:browserOptions"@,
                native,
            );
            let after = root.insert(
                "capabilities"@,
                Json::Object(capabilities.insert("alwaysMatch"@, Json::Object(always_after))),
            );
            mapped_capabilities(Json::Object(root)) == if root.contains_key("desiredCapabilities"@)
                && root["desiredCapabilities"@] is Object {
                Json::Object(
                    after.insert(
                        "desiredCapabilities"@,
                        Json::Object(
                            root["desiredCapabilities"@]->Object_0.remove("tauri:options"@).insert(
                                "webkitgtk:browserOptions"@,
                                native,
                            ),
                        ),
                    ),
                )
            } else {
                Json::Object(after)
            }
        }),
{
    lemma_keys_differ();
    let native = Json::Object(
        map!["binary"@ => Json::Text(options.application), "args"@ => Json::Array(items)],
    );
    assert(json::text_items(options.args) =~= items);
    assert(native_members(options) =~= map!["webkitgtk:browserOptions"@ => native]);
    assert(native_form(always, options) =~= always.remove("tauri:options"@).insert(
        "webkitgtk:browserOptions"@,
        native,
    ));
    if root.contains_key("desiredCapabilities"@) && root["desiredCapabilities"@] is Object {
        let desired = root["desiredCapabilities"@]->Object_0;
        assert(native_form(desired, options) =~= desired.remove("tauri:options"@).insert(
            "webkitgtk:browserOptions"@,
            native,
        ));
    }
}

/// A request whose `alwaysMatch` has options with an application and a list of
/// arguments gives the native driver that application as the binary and that
/// very list, of whatever length, in place of the options; so does
/// `desiredCapabilities`, where it is an object. Left out, the list is empty.
/// Nothing else changes.
pub proof fn law_native_driver_gets_the_very_arguments(
    root: Map<Seq<char>, Json>,
    capabilities: Map<Seq<char>, Json>,
    always: Map<Seq<char>, Json>,
    options: Map<Seq<char>, Json>,
    application: Seq<char>,
    items: Seq<Json>,
)
    requires
        root.contains_key("capabilities"@),
        root["capabilities"@] == Json::Object(capabilities),
        capabilities.contains_key("alwaysMatch"@),
        capabilities["alwaysMatch"@] == Json::Object(always),
        always.contains_key("tauri:options"@),
        always["tauri:options"@] == Json::Object(options),
        options.contains_key("application"@),
        options["application"@] == Json::Text(application),
        options.contains_key("args"@) ==> options["args"@] == Json::Array(items),
        !options.contains_key("args"@) ==> items.len() == 0,
        forall|i: int| 0 <= i < items.len() ==> #[trigger] items[i] is Text,
    ensures
        ({
            let native = Json::Object(
                map!["binary"@ => Json::Text(application), "args"@ => Json::Array(items)],
            );
            let always_after = always.remove("tauri:options"@).insert(
                "webkitgtk:browserOptions"@,
                native,
            );
            let after = root.insert(
                "capabilities"@,
                Json::Object(capabilities.insert("alwaysMatch"@, Json::Object(always_after))),
            );
            mapped_capabilities(Json::Object(root)) == if root.contains_key("desiredCapabilities"@)
                && root["desiredCapabilities"@] is Object {
                Json::Object(
                    after.insert(
                        "desiredCapabilities"@,
                        Json::Object(
                            root["desiredCapabilities"@]->Object_0.remove("tauri:options"@).insert(
                                "webkitgtk:browserOptions"@,
                                native,
                            ),
                        ),
                    ),
                )
            } else {
                Json::Object(after)
            }
        }),
{
    let read = Options { application, args: Seq::new(items.len(), |i: int| items[i]->Text_0) };
    assert(items =~= Seq::new(read.args.len(), |i: int| Json::Text(read.args[i])));
    law_options_are_read_whole(Json::Object(options), read);
    lemma_decoded_options_are_mapped(root, capabilities, always, read, items);
}

/// The same holds of options that are a list of the application and, where they
/// are not left out, the arguments.
pub proof fn law_listed_options_are_mapped(
    root: Map<Seq<char>, Json>,
    capabilities: Map<Seq<char>, Json>,
    always: Map<Seq<char>, Json>,
    listed: Seq<Json>,
    application: Seq<char>,
    items: Seq<Json>,
)
    requires
        root.contains_key("capabilities"@),
        root["capabilities"@] == Json::Object(capabilities),
        capabilities.contains_key("alwaysMatch"@),
        capabilities["alwaysMatch"@] == Json::Object(always),
        always.contains_key("tauri:options"@),
        always["tauri:options"@] == Json::Array(listed),
        1 <= listed.len() <= 2,
        listed[0] == Json::Text(application),
        listed.len() == 2 ==> listed[1] == Json::Array(items),
        listed.len() == 1 ==> items.len() == 0,
        forall|i: int| 0 <= i < items.len() ==> #[trigger] items[i] is Text,
    ensures
        ({
            let native = Json::Object(
                map!["binary"@ => Json::Text(application), "args"@ => Json::Array(items)],
            );
            let always_after = always.remove("tauri:options"@).insert(
                "webkitgtk:browserOptions"@,
                native,
            );
            let after = root.insert(
                "capabilities"@,
                Json::Object(capabilities.insert("alwaysMatch"@, Json::Object(always_after))),
            );
            mapped_capabilities(Json::Object(root)) == if root.contains_key("desiredCapabilities"@)
                && root["desiredCapabilities"@] is Object {
                Json::Object(
                    after.insert(
                        "desiredCapabilities"@,
                        Json::Object(
                            root["desiredCapabilities"@]->Object_0.remove("tauri:options"@).insert(
                                "webkitgtk:browserOptions"@,
                                native,
                            ),
                        ),
                    ),
                )
            } else {
                Json::Object(after)
            }
        }),
{
    let read = Options { application, args: Seq::new(items.len(), |i: int| items[i]->Text_0) };
    assert(items =~= Seq::new(read.args.len(), |i: int| Json::Text(read.args[i])));
    law_options_are_read_whole(Json::Array(listed), read);
    lemma_decoded_options_are_mapped(root, capabilities, always, read, items);
}

/// A request whose options are none that can be read loses them, and nothing
/// else: where the application is missing or no text, or the arguments are no
/// list of texts.
pub proof fn law_other_options_are_only_taken_out(
    root: Map<Seq<char>, Json>,
    capabilities: Map<Seq<char>, Json>,
    always: Map<Seq<char>, Json>,
)
    requires
        root.contains_key("capabilities"@),
        root["capabilities"@] == Json::Object(capabilities),
        capabilities.contains_key("alwaysMatch"@),
        capabilities["alwaysMatch"@] == Json::Object(always),
        always.contains_key("tauri:options"@),
        match always["tauri:options"@] {
            Json::Object(fields) => {
                ||| !fields.contains_key("application"@)
                ||| !(fields["application"@] is Text)
                ||| (fields.contains_key("args"@) && !(fields["args"@] matches Json::Array(items)
                    && forall|i: int| 0 <= i < items.len() ==> #[trigger] items[i] is Text))
            },
            Json::Array(listed) => {
                ||| !(1 <= listed.len() <= 2)
                ||| !(listed[0] is Text)
                ||| (listed.len() == 2 && !(listed[1] matches Json::Array(items) && forall|i: int|
                    0 <= i < items.len() ==> #[trigger] items[i] is Text))
            },
            _ => true,
        },
    ensures
        mapped_capabilities(Json::Object(root)) == Json::Object(
            root.insert(
                "capabilities"@,
                Json::Object(
                    capabilities.insert(
                        "alwaysMatch"@,
                        Json::Object(always.remove("tauri:options"@)),
                    ),
                ),
            ),
        ),
{
    let options = always["tauri:options"@];
    if let Some(read) = decoded_options(options) {
        law_options_are_read_whole(options, read);
    }
}

/// A document that has no options in `capabilities.alwaysMatch` is left as it
/// is, whatever it is.
pub proof fn law_other_documents_stay(json: Json)
    requires
        !(json matches Json::Object(root) && root.contains_key("capabilities"@) && (
        root["capabilities"@] matches Json::Object(capabilities) && capabilities.contains_key(
            "alwaysMatch"@,
        ) && (capabilities["alwaysMatch"@] matches Json::Object(always) && always.contains_key(
            "tauri:options"@,
        )))),
    ensures
        mapped_capabilities(json) == json,
{
    law_no_options_no_change(json);
}

/// The path of an application is the text under `application` in the options in
/// `capabilities.alwaysMatch`, and there is none where any of these is missing.
pub proof fn law_app_path_is_the_text_in_the_options(json: Json, path: Seq<char>)
    ensures
        app_path(json) == Some(path) <==> (json matches Json::Object(root) && root.contains_key(
            "capabilities"@,
        ) && (root["capabilities"@] matches Json::Object(capabilities) && capabilities.contains_key(
            "alwaysMatch"@,
        ) && (capabilities["alwaysMatch"@] matches Json::Object(always) && always.contains_key(
            "tauri:options"@,
        ) && (always["tauri:options"@] matches Json::Object(options) && options.contains_key(
            "application"@,
        ) && options["application"@] == Json::Text(path))))),
{
}

/// Options are known by their application and each of their arguments, in
/// order, and all of these are in what the native driver gets.
pub proof fn law_options_are_known_whole(options: TauriOptions)
    ensures
        options@.application == options.application@,
        options@.args == Seq::new(options.args@.len(), |i: int| options.args@[i]@),
        native_members(options@) == map![
            "webkitgtk:browserOptions"@ => Json::Object(
                map![
                    "binary"@ => Json::Text(options.application@),
                    "args"@ => Json::Array(
                        Seq::new(options.args@.len(), |i: int| Json::Text(options.args@[i]@)),
                    ),
                ],
            ),
        ],
{
    let args = Seq::new(options.args@.len(), |i: int| options.args@[i]@);
    assert(options@.args =~= args);
    let items = Seq::new(options.args@.len(), |i: int| Json::Text(options.args@[i]@));
    assert(json::text_items(options@.args) =~= items);
}

} // verus!
