use vstd::prelude::*;

use crate::artifacts::place_artifacts;
use crate::artifacts::spec_is_placements;
use crate::artifacts::spec_targets_ok;
use crate::artifacts::Placement;
use crate::config::get_android_app_id;
use crate::config::get_android_app_title;
use crate::config::get_toml_string;
use crate::config::get_toml_string_array;
use crate::config::spec_all_strings;
use crate::config::spec_app_id;
use crate::config::spec_app_title;
use crate::config::spec_get_string;
use crate::config::spec_lookup;
use crate::config::spec_string_items;
use crate::config::ConfigValue;
use crate::errors::Error;
use crate::icons::icon_spec;
use crate::icons::spec_icon_conflict;
use crate::icons::spec_is_icon_choice;
use crate::icons::IconSpec;
use crate::patch::append_copy;
use crate::patch::replace_all;
use crate::patch::spec_replace;
use crate::patch::Patch;
use crate::strutil::chars_of;
use crate::strutil::str_eq;

verus! {

/// Whether `p` replaces the literal token `from` by `to`.
pub open spec fn spec_is_lit(p: Patch, from: Seq<char>, to: Seq<char>) -> bool {
    p matches Patch::Literal { from: f, to: t } && f@ == from && t@ == to
}

/// Whether `p` replaces the `keyword`-introduced block containing `marker`
/// wholesale by `repl`.
pub open spec fn spec_is_block(p: Patch, keyword: Seq<char>, marker: Seq<char>, repl: Seq<char>) -> bool {
    p matches Patch::Block { keyword: k, marker: m, replacement: r } && k@ == keyword && m@
        == marker && r@ == repl
}

/// The complete native-build block written into the build descriptor: fixed
/// build arguments and the closed ABI filter list.
pub open spec fn spec_abi_filter_block() -> Seq<char> {
    "externalNativeBuild {\n            cmake {\n                arguments \"-DANDROID_APP_PLATFORM=android-19\", \"-DANDROID_STL=c++_static\"\n                //abiFilters 'armeabi-v7a', 'arm64-v8a', 'x86', 'x86_64'\n                abiFilters 'armeabi-v7a', 'arm64-v8a', 'x86'\n            }\n        }"@
}

/// The complete native-build block that points the build descriptor at the
/// generated native build script.
pub open spec fn spec_native_path_block() -> Seq<char> {
    "externalNativeBuild {\n            cmake {\n                path 'jni/CMakeLists.txt'\n            }\n        }"@
}

/// The ordered patches of the build descriptor: package identifier
/// substitution, minimum SDK bump, then the two native-build block rewrites.
pub open spec fn spec_is_gradle_patches(ps: Seq<Patch>, app_id: Seq<char>) -> bool {
    &&& ps.len() == 4
    &&& spec_is_lit(ps[0], "org.libsdl.app"@, app_id)
    &&& spec_is_lit(ps[1], "minSdkVersion 16"@, "minSdkVersion 26"@)
    &&& spec_is_block(ps[2], "externalNativeBuild"@, "abiFilters"@, spec_abi_filter_block())
    &&& spec_is_block(ps[3], "externalNativeBuild"@, "path"@, spec_native_path_block())
}

/// Builds the build-descriptor patch list for a package identifier.
pub fn gradle_patches(app_id: &str) -> (r: Vec<Patch>)
    ensures
        spec_is_gradle_patches(r@, app_id@),
{
    let mut ps: Vec<Patch> = Vec::new();
    ps.push(Patch::Literal { from: chars_of("org.libsdl.app"), to: chars_of(app_id) });
    ps.push(
        Patch::Literal { from: chars_of("minSdkVersion 16"), to: chars_of("minSdkVersion 26") },
    );
    ps.push(
        Patch::Block {
            keyword: chars_of("externalNativeBuild"),
            marker: chars_of("abiFilters"),
            replacement: chars_of(
                "externalNativeBuild {\n            cmake {\n                arguments \"-DANDROID_APP_PLATFORM=android-19\", \"-DANDROID_STL=c++_static\"\n                //abiFilters 'armeabi-v7a', 'arm64-v8a', 'x86', 'x86_64'\n                abiFilters 'armeabi-v7a', 'arm64-v8a', 'x86'\n            }\n        }",
            ),
        },
    );
    ps.push(
        Patch::Block {
            keyword: chars_of("externalNativeBuild"),
            marker: chars_of("path"),
            replacement: chars_of(
                "externalNativeBuild {\n            cmake {\n                path 'jni/CMakeLists.txt'\n            }\n        }",
            ),
        },
    );
    ps
}

/// The display-name patch of the string resources file.
pub open spec fn spec_is_strings_patches(ps: Seq<Patch>, app_name: Seq<char>) -> bool {
    ps.len() == 1 && spec_is_lit(ps[0], "Game"@, app_name)
}

/// Builds the string-resources patch list for a display title.
pub fn strings_patches(app_name: &str) -> (r: Vec<Patch>)
    ensures
        spec_is_strings_patches(r@, app_name@),
{
    let mut ps: Vec<Patch> = Vec::new();
    ps.push(Patch::Literal { from: chars_of("Game"), to: chars_of(app_name) });
    ps
}

/// The fullscreen UI-flag call injected immediately ahead of the known
/// content-view call in the activity source.
pub open spec fn spec_fullscreen_injection() -> Seq<char> {
    "mLayout.setSystemUiVisibility(View.SYSTEM_UI_FLAG_LOW_PROFILE | View.SYSTEM_UI_FLAG_FULLSCREEN | View.SYSTEM_UI_FLAG_LAYOUT_STABLE | View.SYSTEM_UI_FLAG_IMMERSIVE_STICKY | View.SYSTEM_UI_FLAG_LAYOUT_HIDE_NAVIGATION | View.SYSTEM_UI_FLAG_HIDE_NAVIGATION | View.SYSTEM_UI_FLAG_LAYOUT_FULLSCREEN);\n                setContentView(mLayout);"@
}

/// The activity-source patch applied when the fullscreen flag is set.
pub open spec fn spec_is_activity_patches(ps: Seq<Patch>) -> bool {
    ps.len() == 1 && spec_is_lit(ps[0], "setContentView(mLayout);"@, spec_fullscreen_injection())
}

/// Builds the activity-source patch list that injects the fullscreen
/// UI-flag call.
pub fn activity_patches() -> (r: Vec<Patch>)
    ensures
        spec_is_activity_patches(r@),
{
    let mut ps: Vec<Patch> = Vec::new();
    ps.push(
        Patch::Literal {
            from: chars_of("setContentView(mLayout);"),
            to: chars_of(
                "mLayout.setSystemUiVisibility(View.SYSTEM_UI_FLAG_LOW_PROFILE | View.SYSTEM_UI_FLAG_FULLSCREEN | View.SYSTEM_UI_FLAG_LAYOUT_STABLE | View.SYSTEM_UI_FLAG_IMMERSIVE_STICKY | View.SYSTEM_UI_FLAG_LAYOUT_HIDE_NAVIGATION | View.SYSTEM_UI_FLAG_HIDE_NAVIGATION | View.SYSTEM_UI_FLAG_LAYOUT_FULLSCREEN);\n                setContentView(mLayout);",
            ),
        },
    );
    ps
}

/// The native build-descriptor patch that removes the template's conflicting
/// subdirectory inclusion.
pub open spec fn spec_is_cmake_patches(ps: Seq<Patch>) -> bool {
    ps.len() == 1 && spec_is_lit(ps[0], "add_subdirectory(src)"@, Seq::<char>::empty())
}

/// Builds the native build-descriptor patch list.
pub fn cmake_patches() -> (r: Vec<Patch>)
    ensures
        spec_is_cmake_patches(r@),
{
    let mut ps: Vec<Patch> = Vec::new();
    ps.push(Patch::Literal { from: chars_of("add_subdirectory(src)"), to: chars_of("") });
    proof {
        reveal_strlit("");
        assert(""@ =~= Seq::<char>::empty());
    }
    ps
}

/// The manifest text that the permission elements are inserted ahead of.
pub open spec fn spec_manifest_anchor() -> Seq<char> {
    "<application android:label=\"@string/app_name\""@
}

/// The permission element for one permission name, followed by the layout
/// that keeps the application element on its own line.
pub open spec fn spec_permission_element(p: Seq<char>) -> Seq<char> {
    "<uses-permission android:name=\"android.permission."@ + p + "\" />\n\t"@
}

/// Injects one permission element immediately ahead of the manifest's
/// application element.
pub fn use_permission(content: &Vec<char>, permission: &str) -> (r: Vec<char>)
    ensures
        r@ == spec_replace(
            content@,
            spec_manifest_anchor(),
            spec_permission_element(permission@) + spec_manifest_anchor(),
        ),
{
    let anchor = chars_of("<application android:label=\"@string/app_name\"");
    let mut to = chars_of("<uses-permission android:name=\"android.permission.");
    let perm = chars_of(permission);
    append_copy(&mut to, &perm);
    let close = chars_of("\" />\n\t");
    append_copy(&mut to, &close);
    append_copy(&mut to, &anchor);
    proof {
        assert(to@ =~= spec_permission_element(permission@) + spec_manifest_anchor());
    }
    replace_all(content, &anchor, &to)
}

/// The ordered manifest patches: one permission element injected per
/// configured permission, in configuration order.
pub open spec fn spec_is_manifest_patches(ps: Seq<Patch>, perms: Seq<Seq<char>>) -> bool {
    &&& ps.len() == perms.len()
    &&& forall|k: int|
        0 <= k < ps.len() ==> spec_is_lit(
            #[trigger] ps[k],
            spec_manifest_anchor(),
            spec_permission_element(perms[k]) + spec_manifest_anchor(),
        )
}

/// Builds the manifest patch list for the configured permission names.
pub fn manifest_patches(permissions: &Vec<String>) -> (r: Vec<Patch>)
    ensures
        spec_is_manifest_patches(r@, permissions.deep_view()),
{
    let n = permissions.len();
    let mut ps: Vec<Patch> = Vec::new();
    let mut i: usize = 0;
    while i < n
        invariant
            n == permissions@.len(),
            i <= n,
            ps@.len() == i,
            forall|k: int|
                0 <= k < i ==> spec_is_lit(
                    #[trigger] ps@[k],
                    spec_manifest_anchor(),
                    spec_permission_element(permissions.deep_view()[k]) + spec_manifest_anchor(),
                ),
        decreases n - i,
    {
        let anchor = chars_of("<application android:label=\"@string/app_name\"");
        let mut to = chars_of("<uses-permission android:name=\"android.permission.");
        let perm = chars_of(permissions[i].as_str());
        append_copy(&mut to, &perm);
        let close = chars_of("\" />\n\t");
        append_copy(&mut to, &close);
        append_copy(&mut to, &anchor);
        proof {
            assert(to@ =~= spec_permission_element(permissions.deep_view()[i as int])
                + spec_manifest_anchor());
        }
        ps.push(Patch::Literal { from: anchor, to });
        i += 1;
    }
    ps
}

/// Whether the boolean fullscreen-improvement flag is set in the
/// configuration.
pub open spec fn spec_fullscreen(doc: ConfigValue) -> bool {
    spec_get_string(doc, seq!["package"@, "metadata"@, "android"@, "improve_fullscreen"@])
        == Some("true"@)
}

/// The configured permission names, empty when the key path is absent or not
/// a list.
pub open spec fn spec_permissions(doc: ConfigValue) -> Seq<Seq<char>> {
    match spec_lookup(doc, seq!["package"@, "metadata"@, "android"@, "permissions"@]) {
        Some(ConfigValue::List(vs)) => spec_string_items(vs@),
        _ => Seq::empty(),
    }
}

/// Whether the configured permissions value is a list holding a non-string
/// element: a fatal configuration error.
pub open spec fn spec_permissions_malformed(doc: ConfigValue) -> bool {
    spec_lookup(doc, seq!["package"@, "metadata"@, "android"@, "permissions"@]) matches Some(
        ConfigValue::List(vs),
    ) && !spec_all_strings(vs@)
}

/// The configured flat icon path.
pub open spec fn spec_icon_path(doc: ConfigValue) -> Option<Seq<char>> {
    spec_get_string(doc, seq!["package"@, "metadata"@, "android"@, "icon"@])
}

/// The configured adaptive foreground layer path.
pub open spec fn spec_foreground_path(doc: ConfigValue) -> Option<Seq<char>> {
    spec_get_string(doc, seq!["package"@, "metadata"@, "android"@, "adaptive_icon_foreground"@])
}

/// The configured adaptive background layer path.
pub open spec fn spec_background_path(doc: ConfigValue) -> Option<Seq<char>> {
    spec_get_string(doc, seq!["package"@, "metadata"@, "android"@, "adaptive_icon_background"@])
}

/// The configured adaptive monochrome layer path.
pub open spec fn spec_monochrome_path(doc: ConfigValue) -> Option<Seq<char>> {
    spec_get_string(doc, seq!["package"@, "metadata"@, "android"@, "adaptive_icon_monochrome"@])
}

/// The patches of one file of the materialized tree, ordered.
pub struct FilePatch {
    pub file: String,
    pub patches: Vec<Patch>,
}

/// Everything the pipeline derives from the configuration and the artifact
/// map before touching the tree: identifiers, per-file patch lists, native
/// library placements, and the validated icon configuration.
pub struct ProjectPlan {
    pub app_id: String,
    pub app_name: String,
    pub java_dir: Vec<char>,
    pub files: Vec<FilePatch>,
    pub placements: Vec<Placement>,
    pub icon: Option<IconSpec>,
}

/// Derives the whole materialization plan from the configuration document
/// and the artifact map. Fails exactly on an unknown target triple, a
/// conflicting icon configuration, or a malformed permission array, in that
/// order of precedence; no filesystem state is involved.
pub fn create_android_project(doc: &ConfigValue, target_artifacts: &Vec<(String, String)>) -> (r:
    Result<ProjectPlan, Error>)
    ensures
        r is Ok <==> (spec_targets_ok(target_artifacts@) && !spec_icon_conflict(
            spec_icon_path(*doc),
            spec_foreground_path(*doc),
            spec_background_path(*doc),
            spec_monochrome_path(*doc),
        ) && !spec_permissions_malformed(*doc)),
        r matches Err(e) ==> match e {
            Error::UnknownTarget(t) => crate::target_map::spec_abi_of(t@) is None && (exists|
                i: int,
            |
                0 <= i < target_artifacts@.len() && (#[trigger] target_artifacts@[i].0)@ == t@),
            Error::IconConflict => spec_targets_ok(target_artifacts@) && spec_icon_conflict(
                spec_icon_path(*doc),
                spec_foreground_path(*doc),
                spec_background_path(*doc),
                spec_monochrome_path(*doc),
            ),
            Error::MalformedStringArray => spec_targets_ok(target_artifacts@)
                && !spec_icon_conflict(
                spec_icon_path(*doc),
                spec_foreground_path(*doc),
                spec_background_path(*doc),
                spec_monochrome_path(*doc),
            ) && spec_permissions_malformed(*doc),
            Error::MissingKeystorePassword => false,
        },
        r matches Ok(plan) ==> {
            &&& plan.app_id@ == spec_app_id(*doc)
            &&& plan.app_name@ == spec_app_title(*doc)
            &&& plan.java_dir@ == spec_replace(spec_app_id(*doc), "."@, "/"@)
            &&& plan.files@.len() == (if spec_fullscreen(*doc) {
                5int
            } else {
                4int
            })
            &&& plan.files@[0].file@ == "app/build.gradle"@
            &&& spec_is_gradle_patches(plan.files@[0].patches@, spec_app_id(*doc))
            &&& plan.files@[1].file@ == "app/src/main/res/values/strings.xml"@
            &&& spec_is_strings_patches(plan.files@[1].patches@, spec_app_title(*doc))
            &&& plan.files@[2].file@ == "app/jni/CMakeLists.txt"@
            &&& spec_is_cmake_patches(plan.files@[2].patches@)
            &&& plan.files@[3].file@ == "app/src/main/AndroidManifest.xml"@
            &&& spec_is_manifest_patches(plan.files@[3].patches@, spec_permissions(*doc))
            &&& (spec_fullscreen(*doc) ==> plan.files@[4].file@
                == "app/src/main/java/org/libsdl/app/SDLActivity.java"@
                && spec_is_activity_patches(plan.files@[4].patches@))
            &&& spec_is_placements(plan.placements@, target_artifacts@)
            &&& spec_is_icon_choice(
                plan.icon,
                spec_icon_path(*doc),
                spec_foreground_path(*doc),
                spec_background_path(*doc),
                spec_monochrome_path(*doc),
            )
        },
{
    let app_id = get_android_app_id(doc);
    let app_name = get_android_app_title(doc);

    let placements = match place_artifacts(target_artifacts) {
        Ok(ps) => ps,
        Err(e) => {
            return Err(e);
        },
    };

    let icon_path_keys: Vec<&str> = vec!["package", "metadata", "android", "icon"];
    proof {
        assert(icon_path_keys.deep_view() =~= seq!["package"@, "metadata"@, "android"@, "icon"@]);
    }
    let icon_path = get_toml_string(doc, &icon_path_keys);

    let fg_keys: Vec<&str> = vec!["package", "metadata", "android", "adaptive_icon_foreground"];
    proof {
        assert(fg_keys.deep_view() =~= seq![
            "package"@,
            "metadata"@,
            "android"@,
            "adaptive_icon_foreground"@,
        ]);
    }
    let fg_path = get_toml_string(doc, &fg_keys);

    let bg_keys: Vec<&str> = vec!["package", "metadata", "android", "adaptive_icon_background"];
    proof {
        assert(bg_keys.deep_view() =~= seq![
            "package"@,
            "metadata"@,
            "android"@,
            "adaptive_icon_background"@,
        ]);
    }
    let bg_path = get_toml_string(doc, &bg_keys);

    let mono_keys: Vec<&str> = vec!["package", "metadata", "android", "adaptive_icon_monochrome"];
    proof {
        assert(mono_keys.deep_view() =~= seq![
            "package"@,
            "metadata"@,
            "android"@,
            "adaptive_icon_monochrome"@,
        ]);
    }
    let mono_path = get_toml_string(doc, &mono_keys);

    let icon = match icon_spec(icon_path, fg_path, bg_path, mono_path) {
        Ok(choice) => choice,
        Err(e) => {
            return Err(e);
        },
    };

    let perm_keys: Vec<&str> = vec!["package", "metadata", "android", "permissions"];
    proof {
        assert(perm_keys.deep_view() =~= seq![
            "package"@,
            "metadata"@,
            "android"@,
            "permissions"@,
        ]);
    }
    let permissions = match get_toml_string_array(doc, &perm_keys) {
        Ok(Some(items)) => items,
        Ok(None) => Vec::new(),
        Err(e) => {
            return Err(e);
        },
    };
    proof {
        assert(permissions.deep_view() =~= spec_permissions(*doc));
    }

    let fs_keys: Vec<&str> = vec!["package", "metadata", "android", "improve_fullscreen"];
    proof {
        assert(fs_keys.deep_view() =~= seq![
            "package"@,
            "metadata"@,
            "android"@,
            "improve_fullscreen"@,
        ]);
    }
    let fullscreen = match get_toml_string(doc, &fs_keys) {
        Some(v) => str_eq(v.as_str(), "true"),
        None => false,
    };

    let mut files: Vec<FilePatch> = Vec::new();
    files.push(
        FilePatch { file: "app/build.gradle".to_owned(), patches: gradle_patches(app_id.as_str()) },
    );
    files.push(
        FilePatch {
            file: "app/src/main/res/values/strings.xml".to_owned(),
            patches: strings_patches(app_name.as_str()),
        },
    );
    files.push(FilePatch { file: "app/jni/CMakeLists.txt".to_owned(), patches: cmake_patches() });
    files.push(
        FilePatch {
            file: "app/src/main/AndroidManifest.xml".to_owned(),
            patches: manifest_patches(&permissions),
        },
    );
    if fullscreen {
        files.push(
            FilePatch {
                file: "app/src/main/java/org/libsdl/app/SDLActivity.java".to_owned(),
                patches: activity_patches(),
            },
        );
    }

    let dot = chars_of(".");
    let slash = chars_of("/");
    let app_id_chars = chars_of(app_id.as_str());
    let java_dir = replace_all(&app_id_chars, &dot, &slash);

    Ok(ProjectPlan { app_id, app_name, java_dir, files, placements, icon })
}

} // verus!
