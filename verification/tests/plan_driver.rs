use android_pack::config::ConfigValue;
use android_pack::driver::default_keystore_file;
use android_pack::driver::keystore_plan;
use android_pack::driver::lex_le;
use android_pack::driver::profile_dir_name;
use android_pack::driver::select_build_tools;
use android_pack::driver::should_sign;
use android_pack::errors::Error;
use android_pack::gradle_task;
use android_pack::patch::apply_patches;
use android_pack::project::create_android_project;
use android_pack::BuildProfile;

fn chars(s: &str) -> Vec<char> {
    s.chars().collect()
}

fn text(v: &[char]) -> String {
    v.iter().collect()
}

fn android_table(entries: Vec<(String, ConfigValue)>) -> ConfigValue {
    ConfigValue::Table(vec![(
        "package".to_string(),
        ConfigValue::Table(vec![(
            "metadata".to_string(),
            ConfigValue::Table(vec![("android".to_string(), ConfigValue::Table(entries))]),
        )]),
    )])
}

#[test]
fn end_to_end_debug_scenario() {
    let doc = android_table(vec![
        (
            "package_name".to_string(),
            ConfigValue::Text("com.x.y".to_string()),
        ),
        ("title".to_string(), ConfigValue::Text("My App".to_string())),
    ]);
    let artifacts = vec![(
        "aarch64-linux-android".to_string(),
        "target/aarch64-linux-android/debug/libmain.so".to_string(),
    )];
    let plan = create_android_project(&doc, &artifacts).unwrap();

    assert_eq!(plan.app_id, "com.x.y");
    assert_eq!(plan.app_name, "My App");
    assert_eq!(text(&plan.java_dir), "com/x/y");

    assert_eq!(plan.files.len(), 4);
    assert_eq!(plan.files[0].file, "app/build.gradle");
    let gradle_src = "applicationId \"org.libsdl.app\"\nminSdkVersion 16\n";
    let patched = text(&apply_patches(&chars(gradle_src), &plan.files[0].patches));
    assert_eq!(patched, "applicationId \"com.x.y\"\nminSdkVersion 26\n");

    assert_eq!(plan.files[1].file, "app/src/main/res/values/strings.xml");
    let strings_src = "<string name=\"app_name\">Game</string>";
    let patched = text(&apply_patches(&chars(strings_src), &plan.files[1].patches));
    assert_eq!(patched, "<string name=\"app_name\">My App</string>");

    assert_eq!(plan.files[2].file, "app/jni/CMakeLists.txt");
    let cmake_src = "project(main)\nadd_subdirectory(src)\n";
    let patched = text(&apply_patches(&chars(cmake_src), &plan.files[2].patches));
    assert_eq!(patched, "project(main)\n\n");

    assert_eq!(plan.files[3].file, "app/src/main/AndroidManifest.xml");
    assert!(plan.files[3].patches.is_empty());

    assert_eq!(plan.placements.len(), 1);
    assert_eq!(plan.placements[0].dir, "jniLibs/arm64-v8a");
    assert_eq!(
        plan.placements[0].source,
        "target/aarch64-linux-android/debug/libmain.so"
    );

    assert!(plan.icon.is_none());

    assert_eq!(gradle_task(BuildProfile::Debug), "assembleDebug");
    assert!(!should_sign(BuildProfile::Debug));
}

#[test]
fn gradle_block_patches_rewrite_the_build_descriptor() {
    let doc = android_table(vec![]);
    let plan = create_android_project(&doc, &vec![]).unwrap();
    let gradle_src = "android {\n    defaultConfig {\n        externalNativeBuild {\n            ndkBuild {\n                arguments \"APP_PLATFORM=android-16\"\n                abiFilters 'armeabi-v7a', 'arm64-v8a', 'x86', 'x86_64'\n            }\n        }\n    }\n    externalNativeBuild {\n        ndkBuild {\n            path 'jni/Android.mk'\n        }\n    }\n}\n";
    let patched = text(&apply_patches(&chars(gradle_src), &plan.files[0].patches));
    assert!(patched.contains("abiFilters 'armeabi-v7a', 'arm64-v8a', 'x86'\n"));
    assert!(!patched.contains("APP_PLATFORM=android-16"));
    assert!(patched.contains("path 'jni/CMakeLists.txt'"));
    assert!(!patched.contains("path 'jni/Android.mk'"));
    assert!(patched.contains("-DANDROID_APP_PLATFORM=android-19"));
}

#[test]
fn fullscreen_flag_adds_the_activity_patch() {
    let doc = android_table(vec![(
        "improve_fullscreen".to_string(),
        ConfigValue::Flag(true),
    )]);
    let plan = create_android_project(&doc, &vec![]).unwrap();
    assert_eq!(plan.files.len(), 5);
    assert_eq!(
        plan.files[4].file,
        "app/src/main/java/org/libsdl/app/SDLActivity.java"
    );
    let activity_src = "        setContentView(mLayout);\n";
    let patched = text(&apply_patches(&chars(activity_src), &plan.files[4].patches));
    assert!(patched.contains("mLayout.setSystemUiVisibility("));
    assert!(patched.contains("setContentView(mLayout);"));
}

#[test]
fn fullscreen_flag_false_leaves_the_activity_alone() {
    let doc = android_table(vec![(
        "improve_fullscreen".to_string(),
        ConfigValue::Flag(false),
    )]);
    let plan = create_android_project(&doc, &vec![]).unwrap();
    assert_eq!(plan.files.len(), 4);
}

#[test]
fn permissions_become_manifest_patches() {
    let doc = android_table(vec![(
        "permissions".to_string(),
        ConfigValue::List(vec![ConfigValue::Text("INTERNET".to_string())]),
    )]);
    let plan = create_android_project(&doc, &vec![]).unwrap();
    let manifest_src = "<application android:label=\"@string/app_name\">";
    let patched = text(&apply_patches(&chars(manifest_src), &plan.files[3].patches));
    assert_eq!(
        patched,
        "<uses-permission android:name=\"android.permission.INTERNET\" />\n\t<application android:label=\"@string/app_name\">"
    );
}

#[test]
fn unknown_target_takes_precedence_over_icon_conflict() {
    let doc = android_table(vec![
        ("icon".to_string(), ConfigValue::Text("icon.png".to_string())),
        (
            "adaptive_icon_foreground".to_string(),
            ConfigValue::Text("fg.png".to_string()),
        ),
    ]);
    let artifacts = vec![("powerpc-unknown-linux".to_string(), "a.so".to_string())];
    match create_android_project(&doc, &artifacts) {
        Err(Error::UnknownTarget(t)) => assert_eq!(t, "powerpc-unknown-linux"),
        _ => panic!("expected an unknown-target error"),
    }
}

#[test]
fn icon_conflict_is_fatal_in_the_plan() {
    let doc = android_table(vec![
        ("icon".to_string(), ConfigValue::Text("icon.png".to_string())),
        (
            "adaptive_icon_background".to_string(),
            ConfigValue::Text("bg.png".to_string()),
        ),
    ]);
    let r = create_android_project(&doc, &vec![]);
    assert!(matches!(r, Err(Error::IconConflict)));
}

#[test]
fn malformed_permission_array_is_fatal_in_the_plan() {
    let doc = android_table(vec![(
        "permissions".to_string(),
        ConfigValue::List(vec![ConfigValue::Other]),
    )]);
    let r = create_android_project(&doc, &vec![]);
    assert!(matches!(r, Err(Error::MalformedStringArray)));
}

#[test]
fn release_profile_selects_task_and_signing() {
    assert_eq!(gradle_task(BuildProfile::Release), "assembleRelease");
    assert!(should_sign(BuildProfile::Release));
    assert_eq!(profile_dir_name(BuildProfile::Debug), "debug");
    assert_eq!(profile_dir_name(BuildProfile::Release), "release");
}

#[test]
fn build_tools_selection_picks_the_highest() {
    let versions = vec![
        "30.0.3".to_string(),
        "33.0.1".to_string(),
        "29.0.0".to_string(),
    ];
    assert_eq!(select_build_tools(&versions).unwrap(), "33.0.1");
    assert!(select_build_tools(&Vec::new()).is_none());
    assert!(lex_le("30.0.3", "33.0.1"));
    assert!(!lex_le("33.0.1", "30.0.3"));
    assert!(lex_le("33.0.1", "33.0.1"));
}

#[test]
fn keystore_plan_with_supplied_keystore() {
    let p = keystore_plan(
        Some("my.jks".to_string()),
        Some("pass:secret".to_string()),
    )
    .unwrap();
    assert_eq!(p.key_file.unwrap(), "my.jks");
    assert_eq!(p.key_pass, "pass:secret");
    assert!(!p.generate_if_missing);
}

#[test]
fn keystore_without_password_is_fatal() {
    let r = keystore_plan(Some("my.jks".to_string()), None);
    assert!(matches!(r, Err(Error::MissingKeystorePassword)));
}

#[test]
fn keystore_plan_defaults_when_none_supplied() {
    let p = keystore_plan(None, None).unwrap();
    assert!(p.key_file.is_none());
    assert_eq!(p.key_pass, "pass:android");
    assert!(p.generate_if_missing);
    assert_eq!(default_keystore_file(), "app-release.jks");
}
