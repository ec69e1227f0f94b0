use android_pack::patch::apply_patch;
use android_pack::patch::apply_patches;
use android_pack::patch::replace_all;
use android_pack::patch::replace_block;
use android_pack::patch::Patch;
use android_pack::project::manifest_patches;
use android_pack::project::use_permission;

fn chars(s: &str) -> Vec<char> {
    s.chars().collect()
}

fn text(v: &[char]) -> String {
    v.iter().collect()
}

#[test]
fn literal_replaces_every_occurrence() {
    let out = replace_all(&chars("aXbXc"), &chars("X"), &chars("YY"));
    assert_eq!(text(&out), "aYYbYYc");
}

#[test]
fn literal_unmatched_token_is_a_noop() {
    let out = replace_all(&chars("nothing to see"), &chars("XYZ"), &chars("!"));
    assert_eq!(text(&out), "nothing to see");
}

#[test]
fn literal_replacement_is_not_rescanned() {
    let out = replace_all(&chars("aa"), &chars("a"), &chars("aa"));
    assert_eq!(text(&out), "aaaa");
}

#[test]
fn patch_list_applies_in_order() {
    let ps = vec![
        Patch::Literal {
            from: chars("one"),
            to: chars("two"),
        },
        Patch::Literal {
            from: chars("two"),
            to: chars("three"),
        },
    ];
    let out = apply_patches(&chars("one"), &ps);
    assert_eq!(text(&out), "three");
}

#[test]
fn patch_pass_from_pristine_is_idempotent() {
    let pristine = chars("id = org.libsdl.app\nminSdkVersion 16\n");
    let ps = vec![
        Patch::Literal {
            from: chars("org.libsdl.app"),
            to: chars("com.x.y"),
        },
        Patch::Literal {
            from: chars("minSdkVersion 16"),
            to: chars("minSdkVersion 26"),
        },
    ];
    let first = apply_patches(&pristine, &ps);
    let second = apply_patches(&pristine, &ps);
    assert_eq!(text(&first), text(&second));
    assert_eq!(text(&first), "id = com.x.y\nminSdkVersion 26\n");
}

#[test]
fn block_replaces_the_block_holding_the_marker() {
    let src = "defaultConfig {\n  externalNativeBuild {\n    ndkBuild {\n      abiFilters 'x86'\n    }\n  }\n}\nexternalNativeBuild {\n  cmake {\n    path 'CMakeLists.txt'\n  }\n}\n";
    let out = replace_block(
        &chars(src),
        &chars("externalNativeBuild"),
        &chars("path"),
        &chars("REPLACED"),
    );
    let expected = "defaultConfig {\n  externalNativeBuild {\n    ndkBuild {\n      abiFilters 'x86'\n    }\n  }\n}\nREPLACED\n";
    assert_eq!(text(&out), expected);
}

#[test]
fn block_replaces_first_matching_block_only() {
    let src = "externalNativeBuild { a { marker } }externalNativeBuild { b { marker } }";
    let out = replace_block(
        &chars(src),
        &chars("externalNativeBuild"),
        &chars("marker"),
        &chars("X"),
    );
    assert_eq!(text(&out), "XexternalNativeBuild { b { marker } }");
}

#[test]
fn block_handles_deep_nesting() {
    let src = "externalNativeBuild {\n a {\n  b {\n   c {\n    marker\n   }\n  }\n }\n} tail";
    let out = replace_block(
        &chars(src),
        &chars("externalNativeBuild"),
        &chars("marker"),
        &chars("X"),
    );
    assert_eq!(text(&out), "X tail");
}

#[test]
fn block_without_match_is_a_noop() {
    let src = "nothing { here }";
    let out = replace_block(
        &chars(src),
        &chars("externalNativeBuild"),
        &chars("marker"),
        &chars("X"),
    );
    assert_eq!(text(&out), src);
}

#[test]
fn block_unbalanced_is_a_noop() {
    let src = "externalNativeBuild { marker ";
    let out = replace_block(
        &chars(src),
        &chars("externalNativeBuild"),
        &chars("marker"),
        &chars("X"),
    );
    assert_eq!(text(&out), src);
}

#[test]
fn block_patch_through_apply_patch() {
    let p = Patch::Block {
        keyword: chars("kw"),
        marker: chars("m"),
        replacement: chars("R"),
    };
    let out = apply_patch(&chars("kw { m } rest"), &p);
    assert_eq!(text(&out), "R rest");
}

#[test]
fn permission_is_injected_ahead_of_application() {
    let manifest =
        "<manifest>\n\t<application android:label=\"@string/app_name\">\n\t</application>\n</manifest>";
    let out = use_permission(&chars(manifest), "CAMERA");
    let expected = "<manifest>\n\t<uses-permission android:name=\"android.permission.CAMERA\" />\n\t<application android:label=\"@string/app_name\">\n\t</application>\n</manifest>";
    assert_eq!(text(&out), expected);
}

#[test]
fn permissions_keep_order_ahead_of_application() {
    let manifest =
        "<manifest>\n\t<application android:label=\"@string/app_name\">\n\t</application>\n</manifest>";
    let perms = vec!["CAMERA".to_string(), "INTERNET".to_string()];
    let ps = manifest_patches(&perms);
    let out = text(&apply_patches(&chars(manifest), &ps));
    let camera = out
        .find("<uses-permission android:name=\"android.permission.CAMERA\" />")
        .unwrap();
    let internet = out
        .find("<uses-permission android:name=\"android.permission.INTERNET\" />")
        .unwrap();
    let application = out.find("<application").unwrap();
    assert!(camera < internet);
    assert!(internet < application);
    assert_eq!(out.matches("<uses-permission").count(), 2);
}
