use blue_jni::commands::{release_command, request_enable_bluetooth};
use blue_jni::paths::{crate_lib_file, jni_libs_file, publish_jni_libs_to_project};

#[test]
fn crate_lib_file_joins_target_and_release() {
    assert_eq!(
        crate_lib_file("/home/me/project/rust/target", "aarch64-linux-android"),
        "/home/me/project/rust/target/aarch64-linux-android/release/libblue_jni.so"
    );
}

#[test]
fn jni_libs_file_lands_in_the_source_set() {
    assert_eq!(
        jni_libs_file("/home/me/project", "arm64-v8a", "androidMain"),
        "/home/me/project/composeApp/src/androidMain/jniLibs/arm64-v8a/libblue_jni.so"
    );
    assert_eq!(
        jni_libs_file("/home/me/project", "linux-x86-64", "desktopMain"),
        "/home/me/project/composeApp/src/desktopMain/jniLibs/linux-x86-64/libblue_jni.so"
    );
}

#[test]
fn publish_plan_covers_every_target() {
    let android = vec![
        (
            String::from("aarch64-linux-android"),
            String::from("arm64-v8a"),
        ),
        (
            String::from("x86_64-linux-android"),
            String::from("x86_64"),
        ),
    ];
    let desktop = vec![(
        String::from("x86_64-unknown-linux-gnu"),
        String::from("linux-x86-64"),
    )];
    let plan = publish_jni_libs_to_project("/p", &android, &desktop);
    assert_eq!(plan.len(), 3);
    assert_eq!(
        plan[0].0,
        "/p/rust/target/aarch64-linux-android/release/libblue_jni.so"
    );
    assert_eq!(
        plan[0].1,
        "/p/composeApp/src/androidMain/jniLibs/arm64-v8a/libblue_jni.so"
    );
    assert_eq!(
        plan[1].0,
        "/p/rust/target/x86_64-linux-android/release/libblue_jni.so"
    );
    assert_eq!(
        plan[1].1,
        "/p/composeApp/src/androidMain/jniLibs/x86_64/libblue_jni.so"
    );
    assert_eq!(
        plan[2].0,
        "/p/rust/target/x86_64-unknown-linux-gnu/release/libblue_jni.so"
    );
    assert_eq!(
        plan[2].1,
        "/p/composeApp/src/desktopMain/jniLibs/linux-x86-64/libblue_jni.so"
    );
}

#[test]
fn toggle_command_is_rfkill() {
    let c = request_enable_bluetooth();
    assert_eq!(c.command, "rfkill");
    assert_eq!(c.args, vec!["toggle", "bluetooth"]);
}

#[test]
fn release_command_builds_one_target() {
    let c = release_command("i686-linux-android");
    assert_eq!(c.command, "cargo");
    assert_eq!(
        c.args,
        vec!["build", "--target", "i686-linux-android", "--release"]
    );
}
