use vstd::prelude::*;

verus! {

/// The path of the built library inside the cargo target directory, for
/// one build target.
pub open spec fn crate_lib_path(rust_target_dir: Seq<char>, target: Seq<char>) -> Seq<char> {
    rust_target_dir + "/"@ + target + "/release/libblue_jni.so"@
}

/// The destination of the built library inside the host project, for one
/// packaging directory of one source set.
pub open spec fn jni_libs_path(
    project_dir: Seq<char>,
    kmp_target_dir: Seq<char>,
    kmp_main_dir: Seq<char>,
) -> Seq<char> {
    project_dir + "/composeApp/src/"@ + kmp_main_dir + "/jniLibs/"@ + kmp_target_dir
        + "/libblue_jni.so"@
}

/// Where the release build of one target leaves the library.
pub fn crate_lib_file(rust_target_dir: &str, target: &str) -> (r: String)
    ensures
        r@ == crate_lib_path(rust_target_dir@, target@),
{
    let mut s = String::from_str(rust_target_dir);
    s.append("/");
    s.append(target);
    s.append("/release/libblue_jni.so");
    s
}

/// Where the library belongs inside the host project for one packaging
/// directory. The caller creates the directory the returned file lies in.
pub fn jni_libs_file(project_dir: &str, kmp_target_dir: &str, kmp_main_dir: &str) -> (r: String)
    ensures
        r@ == jni_libs_path(project_dir@, kmp_target_dir@, kmp_main_dir@),
{
    let mut s = String::from_str(project_dir);
    s.append("/composeApp/src/");
    s.append(kmp_main_dir);
    s.append("/jniLibs/");
    s.append(kmp_target_dir);
    s.append("/libblue_jni.so");
    s
}

/// The copy plan the publishing step executes: the library built for every
/// Android target goes to its packaging directory under the androidMain
/// source set, and the one built for every desktop target under the
/// desktopMain source set. Each target comes as the pair of its build
/// triple and its packaging directory; each plan entry pairs the built
/// file with its destination. The caller performs the copies.
pub fn publish_jni_libs_to_project(
    project_dir: &str,
    android_targets: &Vec<(String, String)>,
    desktop_targets: &Vec<(String, String)>,
) -> (plan: Vec<(String, String)>)
    ensures
        plan@.len() == android_targets@.len() + desktop_targets@.len(),
        forall|i: int|
            0 <= i < android_targets@.len() ==> {
                let entry = #[trigger] plan@[i];
                &&& entry.0@ == crate_lib_path(
                    project_dir@ + "/rust/target"@,
                    android_targets@[i].0@,
                )
                &&& entry.1@ == jni_libs_path(project_dir@, android_targets@[i].1@, "androidMain"@)
            },
        forall|i: int|
            0 <= i < desktop_targets@.len() ==> {
                let entry = #[trigger] plan@[android_targets@.len() + i];
                &&& entry.0@ == crate_lib_path(
                    project_dir@ + "/rust/target"@,
                    desktop_targets@[i].0@,
                )
                &&& entry.1@ == jni_libs_path(project_dir@, desktop_targets@[i].1@, "desktopMain"@)
            },
{
    let mut rust_target_dir = String::from_str(project_dir);
    rust_target_dir.append("/rust/target");
    let mut plan: Vec<(String, String)> = Vec::new();
    let mut i: usize = 0;
    while i < android_targets.len()
        invariant
            i <= android_targets@.len(),
            rust_target_dir@ == project_dir@ + "/rust/target"@,
            plan@.len() == i,
            forall|j: int|
                0 <= j < i ==> {
                    let entry = #[trigger] plan@[j];
                    &&& entry.0@ == crate_lib_path(
                        project_dir@ + "/rust/target"@,
                        android_targets@[j].0@,
                    )
                    &&& entry.1@ == jni_libs_path(
                        project_dir@,
                        android_targets@[j].1@,
                        "androidMain"@,
                    )
                },
        decreases android_targets@.len() - i,
    {
        let pair = &android_targets[i];
        let built = crate_lib_file(rust_target_dir.as_str(), pair.0.as_str());
        let dest = jni_libs_file(project_dir, pair.1.as_str(), "androidMain");
        plan.push((built, dest));
        i = i + 1;
    }
    let ghost android_len = plan@.len();
    let mut k: usize = 0;
    while k < desktop_targets.len()
        invariant
            k <= desktop_targets@.len(),
            rust_target_dir@ == project_dir@ + "/rust/target"@,
            android_len == android_targets@.len(),
            plan@.len() == android_len + k,
            forall|j: int|
                0 <= j < android_len ==> {
                    let entry = #[trigger] plan@[j];
                    &&& entry.0@ == crate_lib_path(
                        project_dir@ + "/rust/target"@,
                        android_targets@[j].0@,
                    )
                    &&& entry.1@ == jni_libs_path(
                        project_dir@,
                        android_targets@[j].1@,
                        "androidMain"@,
                    )
                },
            forall|j: int|
                0 <= j < k ==> {
                    let entry = #[trigger] plan@[android_len + j];
                    &&& entry.0@ == crate_lib_path(
                        project_dir@ + "/rust/target"@,
                        desktop_targets@[j].0@,
                    )
                    &&& entry.1@ == jni_libs_path(
                        project_dir@,
                        desktop_targets@[j].1@,
                        "desktopMain"@,
                    )
                },
        decreases desktop_targets@.len() - k,
    {
        let pair = &desktop_targets[k];
        let built = crate_lib_file(rust_target_dir.as_str(), pair.0.as_str());
        let dest = jni_libs_file(project_dir, pair.1.as_str(), "desktopMain");
        plan.push((built, dest));
        k = k + 1;
    }
    plan
}

} // verus!
