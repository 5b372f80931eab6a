use sample_presets::paths::{get_presets_path, get_res_dir, get_samples_root, join_path};

#[test]
fn paths_below_working_directory() {
    assert_eq!(get_res_dir("/home/user/tool"), "/home/user/tool/res");
    assert_eq!(get_samples_root("/home/user/tool"), "/home/user/tool/res/samples");
    assert_eq!(get_presets_path("/home/user/tool"), "/home/user/tool/res/presets.ron");
}

#[test]
fn join_keeps_single_separator() {
    assert_eq!(join_path("/", "res"), "/res");
    assert_eq!(join_path("a/", "b"), "a/b");
    assert_eq!(join_path("", "res"), "res");
    assert_eq!(get_presets_path(""), "res/presets.ron");
}
