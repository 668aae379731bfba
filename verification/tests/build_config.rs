use rusteron::build_config::{
    cmake_profile, compile_flags, sanitizer, system_link_lib_lines,
    aeron_only, artifact_bundle_name, artifact_dir_parts, link_lib_lines, no_filter, no_pre_build,
    precompiled_asset_url, LinkType, RusteronBuildConfig,
};

fn config(allow_multiple_definition: bool) -> RusteronBuildConfig<fn(&str) -> bool, fn(&str)> {
    RusteronBuildConfig {
        header_subdir: "aeron-archive/src/main/c",
        target_dynamic: "aeron_archive_c_client",
        target_static: "aeron_archive_c_client_static",
        base_target_dynamic: Some("aeron"),
        base_target_static: Some("aeron_static"),
        extra_clang_include: Some("aeron-client/src/main/c"),
        extra_allowlist_vars: &[],
        cmake_defines: &[("BUILD_AERON_ARCHIVE_API", "ON")],
        allow_multiple_definition,
        precompile_linux_extra_lib: None,
        wrapper_type_filter: aeron_only,
        expected_wrapper: Some("aeron_archive_t"),
        extra_custom_code: &[],
        bindings_snapshot: "archive",
        pre_build: no_pre_build,
    }
}

#[test]
fn filters_accept_the_expected_type_names() {
    assert!(no_filter("pthread_mutex_t"));
    assert!(aeron_only("aeron_publication_t"));
    assert!(!aeron_only("pthread_mutex_t"));
    assert!(!aeron_only("aeron"));
    let c = config(false);
    assert!((c.wrapper_type_filter)("aeron_t"));
    (c.pre_build)("/tmp/aeron");
}

#[test]
fn link_type_detection_and_names() {
    assert_eq!(LinkType::Static, LinkType::detect(true));
    assert_eq!(LinkType::Dynamic, LinkType::detect(false));
    assert_eq!("dylib=", LinkType::Dynamic.link_lib());
    assert_eq!("static=", LinkType::Static.link_lib());
    let c = config(false);
    assert_eq!("aeron_archive_c_client_static", LinkType::Static.target_name(&c));
    assert_eq!(Some("aeron"), LinkType::Dynamic.base_target_name(&c));
}

#[test]
fn link_lines_list_target_base_and_multiple_definition_flag() {
    assert_eq!(
        vec![
            "cargo:rustc-link-lib=static=aeron_archive_c_client_static".to_string(),
            "cargo:rustc-link-lib=static=aeron_static".to_string(),
            "cargo:rustc-link-arg=-Wl,--allow-multiple-definition".to_string(),
        ],
        link_lib_lines(LinkType::Static, &config(true), "linux")
    );
    assert_eq!(
        vec![
            "cargo:rustc-link-lib=dylib=aeron_archive_c_client".to_string(),
            "cargo:rustc-link-lib=dylib=aeron".to_string(),
            "cargo:rustc-link-arg=/FORCE:MULTIPLE".to_string(),
        ],
        link_lib_lines(LinkType::Dynamic, &config(true), "windows")
    );
    assert_eq!(2, link_lib_lines(LinkType::Dynamic, &config(true), "macos").len());
    assert_eq!(2, link_lib_lines(LinkType::Dynamic, &config(false), "linux").len());
}

#[test]
fn artifact_locations() {
    assert_eq!(
        vec!["artifacts", "static", "ubuntu", "x86_64"],
        artifact_dir_parts(LinkType::Static, "linux", "x86_64")
    );
    assert_eq!("artifacts-ubuntu-22.04-static", artifact_bundle_name("linux", "x86_64", LinkType::Static));
    assert_eq!("artifacts-macos-13-default", artifact_bundle_name("macos", "x86_64", LinkType::Dynamic));
    assert_eq!("artifacts-macos-latest-static", artifact_bundle_name("macos", "aarch64", LinkType::Static));
    assert_eq!(
        "https://github.com/gsrxyz/rusteron/releases/download/v0.1.0/artifacts-ubuntu-22.04-static.tar.gz",
        precompiled_asset_url("0.1.0", "linux", "aarch64", LinkType::Static)
    );
}

#[test]
fn config_associated_filters_match_the_free_ones() {
    type Config = RusteronBuildConfig<fn(&str) -> bool, fn(&str)>;
    assert!(Config::no_filter("pthread_mutex_t"));
    assert!(Config::aeron_only("aeron_counter_t"));
    assert!(!Config::aeron_only("pthread_mutex_t"));
    Config::no_pre_build("/tmp/aeron");
}

#[test]
fn system_libraries_of_a_source_build() {
    assert_eq!(
        system_link_lib_lines(LinkType::Static, "windows"),
        vec!["cargo:rustc-link-lib=shell32".to_string(), "cargo:rustc-link-lib=iphlpapi".to_string()]
    );
    assert_eq!(
        system_link_lib_lines(LinkType::Static, "linux"),
        vec![
            "cargo:rustc-link-lib=uuid".to_string(),
            "cargo:rustc-link-arg=-Wl,--no-as-needed".to_string(),
            "cargo:rustc-link-lib=bsd".to_string(),
            "cargo:rustc-link-arg=-Wl,--as-needed".to_string(),
        ]
    );
    assert_eq!(system_link_lib_lines(LinkType::Dynamic, "linux").len(), 3);
    assert!(system_link_lib_lines(LinkType::Dynamic, "macos").is_empty());
}

#[test]
fn cmake_profile_and_sanitizer_flags() {
    assert_eq!(cmake_profile("release"), ("Release", Some("-O3 -DNDEBUG -march=native -funroll-loops")));
    assert_eq!(cmake_profile("debug"), ("Debug", None));
    assert_eq!(sanitizer(true, None), Some("address".to_string()));
    assert_eq!(sanitizer(true, Some("")), Some("address".to_string()));
    assert_eq!(sanitizer(true, Some("thread")), Some("thread".to_string()));
    assert_eq!(sanitizer(false, Some("undefined")), Some("undefined".to_string()));
    assert_eq!(sanitizer(false, Some("")), None);
    assert_eq!(compile_flags(None), ("-fcommon".to_string(), String::new()));
    assert_eq!(
        compile_flags(Some("address")),
        (
            "-fsanitize=address -fno-omit-frame-pointer -g -O1 -fcommon".to_string(),
            "-fsanitize=address -fno-omit-frame-pointer -g -O1".to_string()
        )
    );
}
