use vstd::prelude::*;

use crate::text::seq_starts_with;

verus! {

/// What differs between the client, archive and media-driver builds:
/// cmake targets, header path, bindgen extras, a wrapper-type filter and a
/// pre-build hook (which receives the Aeron source path).
pub struct RusteronBuildConfig<F, P> {
    /// C header directory under the Aeron sources.
    pub header_subdir: &'static str,
    /// cmake target (and library to link) for dynamic / static linking.
    pub target_dynamic: &'static str,
    pub target_static: &'static str,
    /// Additional base library to link, per link type.
    pub base_target_dynamic: Option<&'static str>,
    pub base_target_static: Option<&'static str>,
    /// Extra clang include directory for bindgen.
    pub extra_clang_include: Option<&'static str>,
    /// Extra bindgen variable allowlists.
    pub extra_allowlist_vars: &'static [&'static str],
    /// cmake defines applied on top of the shared defaults (later wins).
    pub cmake_defines: &'static [(&'static str, &'static str)],
    /// Work around duplicate symbols when linking two Aeron libraries.
    pub allow_multiple_definition: bool,
    /// Extra dynamic-link system library on Linux for the precompiled path.
    pub precompile_linux_extra_lib: Option<&'static str>,
    /// Generate wrappers only for C type names this accepts.
    pub wrapper_type_filter: F,
    /// A wrapper type that must exist after parsing.
    pub expected_wrapper: Option<&'static str>,
    /// Per-crate wrapper code appended after the common custom code.
    pub extra_custom_code: &'static [&'static str],
    /// Snapshot name used when copying bindings.
    pub bindings_snapshot: &'static str,
    /// Hook run before cmake configuration.
    pub pre_build: P,
}

/// Accepts every C type name.
pub fn no_filter(_c_type: &str) -> (r: bool)
    ensures
        r,
{
    true
}

/// Accepts only Aeron's own types (names starting with `aeron_`), leaving out
/// the platform typedefs that bindgen also pulls in.
pub fn aeron_only(c_type: &str) -> (r: bool)
    ensures
        r == seq_starts_with(c_type@, "aeron_"@),
{
    crate::text::str_starts_with(c_type, "aeron_")
}

/// A pre-build hook that does nothing.
pub fn no_pre_build(_aeron_path: &str) {
}

impl<F, P> RusteronBuildConfig<F, P> {
    /// Accepts every C type name (see `no_filter`).
    pub fn no_filter(c_type: &str) -> (r: bool)
        ensures
            r,
    {
        no_filter(c_type)
    }

    /// Accepts only Aeron's own types (see `aeron_only`).
    pub fn aeron_only(c_type: &str) -> (r: bool)
        ensures
            r == seq_starts_with(c_type@, "aeron_"@),
    {
        aeron_only(c_type)
    }

    /// A pre-build hook that does nothing.
    pub fn no_pre_build(aeron_path: &str) {
        no_pre_build(aeron_path)
    }
}

/// How the Aeron libraries are linked.
#[derive(PartialEq, Eq, Clone, Copy, Debug, Structural)]
pub enum LinkType {
    Dynamic,
    Static,
}

/// `static` when the static feature is on, else `default`.
pub open spec fn feature_name(link_type: LinkType) -> Seq<char> {
    match link_type {
        LinkType::Static => "static"@,
        LinkType::Dynamic => "default"@,
    }
}

/// The release name of a target OS: Linux artifacts are published as `ubuntu`.
pub open spec fn release_os(target_os: Seq<char>) -> Seq<char> {
    if target_os == "linux"@ {
        "ubuntu"@
    } else {
        target_os
    }
}

/// The runner image the artifacts were built on.
pub open spec fn release_image(target_os: Seq<char>, arch: Seq<char>) -> Seq<char> {
    if target_os == "linux"@ {
        "22.04"@
    } else if target_os == "macos"@ && arch == "x86_64"@ {
        "13"@
    } else {
        "latest"@
    }
}

/// `artifacts-{os}-{image}-{feature}`.
pub open spec fn artifact_bundle(target_os: Seq<char>, arch: Seq<char>, link_type: LinkType) -> Seq<
    char,
> {
    "artifacts-"@ + release_os(target_os) + "-"@ + release_image(target_os, arch) + "-"@
        + feature_name(link_type)
}

impl LinkType {
    /// `Static` when the static feature is enabled, else `Dynamic`.
    pub fn detect(static_feature: bool) -> (r: LinkType)
        ensures
            r == (if static_feature {
                LinkType::Static
            } else {
                LinkType::Dynamic
            }),
    {
        if static_feature {
            LinkType::Static
        } else {
            LinkType::Dynamic
        }
    }

    /// The link-kind prefix of a `rustc-link-lib` directive.
    pub fn link_lib(&self) -> (r: &'static str)
        ensures
            r@ == (match *self {
                LinkType::Dynamic => "dylib="@,
                LinkType::Static => "static="@,
            }),
    {
        match self {
            LinkType::Dynamic => "dylib=",
            LinkType::Static => "static=",
        }
    }

    /// The cmake target (and library) of this link type.
    pub fn target_name<F, P>(&self, config: &RusteronBuildConfig<F, P>) -> (r: &'static str)
        ensures
            r == (match *self {
                LinkType::Dynamic => config.target_dynamic,
                LinkType::Static => config.target_static,
            }),
    {
        match self {
            LinkType::Dynamic => config.target_dynamic,
            LinkType::Static => config.target_static,
        }
    }

    /// The additional base library of this link type, if any.
    pub fn base_target_name<F, P>(&self, config: &RusteronBuildConfig<F, P>) -> (r: Option<&'static str>)
        ensures
            r == (match *self {
                LinkType::Dynamic => config.base_target_dynamic,
                LinkType::Static => config.base_target_static,
            }),
    {
        match self {
            LinkType::Dynamic => config.base_target_dynamic,
            LinkType::Static => config.base_target_static,
        }
    }

    /// The feature directory name of the published artifacts.
    pub fn feature_name(&self) -> (r: &'static str)
        ensures
            r@ == feature_name(*self),
    {
        match self {
            LinkType::Static => "static",
            LinkType::Dynamic => "default",
        }
    }
}

/// The base library of a link type, from the config.
pub open spec fn base_target_spec<F, P>(link_type: LinkType, config: RusteronBuildConfig<F, P>) -> Option<
    &'static str,
> {
    match link_type {
        LinkType::Dynamic => config.base_target_dynamic,
        LinkType::Static => config.base_target_static,
    }
}

/// The target library of a link type, from the config.
pub open spec fn target_spec<F, P>(link_type: LinkType, config: RusteronBuildConfig<F, P>) -> Seq<char> {
    match link_type {
        LinkType::Dynamic => config.target_dynamic@,
        LinkType::Static => config.target_static@,
    }
}

/// The linker directives for the Aeron libraries, in order.
pub open spec fn link_lines<F, P>(
    link_type: LinkType,
    config: RusteronBuildConfig<F, P>,
    target_os: Seq<char>,
) -> Seq<Seq<char>> {
    let lib = link_type.link_lib_spec();
    let first = seq!["cargo:rustc-link-lib="@ + lib + target_spec(link_type, config)];
    let base = match base_target_spec(link_type, config) {
        Some(b) => seq!["cargo:rustc-link-lib="@ + lib + b@],
        None => Seq::<Seq<char>>::empty(),
    };
    let extra = if config.allow_multiple_definition && target_os == "linux"@ {
        seq!["cargo:rustc-link-arg=-Wl,--allow-multiple-definition"@]
    } else if config.allow_multiple_definition && target_os == "windows"@ {
        seq!["cargo:rustc-link-arg=/FORCE:MULTIPLE"@]
    } else {
        Seq::<Seq<char>>::empty()
    };
    first + base + extra
}

/// The linker directives for the Aeron libraries, in order: the target
/// library, the base library when there is one, and on Linux or Windows the
/// flag that allows multiple definitions when the config asks for it.
pub fn link_lib_lines<F, P>(link_type: LinkType, config: &RusteronBuildConfig<F, P>, target_os: &str) -> (r:
    Vec<String>)
    ensures
        r@.map_values(|s: String| s@) == link_lines(link_type, *config, target_os@),
{
    let ghost lib_s = link_type.link_lib_spec();
    let mut out: Vec<String> = Vec::new();
    let lib = link_type.link_lib();
    let target = link_type.target_name(config);
    out.push(crate::text::concat3("cargo:rustc-link-lib=", lib, target));
    let ghost first = seq!["cargo:rustc-link-lib="@ + lib_s + target_spec(link_type, *config)];
    assert(out@.map_values(|s: String| s@) =~= first);
    let ghost base: Seq<Seq<char>> = match base_target_spec(link_type, *config) {
        Some(b) => seq!["cargo:rustc-link-lib="@ + lib_s + b@],
        None => Seq::<Seq<char>>::empty(),
    };
    match link_type.base_target_name(config) {
        Some(b) => {
            out.push(crate::text::concat3("cargo:rustc-link-lib=", lib, b));
        },
        None => {},
    }
    assert(out@.map_values(|s: String| s@) =~= first + base);
    if config.allow_multiple_definition {
        if crate::text::str_eq(target_os, "linux") {
            out.push("cargo:rustc-link-arg=-Wl,--allow-multiple-definition".to_owned());
        } else if crate::text::str_eq(target_os, "windows") {
            out.push("cargo:rustc-link-arg=/FORCE:MULTIPLE".to_owned());
        }
    }
    assert(out@.map_values(|s: String| s@) =~= link_lines(link_type, *config, target_os@));
    out
}

impl LinkType {
    /// The link-kind prefix (spec view of `link_lib`).
    pub open spec fn link_lib_spec(self) -> Seq<char> {
        match self {
            LinkType::Dynamic => "dylib="@,
            LinkType::Static => "static="@,
        }
    }
}

/// The directory of published artifacts under the crate, as path components:
/// `artifacts`, the feature name, the release OS and the architecture.
pub fn artifact_dir_parts(link_type: LinkType, target_os: &str, target_arch: &str) -> (r: Vec<String>)
    ensures
        r@.map_values(|s: String| s@) == seq![
            "artifacts"@,
            feature_name(link_type),
            release_os(target_os@),
            target_arch@,
        ],
{
    let mut out: Vec<String> = Vec::new();
    out.push("artifacts".to_owned());
    out.push(link_type.feature_name().to_owned());
    if crate::text::str_eq(target_os, "linux") {
        out.push("ubuntu".to_owned());
    } else {
        out.push(target_os.to_owned());
    }
    out.push(target_arch.to_owned());
    assert(out@.map_values(|s: String| s@) =~= seq![
        "artifacts"@,
        feature_name(link_type),
        release_os(target_os@),
        target_arch@,
    ]);
    out
}

/// `artifacts-{os}-{image}-{feature}`: the name of the published bundle.
pub fn artifact_bundle_name(target_os: &str, target_arch: &str, link_type: LinkType) -> (r: String)
    ensures
        r@ == artifact_bundle(target_os@, target_arch@, link_type),
{
    let is_linux = crate::text::str_eq(target_os, "linux");
    let os: &str = if is_linux {
        "ubuntu"
    } else {
        target_os
    };
    let image: &str = if is_linux {
        "22.04"
    } else if crate::text::str_eq(target_os, "macos") && crate::text::str_eq(target_arch, "x86_64") {
        "13"
    } else {
        "latest"
    };
    let mut s = crate::text::concat3("artifacts-", os, "-");
    crate::text::push_str(&mut s, image);
    crate::text::push_str(&mut s, "-");
    crate::text::push_str(&mut s, link_type.feature_name());
    s
}

/// The download URL of the precompiled artifacts of a release version.
pub fn precompiled_asset_url(version: &str, target_os: &str, target_arch: &str, link_type: LinkType) -> (r:
    String)
    ensures
        r@ == "https://github.com/gsrxyz/rusteron/releases/download/v"@ + version@ + "/"@
            + artifact_bundle(target_os@, target_arch@, link_type) + ".tar.gz"@,
{
    let mut s = crate::text::concat3(
        "https://github.com/gsrxyz/rusteron/releases/download/v",
        version,
        "/",
    );
    let bundle = artifact_bundle_name(target_os, target_arch, link_type);
    crate::text::push_str(&mut s, bundle.as_str());
    crate::text::push_str(&mut s, ".tar.gz");
    s
}

/// The system libraries and linker arguments a source build adds, in order:
/// for static linking, `shell32` and `iphlpapi` on Windows and `uuid` on
/// Linux; then, on Linux, `bsd` between `--no-as-needed` and `--as-needed`.
pub open spec fn system_link_lines(link_type: LinkType, target_os: Seq<char>) -> Seq<Seq<char>> {
    let statics = if link_type == LinkType::Static && target_os == "windows"@ {
        seq!["cargo:rustc-link-lib=shell32"@, "cargo:rustc-link-lib=iphlpapi"@]
    } else if link_type == LinkType::Static && target_os == "linux"@ {
        seq!["cargo:rustc-link-lib=uuid"@]
    } else {
        Seq::<Seq<char>>::empty()
    };
    let bsd = if target_os == "linux"@ {
        seq!["cargo:rustc-link-arg=-Wl,--no-as-needed"@, "cargo:rustc-link-lib=bsd"@, "cargo:rustc-link-arg=-Wl,--as-needed"@]
    } else {
        Seq::<Seq<char>>::empty()
    };
    statics + bsd
}

/// See `system_link_lines`.
pub fn system_link_lib_lines(link_type: LinkType, target_os: &str) -> (r: Vec<String>)
    ensures
        r@.map_values(|s: String| s@) == system_link_lines(link_type, target_os@),
{
    let windows = crate::text::str_eq(target_os, "windows");
    let linux = crate::text::str_eq(target_os, "linux");
    let mut out: Vec<String> = Vec::new();
    if link_type == LinkType::Static && windows {
        out.push(crate::text::owned("cargo:rustc-link-lib=shell32"));
        out.push(crate::text::owned("cargo:rustc-link-lib=iphlpapi"));
    } else if link_type == LinkType::Static && linux {
        out.push(crate::text::owned("cargo:rustc-link-lib=uuid"));
    }
    let ghost statics = out@.map_values(|s: String| s@);
    if linux {
        out.push(crate::text::owned("cargo:rustc-link-arg=-Wl,--no-as-needed"));
        out.push(crate::text::owned("cargo:rustc-link-lib=bsd"));
        out.push(crate::text::owned("cargo:rustc-link-arg=-Wl,--as-needed"));
    }
    assert(out@.map_values(|s: String| s@) =~= system_link_lines(link_type, target_os@));
    out
}

/// The cmake build profile of a cargo profile, with the C and C++ release
/// flags for a release build.
pub open spec fn cmake_profile_spec(cargo_profile: Seq<char>) -> (Seq<char>, Option<Seq<char>>) {
    if cargo_profile == "release"@ {
        ("Release"@, Some("-O3 -DNDEBUG -march=native -funroll-loops"@))
    } else {
        ("Debug"@, None)
    }
}

/// See `cmake_profile_spec`.
pub fn cmake_profile(cargo_profile: &str) -> (r: (&'static str, Option<&'static str>))
    ensures
        (r.0@, match r.1 {
            Some(f) => Some(f@),
            None => None,
        }) == cmake_profile_spec(cargo_profile@),
{
    if crate::text::str_eq(cargo_profile, "release") {
        ("Release", Some("-O3 -DNDEBUG -march=native -funroll-loops"))
    } else {
        ("Debug", None)
    }
}

/// The sanitizer the C sources are built with: the one `RUSTERON_SANITIZE`
/// names, when set and not empty; with the `sanitize-address` feature on,
/// `address` when the variable names none.
pub open spec fn sanitizer_spec(feature: bool, env: Option<Seq<char>>) -> Option<Seq<char>> {
    let named = match env {
        Some(v) => if v.len() > 0 {
            Some(v)
        } else {
            None
        },
        None => None,
    };
    if feature {
        match named {
            Some(v) => Some(v),
            None => Some("address"@),
        }
    } else {
        named
    }
}

/// See `sanitizer_spec`.
pub fn sanitizer(feature: bool, env: Option<&str>) -> (r: Option<String>)
    ensures
        match r {
            Some(v) => sanitizer_spec(feature, match env {
                Some(e) => Some(e@),
                None => None,
            }) == Some(v@),
            None => sanitizer_spec(feature, match env {
                Some(e) => Some(e@),
                None => None,
            }) is None,
        },
{
    let named = match env {
        Some(v) => if v.unicode_len() > 0 {
            Some(crate::text::owned(v))
        } else {
            None
        },
        None => None,
    };
    if feature {
        match named {
            Some(v) => Some(v),
            None => Some(crate::text::owned("address")),
        }
    } else {
        named
    }
}

/// The C and C++ compiler flags of a source build: `-fcommon` for C, and
/// with a sanitizer its flags before it, which are the C++ flags too
/// (empty without one).
pub open spec fn compile_flags_spec(sanitizer: Option<Seq<char>>) -> (Seq<char>, Seq<char>) {
    match sanitizer {
        Some(v) => {
            let f = "-fsanitize="@ + v + " -fno-omit-frame-pointer -g -O1"@;
            (f + " -fcommon"@, f)
        },
        None => ("-fcommon"@, Seq::empty()),
    }
}

/// See `compile_flags_spec`.
pub fn compile_flags(sanitizer: Option<&str>) -> (r: (String, String))
    ensures
        (r.0@, r.1@) == compile_flags_spec(match sanitizer {
            Some(v) => Some(v@),
            None => None,
        }),
{
    match sanitizer {
        Some(v) => {
            let f = crate::text::concat3("-fsanitize=", v, " -fno-omit-frame-pointer -g -O1");
            let c = crate::text::concat2(f.as_str(), " -fcommon");
            (c, f)
        },
        None => (crate::text::owned("-fcommon"), String::new()),
    }
}

} // verus!
