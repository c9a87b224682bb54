use vstd::prelude::*;
use crate::platform::Platform;
use crate::text::{push_text, append_texts, concat3};

verus! {

/// The three platform-identity definitions, in the order IBM, LIN, APL: the
/// one of the given platform's family set to 1, the other two set to 0.
pub open spec fn identity_flags(p: Platform) -> Seq<Seq<char>> {
    match p {
        Platform::Windows => seq!["-DIBM=1"@, "-DLIN=0"@, "-DAPL=0"@],
        Platform::MacOs => seq!["-DIBM=0"@, "-DLIN=0"@, "-DAPL=1"@],
        Platform::Linux => seq!["-DIBM=0"@, "-DLIN=1"@, "-DAPL=0"@],
    }
}

/// The SDK API versions that plugins are built against, oldest first.
pub open spec fn api_version_flags() -> Seq<Seq<char>> {
    seq![
        "-DXPLM200=1"@,
        "-DXPLM210=1"@,
        "-DXPLM300=1"@,
        "-DXPLM301=1"@,
        "-DXPLM303=1"@,
        "-DXPLM400=1"@,
    ]
}

/// The SDK's definitions for a platform: identity, then API versions.
pub open spec fn xplm_flags_spec(p: Platform) -> Seq<Seq<char>> {
    identity_flags(p) + api_version_flags()
}

/// The include directories of libacfutils (under `aux`) and of the SDK
/// (under `sdk`).
pub open spec fn include_flags(p: Platform, aux: Seq<char>, sdk: Seq<char>) -> Seq<Seq<char>> {
    seq![
        "-I"@ + aux + "/include"@,
        "-I"@ + aux + "/"@ + p.short_spec() + "/include"@,
        "-I"@ + sdk + "/CHeaders/XPLM"@,
        "-I"@ + sdk + "/CHeaders/Widgets"@,
    ]
}

/// The flags that every platform gets: the language standard and the
/// markers for the statically linked GLEW, curl and PCRE2.
pub open spec fn common_flags() -> Seq<Seq<char>> {
    seq![
        "-std=c99"@,
        "-DGLEW_MX"@,
        "-DCURL_STATICLIB"@,
        "-DPCRE2_STATIC"@,
        "-DPCRE2_CODE_UNIT_WIDTH=8"@,
    ]
}

/// The flags that only the given platform gets.
pub open spec fn platform_flags(p: Platform) -> Seq<Seq<char>> {
    match p {
        Platform::Windows => seq!["-D_WIN32_WINNT=0x0600"@, "-DLIBXML_STATIC"@],
        Platform::MacOs => seq!["-DLACF_GLEW_USE_NATIVE_TLS=0"@],
        Platform::Linux => seq!["-D_GNU_SOURCE"@],
    }
}

/// Every compiler flag for a platform, in order.
pub open spec fn cflags_spec(p: Platform, aux: Seq<char>, sdk: Seq<char>) -> Seq<Seq<char>> {
    include_flags(p, aux, sdk) + common_flags() + platform_flags(p) + xplm_flags_spec(p)
}

impl Platform {
    /// The SDK's platform-identity and API-version definitions.
    pub fn xplm_flags(self) -> (r: Vec<String>)
        ensures
            r.deep_view() == xplm_flags_spec(self),
    {
        let mut flags: Vec<String> = Vec::new();
        match self {
            Platform::Windows => {
                push_text(&mut flags, "-DIBM=1");
                push_text(&mut flags, "-DLIN=0");
                push_text(&mut flags, "-DAPL=0");
            },
            Platform::MacOs => {
                push_text(&mut flags, "-DIBM=0");
                push_text(&mut flags, "-DLIN=0");
                push_text(&mut flags, "-DAPL=1");
            },
            Platform::Linux => {
                push_text(&mut flags, "-DIBM=0");
                push_text(&mut flags, "-DLIN=1");
                push_text(&mut flags, "-DAPL=0");
            },
        }
        push_text(&mut flags, "-DXPLM200=1");
        push_text(&mut flags, "-DXPLM210=1");
        push_text(&mut flags, "-DXPLM300=1");
        push_text(&mut flags, "-DXPLM301=1");
        push_text(&mut flags, "-DXPLM303=1");
        push_text(&mut flags, "-DXPLM400=1");
        assert(flags.deep_view() =~= xplm_flags_spec(self));
        flags
    }
}

/// The compiler flags for building against libacfutils (installed under
/// `acfutils_path`) and the SDK (under `xplane_sdk_path`) on a platform.
#[must_use]
pub fn get_acfutils_cflags(platform: Platform, acfutils_path: &str, xplane_sdk_path: &str) -> (r:
    Vec<String>)
    ensures
        r.deep_view() == cflags_spec(platform, acfutils_path@, xplane_sdk_path@),
{
    let mut args: Vec<String> = Vec::new();
    args.push(concat3("-I", acfutils_path, "/include"));
    let mut platform_dir = concat3("-I", acfutils_path, "/");
    platform_dir.append(platform.short());
    platform_dir.append("/include");
    args.push(platform_dir);
    args.push(concat3("-I", xplane_sdk_path, "/CHeaders/XPLM"));
    args.push(concat3("-I", xplane_sdk_path, "/CHeaders/Widgets"));
    assert(args.deep_view() =~= include_flags(platform, acfutils_path@, xplane_sdk_path@));
    push_text(&mut args, "-std=c99");
    push_text(&mut args, "-DGLEW_MX");
    push_text(&mut args, "-DCURL_STATICLIB");
    push_text(&mut args, "-DPCRE2_STATIC");
    push_text(&mut args, "-DPCRE2_CODE_UNIT_WIDTH=8");
    match platform {
        Platform::Windows => {
            push_text(&mut args, "-D_WIN32_WINNT=0x0600");
            push_text(&mut args, "-DLIBXML_STATIC");
        },
        Platform::MacOs => {
            push_text(&mut args, "-DLACF_GLEW_USE_NATIVE_TLS=0");
        },
        Platform::Linux => {
            push_text(&mut args, "-D_GNU_SOURCE");
        },
    }
    assert(args.deep_view() =~= include_flags(platform, acfutils_path@, xplane_sdk_path@)
        + common_flags() + platform_flags(platform));
    append_texts(&mut args, platform.xplm_flags());
    args
}

} // verus!
