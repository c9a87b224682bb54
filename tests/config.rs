use acfutils_build::{
    get_acfutils_cflags, get_acfutils_libs, platform_from_target, resolve, Platform, PlatformError,
};

const ALL: [Platform; 3] = [Platform::Windows, Platform::MacOs, Platform::Linux];

fn owned(items: &[&str]) -> Vec<String> {
    items.iter().map(|s| s.to_string()).collect()
}

#[test]
fn resolves_recognized_identifiers() {
    assert_eq!(resolve("windows"), Ok(Platform::Windows));
    assert_eq!(resolve("macos"), Ok(Platform::MacOs));
    assert_eq!(resolve("linux"), Ok(Platform::Linux));
}

#[test]
fn resolve_is_case_sensitive() {
    for id in ["Windows", "MACOS", "Linux", "macOS"] {
        assert_eq!(resolve(id), Err(PlatformError::UnrecognizedPlatform(id.to_string())));
    }
}

#[test]
fn resolve_rejects_unknown_identifiers() {
    assert_eq!(
        resolve("freebsd"),
        Err(PlatformError::UnrecognizedPlatform("freebsd".to_string()))
    );
    assert_eq!(resolve(""), Err(PlatformError::UnrecognizedPlatform(String::new())));
    assert_eq!(
        resolve("linux "),
        Err(PlatformError::UnrecognizedPlatform("linux ".to_string()))
    );
}

#[test]
fn target_from_environment_value() {
    assert_eq!(platform_from_target(None), Err(PlatformError::MissingTargetEnvironment));
    assert_eq!(platform_from_target(Some("macos")), Ok(Platform::MacOs));
    assert_eq!(
        platform_from_target(Some("android")),
        Err(PlatformError::UnrecognizedPlatform("android".to_string()))
    );
}

#[test]
fn short_tags() {
    assert_eq!(Platform::Windows.short(), "mingw64");
    assert_eq!(Platform::MacOs.short(), "mac64");
    assert_eq!(Platform::Linux.short(), "lin64");
}

#[test]
fn xplm_flags_per_platform() {
    let versions = [
        "-DXPLM200=1",
        "-DXPLM210=1",
        "-DXPLM300=1",
        "-DXPLM301=1",
        "-DXPLM303=1",
        "-DXPLM400=1",
    ];
    let mut windows = vec!["-DIBM=1", "-DLIN=0", "-DAPL=0"];
    windows.extend(versions);
    let mut mac = vec!["-DIBM=0", "-DLIN=0", "-DAPL=1"];
    mac.extend(versions);
    let mut linux = vec!["-DIBM=0", "-DLIN=1", "-DAPL=0"];
    linux.extend(versions);
    assert_eq!(Platform::Windows.xplm_flags(), owned(&windows));
    assert_eq!(Platform::MacOs.xplm_flags(), owned(&mac));
    assert_eq!(Platform::Linux.xplm_flags(), owned(&linux));
}

#[test]
fn mac_include_paths() {
    let flags = get_acfutils_cflags(Platform::MacOs, "/acfutils", "/xplane_sdk");
    assert_eq!(
        flags[..4].to_vec(),
        owned(&[
            "-I/acfutils/include",
            "-I/acfutils/mac64/include",
            "-I/xplane_sdk/CHeaders/XPLM",
            "-I/xplane_sdk/CHeaders/Widgets",
        ])
    );
}

#[test]
fn include_tag_follows_platform() {
    let windows = get_acfutils_cflags(Platform::Windows, "/acfutils", "/xplane_sdk");
    let linux = get_acfutils_cflags(Platform::Linux, "/acfutils", "/xplane_sdk");
    assert_eq!(windows[1], "-I/acfutils/mingw64/include");
    assert_eq!(linux[1], "-I/acfutils/lin64/include");
}

#[test]
fn windows_cflags_exact() {
    let flags = get_acfutils_cflags(Platform::Windows, "C:/lacf", "C:/sdk");
    assert_eq!(
        flags,
        owned(&[
            "-IC:/lacf/include",
            "-IC:/lacf/mingw64/include",
            "-IC:/sdk/CHeaders/XPLM",
            "-IC:/sdk/CHeaders/Widgets",
            "-std=c99",
            "-DGLEW_MX",
            "-DCURL_STATICLIB",
            "-DPCRE2_STATIC",
            "-DPCRE2_CODE_UNIT_WIDTH=8",
            "-D_WIN32_WINNT=0x0600",
            "-DLIBXML_STATIC",
            "-DIBM=1",
            "-DLIN=0",
            "-DAPL=0",
            "-DXPLM200=1",
            "-DXPLM210=1",
            "-DXPLM300=1",
            "-DXPLM301=1",
            "-DXPLM303=1",
            "-DXPLM400=1",
        ])
    );
}

#[test]
fn mac_and_linux_platform_flags() {
    let mac = get_acfutils_cflags(Platform::MacOs, "/a", "/s");
    assert_eq!(mac.len(), 19);
    assert_eq!(mac[9], "-DLACF_GLEW_USE_NATIVE_TLS=0");
    let linux = get_acfutils_cflags(Platform::Linux, "/a", "/s");
    assert_eq!(linux.len(), 19);
    assert_eq!(linux[9], "-D_GNU_SOURCE");
}

#[test]
fn paths_are_not_checked() {
    let flags = get_acfutils_cflags(Platform::Linux, "", "relative/sdk");
    assert_eq!(flags[0], "-I/include");
    assert_eq!(flags[1], "-I/lin64/include");
    assert_eq!(flags[2], "-Irelative/sdk/CHeaders/XPLM");
}

#[test]
fn exactly_one_identity_flag_on() {
    for p in ALL {
        let flags = get_acfutils_cflags(p, "/acfutils", "/xplane_sdk");
        let k = flags.len() - 9;
        let triple = &flags[k..k + 3];
        assert!(triple[0].starts_with("-DIBM="));
        assert!(triple[1].starts_with("-DLIN="));
        assert!(triple[2].starts_with("-DAPL="));
        assert_eq!(triple.iter().filter(|f| f.ends_with("=1")).count(), 1);
        assert_eq!(triple.iter().filter(|f| f.ends_with("=0")).count(), 2);
        let on = match p {
            Platform::Windows => 0,
            Platform::Linux => 1,
            Platform::MacOs => 2,
        };
        assert!(triple[on].ends_with("=1"));
    }
}

#[test]
fn api_versions_same_everywhere() {
    let expected = owned(&[
        "-DXPLM200=1",
        "-DXPLM210=1",
        "-DXPLM300=1",
        "-DXPLM301=1",
        "-DXPLM303=1",
        "-DXPLM400=1",
    ]);
    for p in ALL {
        let flags = get_acfutils_cflags(p, "/acfutils", "/xplane_sdk");
        assert_eq!(flags[flags.len() - 6..].to_vec(), expected);
    }
}

#[test]
fn windows_libs() {
    let libs = get_acfutils_libs(Platform::Windows);
    assert_eq!(
        libs,
        owned(&[
            "acfutils", "lzma", "iconv", "cairo", "pixman-1", "freetype", "png16", "shp", "proj",
            "glew32mx", "curl", "ssl", "crypto", "gdi32", "z", "ws2_32", "crypt32", "xml2",
            "pcre2-8", "dbghelp", "psapi", "ssp", "bcrypt", "winmm", "opengl32",
        ])
    );
    for only in ["gdi32", "ws2_32", "crypt32", "dbghelp", "psapi", "ssp", "bcrypt", "winmm"] {
        assert!(libs.iter().any(|l| l == only));
    }
    assert!(!libs.iter().any(|l| l == "pthread"));
    assert!(!libs.iter().any(|l| l == "framework=OpenGL"));
}

#[test]
fn linux_libs() {
    let libs = get_acfutils_libs(Platform::Linux);
    assert_eq!(
        libs,
        owned(&[
            "acfutils", "lzma", "iconv", "cairo", "pixman-1", "freetype", "png16", "shp", "proj",
            "GLEWmx", "curl", "ssl", "crypto", "z", "pthread", "xml2", "pcre2-8", "GL",
        ])
    );
    let glew = libs.iter().filter(|l| l.as_str() == "GLEWmx" || l.as_str() == "glew32mx");
    assert_eq!(glew.count(), 1);
    for only in [
        "glew32mx", "gdi32", "ws2_32", "crypt32", "dbghelp", "psapi", "ssp", "bcrypt", "winmm",
        "opengl32",
    ] {
        assert!(!libs.iter().any(|l| l == only));
    }
}

#[test]
fn mac_libs() {
    let libs = get_acfutils_libs(Platform::MacOs);
    assert_eq!(
        libs,
        owned(&[
            "acfutils", "lzma", "iconv", "cairo", "pixman-1", "freetype", "png16", "shp", "proj",
            "GLEWmx", "curl", "ssl", "crypto", "z", "xml2", "pcre2-8", "framework=OpenGL",
        ])
    );
    assert!(libs.last().unwrap().starts_with("framework="));
    assert!(!libs.iter().any(|l| l == "GL" || l == "opengl32"));
}

#[test]
fn libs_have_no_duplicates() {
    for p in ALL {
        let libs = get_acfutils_libs(p);
        for (i, a) in libs.iter().enumerate() {
            for b in &libs[i + 1..] {
                assert_ne!(a, b);
            }
        }
    }
}

#[test]
fn derivations_repeat() {
    for p in ALL {
        assert_eq!(
            get_acfutils_cflags(p, "/acfutils", "/xplane_sdk"),
            get_acfutils_cflags(p, "/acfutils", "/xplane_sdk")
        );
        assert_eq!(get_acfutils_libs(p), get_acfutils_libs(p));
        assert_eq!(p.xplm_flags(), p.xplm_flags());
        assert_eq!(p.short(), p.short());
    }
}
