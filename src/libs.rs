use vstd::prelude::*;
use crate::platform::Platform;
use crate::text::push_text;

verus! {

/// The libraries that every link list starts with: libacfutils itself, then
/// lzma, iconv, cairo, pixman, freetype, libpng, shapelib and PROJ.
pub open spec fn common_libs() -> Seq<Seq<char>> {
    seq![
        "acfutils"@,
        "lzma"@,
        "iconv"@,
        "cairo"@,
        "pixman-1"@,
        "freetype"@,
        "png16"@,
        "shp"@,
        "proj"@,
    ]
}

/// The multi-context GLEW library as the platform names it.
pub open spec fn glew_lib(p: Platform) -> Seq<char> {
    if p == Platform::Windows {
        "glew32mx"@
    } else {
        "GLEWmx"@
    }
}

/// curl and the two OpenSSL libraries.
pub open spec fn transfer_libs() -> Seq<Seq<char>> {
    seq!["curl"@, "ssl"@, "crypto"@]
}

/// GDI, linked on Windows only.
pub open spec fn gdi_libs(p: Platform) -> Seq<Seq<char>> {
    if p == Platform::Windows {
        seq!["gdi32"@]
    } else {
        seq![]
    }
}

/// Winsock and the Windows crypto API, linked on Windows only.
pub open spec fn socket_libs(p: Platform) -> Seq<Seq<char>> {
    if p == Platform::Windows {
        seq!["ws2_32"@, "crypt32"@]
    } else {
        seq![]
    }
}

/// The POSIX threads library, linked on Linux only.
pub open spec fn thread_libs(p: Platform) -> Seq<Seq<char>> {
    if p == Platform::Linux {
        seq!["pthread"@]
    } else {
        seq![]
    }
}

/// libxml2 and PCRE2.
pub open spec fn parser_libs() -> Seq<Seq<char>> {
    seq!["xml2"@, "pcre2-8"@]
}

/// The Windows system libraries for debugging help, process status, stack
/// protection, CNG crypto and multimedia, linked on Windows only.
pub open spec fn windows_system_libs(p: Platform) -> Seq<Seq<char>> {
    if p == Platform::Windows {
        seq!["dbghelp"@, "psapi"@, "ssp"@, "bcrypt"@, "winmm"@]
    } else {
        seq![]
    }
}

/// OpenGL as the platform links it: a framework on macOS, a library elsewhere.
pub open spec fn opengl_lib(p: Platform) -> Seq<char> {
    match p {
        Platform::Windows => "opengl32"@,
        Platform::MacOs => "framework=OpenGL"@,
        Platform::Linux => "GL"@,
    }
}

/// Every library to link for a platform, in order.
pub open spec fn libs_spec(p: Platform) -> Seq<Seq<char>> {
    common_libs().push(glew_lib(p)) + transfer_libs() + gdi_libs(p) + seq!["z"@] + socket_libs(p)
        + thread_libs(p) + parser_libs() + windows_system_libs(p) + seq![opengl_lib(p)]
}

/// The libraries to link a plugin that uses libacfutils with, on a platform.
#[must_use]
pub fn get_acfutils_libs(platform: Platform) -> (r: Vec<String>)
    ensures
        r.deep_view() == libs_spec(platform),
{
    let mut libs: Vec<String> = Vec::new();
    push_text(&mut libs, "acfutils");
    push_text(&mut libs, "lzma");
    push_text(&mut libs, "iconv");
    push_text(&mut libs, "cairo");
    push_text(&mut libs, "pixman-1");
    push_text(&mut libs, "freetype");
    push_text(&mut libs, "png16");
    push_text(&mut libs, "shp");
    push_text(&mut libs, "proj");
    assert(libs.deep_view() =~= common_libs());
    match platform {
        Platform::Windows => push_text(&mut libs, "glew32mx"),
        _ => push_text(&mut libs, "GLEWmx"),
    }
    push_text(&mut libs, "curl");
    push_text(&mut libs, "ssl");
    push_text(&mut libs, "crypto");
    let ghost before_gdi = libs.deep_view();
    assert(before_gdi =~= common_libs().push(glew_lib(platform)) + transfer_libs());
    match platform {
        Platform::Windows => push_text(&mut libs, "gdi32"),
        _ => {},
    }
    assert(libs.deep_view() =~= before_gdi + gdi_libs(platform));
    push_text(&mut libs, "z");
    let ghost before_socket = libs.deep_view();
    match platform {
        Platform::Windows => {
            push_text(&mut libs, "ws2_32");
            push_text(&mut libs, "crypt32");
        },
        _ => {},
    }
    assert(libs.deep_view() =~= before_socket + socket_libs(platform));
    let ghost before_thread = libs.deep_view();
    match platform {
        Platform::Linux => push_text(&mut libs, "pthread"),
        _ => {},
    }
    assert(libs.deep_view() =~= before_thread + thread_libs(platform));
    push_text(&mut libs, "xml2");
    push_text(&mut libs, "pcre2-8");
    let ghost before_system = libs.deep_view();
    match platform {
        Platform::Windows => {
            push_text(&mut libs, "dbghelp");
            push_text(&mut libs, "psapi");
            push_text(&mut libs, "ssp");
            push_text(&mut libs, "bcrypt");
            push_text(&mut libs, "winmm");
        },
        _ => {},
    }
    assert(libs.deep_view() =~= before_system + windows_system_libs(platform));
    match platform {
        Platform::Windows => push_text(&mut libs, "opengl32"),
        Platform::MacOs => push_text(&mut libs, "framework=OpenGL"),
        Platform::Linux => push_text(&mut libs, "GL"),
    }
    assert(libs.deep_view() =~= libs_spec(platform));
    libs
}

} // verus!
