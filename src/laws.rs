use vstd::prelude::*;
use crate::platform::{Platform, platform_of};
use crate::flags::{cflags_spec, identity_flags, api_version_flags, xplm_flags_spec};
use crate::libs::{libs_spec, common_libs, glew_lib, opengl_lib, gdi_libs, socket_libs, windows_system_libs};

verus! {

/// The definition `-D<name>=<value>`.
pub open spec fn definition(name: Seq<char>, value: char) -> Seq<char> {
    "-D"@ + name + "="@ + seq![value]
}

/// The digit that turns a definition on (`1`) or off (`0`).
pub open spec fn switch(on: bool) -> char {
    if on {
        '1'
    } else {
        '0'
    }
}

/// Whether a link entry names a framework rather than a plain library.
pub open spec fn is_framework(lib: Seq<char>) -> bool {
    lib.len() >= 10 && lib.subrange(0, 10) == "framework="@
}

/// The entries that only Windows links.
pub open spec fn windows_only_libs() -> Seq<Seq<char>> {
    seq![glew_lib(Platform::Windows), opengl_lib(Platform::Windows)] + gdi_libs(Platform::Windows)
        + socket_libs(Platform::Windows) + windows_system_libs(Platform::Windows)
}

/// The three recognized identifiers resolve to their platforms, and an
/// identifier that holds an upper-case letter resolves to none.
pub proof fn lemma_resolve_recognized(id: Seq<char>)
    ensures
        platform_of("windows"@) == Some(Platform::Windows),
        platform_of("macos"@) == Some(Platform::MacOs),
        platform_of("linux"@) == Some(Platform::Linux),
        (exists|i: int| 0 <= i < id.len() && 'A' <= #[trigger] id[i] <= 'Z') ==> platform_of(id) is None,
{
    reveal_strlit("windows");
    reveal_strlit("macos");
    reveal_strlit("linux");
    assert("macos"@.len() != "windows"@.len());
    assert("linux"@.len() != "windows"@.len());
    assert("linux"@[0] != "macos"@[0]);
}

/// Every flag list holds the three platform-identity definitions IBM, LIN and
/// APL, followed by the API versions; the one of the platform's family is on
/// and the other two are off.
pub proof fn lemma_identity_flags(p: Platform, aux: Seq<char>, sdk: Seq<char>)
    ensures
        ({
            let f = cflags_spec(p, aux, sdk);
            let k = f.len() - 9 as int;
            &&& f.len() >= 9
            &&& f.subrange(k, k + 3) == identity_flags(p)
            &&& f.subrange(k + 3, f.len() as int) == api_version_flags()
        }),
        identity_flags(p) == seq![
            definition("IBM"@, switch(p == Platform::Windows)),
            definition("LIN"@, switch(p == Platform::Linux)),
            definition("APL"@, switch(p == Platform::MacOs)),
        ],
{
    reveal_strlit("-D");
    reveal_strlit("=");
    reveal_strlit("IBM");
    reveal_strlit("LIN");
    reveal_strlit("APL");
    reveal_strlit("-DIBM=1");
    reveal_strlit("-DIBM=0");
    reveal_strlit("-DLIN=1");
    reveal_strlit("-DLIN=0");
    reveal_strlit("-DAPL=1");
    reveal_strlit("-DAPL=0");
    assert(definition("IBM"@, '1') =~= "-DIBM=1"@);
    assert(definition("IBM"@, '0') =~= "-DIBM=0"@);
    assert(definition("LIN"@, '1') =~= "-DLIN=1"@);
    assert(definition("LIN"@, '0') =~= "-DLIN=0"@);
    assert(definition("APL"@, '1') =~= "-DAPL=1"@);
    assert(definition("APL"@, '0') =~= "-DAPL=0"@);
    let f = cflags_spec(p, aux, sdk);
    let k = f.len() - 9 as int;
    assert(f.subrange(k, k + 3) =~= identity_flags(p));
    assert(f.subrange(k + 3, f.len() as int) =~= api_version_flags());
    assert(identity_flags(p) =~= seq![
        definition("IBM"@, switch(p == Platform::Windows)),
        definition("LIN"@, switch(p == Platform::Linux)),
        definition("APL"@, switch(p == Platform::MacOs)),
    ]);
}

/// The six API-version definitions close every flag list, in the same order
/// whatever the platform and the install paths.
pub proof fn lemma_api_versions_fixed(
    p: Platform,
    aux: Seq<char>,
    sdk: Seq<char>,
    q: Platform,
    aux2: Seq<char>,
    sdk2: Seq<char>,
)
    ensures
        api_version_flags().len() == 6,
        ({
            let f = cflags_spec(p, aux, sdk);
            let g = cflags_spec(q, aux2, sdk2);
            &&& f.subrange(f.len() - 6, f.len() as int) == api_version_flags()
            &&& g.subrange(g.len() - 6, g.len() as int) == f.subrange(f.len() - 6, f.len() as int)
        }),
{
    let f = cflags_spec(p, aux, sdk);
    let g = cflags_spec(q, aux2, sdk2);
    assert(f.subrange(f.len() - 6, f.len() as int) =~= api_version_flags());
    assert(g.subrange(g.len() - 6, g.len() as int) =~= api_version_flags());
}

/// The length and the last two characters of each library name, which
/// tell the names apart.
proof fn lemma_lib_names()
    ensures
        "acfutils"@.len() == 8 && "acfutils"@[7] == 's' && "acfutils"@[6] == 'l',
        "lzma"@.len() == 4 && "lzma"@[3] == 'a' && "lzma"@[2] == 'm',
        "iconv"@.len() == 5 && "iconv"@[4] == 'v' && "iconv"@[3] == 'n',
        "cairo"@.len() == 5 && "cairo"@[4] == 'o' && "cairo"@[3] == 'r',
        "pixman-1"@.len() == 8 && "pixman-1"@[7] == '1' && "pixman-1"@[6] == '-',
        "freetype"@.len() == 8 && "freetype"@[7] == 'e' && "freetype"@[6] == 'p',
        "png16"@.len() == 5 && "png16"@[4] == '6' && "png16"@[3] == '1',
        "shp"@.len() == 3 && "shp"@[2] == 'p' && "shp"@[1] == 'h',
        "proj"@.len() == 4 && "proj"@[3] == 'j' && "proj"@[2] == 'o',
        "glew32mx"@.len() == 8 && "glew32mx"@[7] == 'x' && "glew32mx"@[6] == 'm',
        "GLEWmx"@.len() == 6 && "GLEWmx"@[5] == 'x' && "GLEWmx"@[4] == 'm',
        "curl"@.len() == 4 && "curl"@[3] == 'l' && "curl"@[2] == 'r',
        "ssl"@.len() == 3 && "ssl"@[2] == 'l' && "ssl"@[1] == 's',
        "crypto"@.len() == 6 && "crypto"@[5] == 'o' && "crypto"@[4] == 't',
        "gdi32"@.len() == 5 && "gdi32"@[4] == '2' && "gdi32"@[3] == '3',
        "z"@.len() == 1 && "z"@[0] == 'z',
        "ws2_32"@.len() == 6 && "ws2_32"@[5] == '2' && "ws2_32"@[4] == '3',
        "crypt32"@.len() == 7 && "crypt32"@[6] == '2' && "crypt32"@[5] == '3',
        "pthread"@.len() == 7 && "pthread"@[6] == 'd' && "pthread"@[5] == 'a',
        "xml2"@.len() == 4 && "xml2"@[3] == '2' && "xml2"@[2] == 'l',
        "pcre2-8"@.len() == 7 && "pcre2-8"@[6] == '8' && "pcre2-8"@[5] == '-',
        "dbghelp"@.len() == 7 && "dbghelp"@[6] == 'p' && "dbghelp"@[5] == 'l',
        "psapi"@.len() == 5 && "psapi"@[4] == 'i' && "psapi"@[3] == 'p',
        "ssp"@.len() == 3 && "ssp"@[2] == 'p' && "ssp"@[1] == 's',
        "bcrypt"@.len() == 6 && "bcrypt"@[5] == 't' && "bcrypt"@[4] == 'p',
        "winmm"@.len() == 5 && "winmm"@[4] == 'm' && "winmm"@[3] == 'm',
        "opengl32"@.len() == 8 && "opengl32"@[7] == '2' && "opengl32"@[6] == '3',
        "framework=OpenGL"@.len() == 16 && "framework=OpenGL"@[15] == 'L' && "framework=OpenGL"@[14] == 'G',
        "GL"@.len() == 2 && "GL"@[1] == 'L' && "GL"@[0] == 'G',
{
    reveal_strlit("acfutils");
    reveal_strlit("lzma");
    reveal_strlit("iconv");
    reveal_strlit("cairo");
    reveal_strlit("pixman-1");
    reveal_strlit("freetype");
    reveal_strlit("png16");
    reveal_strlit("shp");
    reveal_strlit("proj");
    reveal_strlit("glew32mx");
    reveal_strlit("GLEWmx");
    reveal_strlit("curl");
    reveal_strlit("ssl");
    reveal_strlit("crypto");
    reveal_strlit("gdi32");
    reveal_strlit("z");
    reveal_strlit("ws2_32");
    reveal_strlit("crypt32");
    reveal_strlit("pthread");
    reveal_strlit("xml2");
    reveal_strlit("pcre2-8");
    reveal_strlit("dbghelp");
    reveal_strlit("psapi");
    reveal_strlit("ssp");
    reveal_strlit("bcrypt");
    reveal_strlit("winmm");
    reveal_strlit("opengl32");
    reveal_strlit("framework=OpenGL");
    reveal_strlit("GL");
}

/// The link list of Windows, entry by entry.
proof fn lemma_windows_libs_listed()
    ensures
        libs_spec(Platform::Windows) == seq![
        "acfutils"@,
        "lzma"@,
        "iconv"@,
        "cairo"@,
        "pixman-1"@,
        "freetype"@,
        "png16"@,
        "shp"@,
        "proj"@,
        "glew32mx"@,
        "curl"@,
        "ssl"@,
        "crypto"@,
        "gdi32"@,
        "z"@,
        "ws2_32"@,
        "crypt32"@,
        "xml2"@,
        "pcre2-8"@,
        "dbghelp"@,
        "psapi"@,
        "ssp"@,
        "bcrypt"@,
        "winmm"@,
        "opengl32"@,
        ],
{
    assert(libs_spec(Platform::Windows) =~= seq![
        "acfutils"@,
        "lzma"@,
        "iconv"@,
        "cairo"@,
        "pixman-1"@,
        "freetype"@,
        "png16"@,
        "shp"@,
        "proj"@,
        "glew32mx"@,
        "curl"@,
        "ssl"@,
        "crypto"@,
        "gdi32"@,
        "z"@,
        "ws2_32"@,
        "crypt32"@,
        "xml2"@,
        "pcre2-8"@,
        "dbghelp"@,
        "psapi"@,
        "ssp"@,
        "bcrypt"@,
        "winmm"@,
        "opengl32"@,
    ]);
}

/// The link list of MacOs, entry by entry.
proof fn lemma_macos_libs_listed()
    ensures
        libs_spec(Platform::MacOs) == seq![
        "acfutils"@,
        "lzma"@,
        "iconv"@,
        "cairo"@,
        "pixman-1"@,
        "freetype"@,
        "png16"@,
        "shp"@,
        "proj"@,
        "GLEWmx"@,
        "curl"@,
        "ssl"@,
        "crypto"@,
        "z"@,
        "xml2"@,
        "pcre2-8"@,
        "framework=OpenGL"@,
        ],
{
    assert(libs_spec(Platform::MacOs) =~= seq![
        "acfutils"@,
        "lzma"@,
        "iconv"@,
        "cairo"@,
        "pixman-1"@,
        "freetype"@,
        "png16"@,
        "shp"@,
        "proj"@,
        "GLEWmx"@,
        "curl"@,
        "ssl"@,
        "crypto"@,
        "z"@,
        "xml2"@,
        "pcre2-8"@,
        "framework=OpenGL"@,
    ]);
}

/// The link list of Linux, entry by entry.
proof fn lemma_linux_libs_listed()
    ensures
        libs_spec(Platform::Linux) == seq![
        "acfutils"@,
        "lzma"@,
        "iconv"@,
        "cairo"@,
        "pixman-1"@,
        "freetype"@,
        "png16"@,
        "shp"@,
        "proj"@,
        "GLEWmx"@,
        "curl"@,
        "ssl"@,
        "crypto"@,
        "z"@,
        "pthread"@,
        "xml2"@,
        "pcre2-8"@,
        "GL"@,
        ],
{
    assert(libs_spec(Platform::Linux) =~= seq![
        "acfutils"@,
        "lzma"@,
        "iconv"@,
        "cairo"@,
        "pixman-1"@,
        "freetype"@,
        "png16"@,
        "shp"@,
        "proj"@,
        "GLEWmx"@,
        "curl"@,
        "ssl"@,
        "crypto"@,
        "z"@,
        "pthread"@,
        "xml2"@,
        "pcre2-8"@,
        "GL"@,
    ]);
}

/// No library is linked twice, whatever the platform.
#[verifier::rlimit(50)]
pub proof fn lemma_libs_no_duplicates(p: Platform)
    ensures
        libs_spec(p).no_duplicates(),
{
    lemma_lib_names();
    lemma_windows_libs_listed();
    lemma_macos_libs_listed();
    lemma_linux_libs_listed();
}

/// Windows links GDI, Winsock, the crypto API and the five system libraries,
/// and neither the threads library nor the OpenGL framework.
pub proof fn lemma_windows_libs()
    ensures
        forall|i: int|
            0 <= i < windows_only_libs().len() ==> libs_spec(Platform::Windows).contains(
                #[trigger] windows_only_libs()[i],
            ),
        !libs_spec(Platform::Windows).contains("pthread"@),
        !libs_spec(Platform::Windows).contains(opengl_lib(Platform::MacOs)),
{
    lemma_lib_names();
    lemma_windows_libs_listed();
    let l = libs_spec(Platform::Windows);
    assert(windows_only_libs() =~= seq![l[9], l[24], l[13], l[15], l[16], l[19], l[20], l[21], l[22], l[23]]);
}

/// Linux links the multi-context GLEW library once and under its generic
/// name, the threads library and plain GL, and nothing that only Windows
/// links.
pub proof fn lemma_linux_libs()
    ensures
        ({
            let l = libs_spec(Platform::Linux);
            let k = common_libs().len() as int;
            &&& l[k] == "GLEWmx"@
            &&& forall|j: int| 0 <= j < l.len() && j != k ==> l[j] != "GLEWmx"@ && l[j] != "glew32mx"@
        }),
        libs_spec(Platform::Linux).contains("pthread"@),
        libs_spec(Platform::Linux).contains("GL"@),
        forall|i: int|
            0 <= i < windows_only_libs().len() ==> !libs_spec(Platform::Linux).contains(
                #[trigger] windows_only_libs()[i],
            ),
{
    lemma_lib_names();
    lemma_linux_libs_listed();
    let l = libs_spec(Platform::Linux);
    assert(l[14] == "pthread"@);
    assert(l[17] == "GL"@);
}

/// macOS links OpenGL as a framework, last, and links no other framework and
/// no plain OpenGL library.
pub proof fn lemma_macos_libs()
    ensures
        libs_spec(Platform::MacOs).last() == "framework=OpenGL"@,
        is_framework(libs_spec(Platform::MacOs).last()),
        forall|j: int|
            0 <= j < libs_spec(Platform::MacOs).len() - 1 ==> !is_framework(
                #[trigger] libs_spec(Platform::MacOs)[j],
            ),
        !libs_spec(Platform::MacOs).contains("GL"@),
        !libs_spec(Platform::MacOs).contains("opengl32"@),
{
    lemma_lib_names();
    lemma_macos_libs_listed();
    reveal_strlit("framework=OpenGL");
    reveal_strlit("framework=");
    assert("framework="@.len() == 10);
    assert("framework=OpenGL"@.subrange(0, 10) =~= "framework="@);
}

/// Deriving a list twice from the same inputs gives the same list, in the
/// same order: the flags, the SDK definitions and the link libraries.
pub proof fn lemma_derivations_repeatable(
    p: Platform,
    aux: Seq<char>,
    sdk: Seq<char>,
    first: Seq<Seq<char>>,
    second: Seq<Seq<char>>,
)
    ensures
        (first == cflags_spec(p, aux, sdk) && second == cflags_spec(p, aux, sdk)) ==> first
            == second,
        (first == xplm_flags_spec(p) && second == xplm_flags_spec(p)) ==> first == second,
        (first == libs_spec(p) && second == libs_spec(p)) ==> first == second,
{
}

} // verus!
