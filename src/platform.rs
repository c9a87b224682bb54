use vstd::prelude::*;

verus! {

/// A target operating system that plugins can be built for.
#[derive(Clone, Copy, Debug, PartialEq, Eq, Structural, Hash)]
pub enum Platform {
    Windows,
    MacOs,
    Linux,
}

/// Why the target platform could not be determined.
#[derive(Debug, PartialEq, Eq)]
pub enum PlatformError {
    /// The identifier names none of the supported platforms; it is kept here.
    UnrecognizedPlatform(String),
    /// The build environment did not name a target operating system.
    MissingTargetEnvironment,
}

/// The platform an identifier names, if it names one.
pub open spec fn platform_of(id: Seq<char>) -> Option<Platform> {
    if id == "windows"@ {
        Some(Platform::Windows)
    } else if id == "macos"@ {
        Some(Platform::MacOs)
    } else if id == "linux"@ {
        Some(Platform::Linux)
    } else {
        None
    }
}

impl Platform {
    /// The tag of the platform's include subdirectory.
    pub open spec fn short_spec(self) -> Seq<char> {
        match self {
            Platform::Windows => "mingw64"@,
            Platform::MacOs => "mac64"@,
            Platform::Linux => "lin64"@,
        }
    }

    /// The tag of the platform's include subdirectory.
    #[must_use]
    pub fn short(&self) -> (r: &str)
        ensures
            r@ == self.short_spec(),
    {
        match self {
            Platform::Windows => "mingw64",
            Platform::MacOs => "mac64",
            Platform::Linux => "lin64",
        }
    }
}

/// Whether two strings hold the same characters.
fn same_text(a: &str, b: &str) -> (r: bool)
    ensures
        r == (a@ == b@),
{
    let n = a.unicode_len();
    if n != b.unicode_len() {
        return false;
    }
    let mut i: usize = 0;
    while i < n
        invariant
            n == a@.len(),
            n == b@.len(),
            i <= n,
            forall|j: int| 0 <= j < i ==> a@[j] == b@[j],
        decreases n - i,
    {
        if a.get_char(i) != b.get_char(i) {
            return false;
        }
        i = i + 1;
    }
    assert(a@ =~= b@);
    true
}

/// Resolves a platform identifier (`windows`, `macos` or `linux`, lower case
/// only); any other identifier is rejected.
pub fn resolve(identifier: &str) -> (r: Result<Platform, PlatformError>)
    ensures
        r is Ok <==> platform_of(identifier@) is Some,
        r matches Ok(p) ==> platform_of(identifier@) == Some(p),
        r matches Err(e) ==> e matches PlatformError::UnrecognizedPlatform(s) && s@ == identifier@,
{
    if same_text(identifier, "windows") {
        Ok(Platform::Windows)
    } else if same_text(identifier, "macos") {
        Ok(Platform::MacOs)
    } else if same_text(identifier, "linux") {
        Ok(Platform::Linux)
    } else {
        Err(PlatformError::UnrecognizedPlatform(identifier.to_owned()))
    }
}

/// Resolves the target named by the build environment, where `value` is the
/// value of the variable that names it, or `None` where it is not set.
pub fn platform_from_target(value: Option<&str>) -> (r: Result<Platform, PlatformError>)
    ensures
        value is None ==> r == Err::<Platform, PlatformError>(PlatformError::MissingTargetEnvironment),
        value matches Some(id) ==> (r is Ok <==> platform_of(id@) is Some),
        value matches Some(id) ==> (r matches Ok(p) ==> platform_of(id@) == Some(p)),
        value matches Some(id) ==> (r matches Err(e) ==> e matches PlatformError::UnrecognizedPlatform(s) && s@ == id@),
{
    match value {
        None => Err(PlatformError::MissingTargetEnvironment),
        Some(id) => resolve(id),
    }
}

} // verus!
