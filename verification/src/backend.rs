//! Inference backends and their command-line names.

use vstd::prelude::*;
use crate::text::str_equals;

verus! {

/// The inference backend the engine runs on.
#[derive(Clone, Copy, Debug, PartialEq, Eq, Structural)]
pub enum Backend {
    CPU,
    Metal,
    OpenCL,
    OpenGL,
    Vulkan,
    CUDA,
}

/// What std's `str::to_lowercase` returns for a string: its lowercase
/// equivalent under the Unicode `Lowercase` property (a character may map to
/// several characters).
pub uninterp spec fn lowercase(s: Seq<char>) -> Seq<char>;

/// Every character is ASCII.
pub open spec fn is_ascii_chars(s: Seq<char>) -> bool {
    forall|i: int| 0 <= i < s.len() ==> (#[trigger] s[i] as u32) < 128
}

/// `A`..`Z` to `a`..`z`; every other character unchanged.
pub open spec fn ascii_lower_char(c: char) -> char {
    if 'A' <= c && c <= 'Z' {
        ((c as u32) + 32) as char
    } else {
        c
    }
}

/// `a`..`z` to `A`..`Z`; every other character unchanged.
pub open spec fn ascii_upper_char(c: char) -> char {
    if 'a' <= c && c <= 'z' {
        ((c as u32) - 32) as char
    } else {
        c
    }
}

/// ASCII lowercasing of every character.
pub open spec fn ascii_lowercase(s: Seq<char>) -> Seq<char> {
    s.map_values(|c: char| ascii_lower_char(c))
}

/// ASCII uppercasing of every character.
pub open spec fn ascii_uppercase(s: Seq<char>) -> Seq<char> {
    s.map_values(|c: char| ascii_upper_char(c))
}

/// std's `str::to_lowercase`.
///
/// Trusted: the contract claims that the result is the named function
/// `lowercase` of the argument, and, for an all-ASCII argument, that it maps
/// `A`..`Z` to `a`..`z` and leaves every other character as it is (the
/// Unicode lowercase mapping of the ASCII range, as `to_ascii_lowercase`
/// documents it); the Unicode case tables beyond ASCII are not restated.
#[verifier::external_body]
fn to_lowercase(s: &str) -> (r: String)
    ensures
        r@ == lowercase(s@),
        is_ascii_chars(s@) ==> r@ == ascii_lowercase(s@),
{
    s.to_lowercase()
}

/// The backend a lowercase name stands for, if any.
pub open spec fn backend_named(name: Seq<char>) -> Option<Backend> {
    if name == "cpu"@ {
        Some(Backend::CPU)
    } else if name == "metal"@ {
        Some(Backend::Metal)
    } else if name == "opencl"@ {
        Some(Backend::OpenCL)
    } else if name == "opengl"@ {
        Some(Backend::OpenGL)
    } else if name == "vulkan"@ {
        Some(Backend::Vulkan)
    } else if name == "cuda"@ {
        Some(Backend::CUDA)
    } else {
        None
    }
}

/// The backend a command-line name selects: names are compared after
/// lowercasing; an unknown name falls back to the CPU.
pub open spec fn backend_for(s: Seq<char>) -> Backend {
    match backend_named(lowercase(s)) {
        Some(b) => b,
        None => Backend::CPU,
    }
}

/// Maps an already lowercased name to its backend.
pub fn backend_from_lowercase(name: &str) -> (r: Option<Backend>)
    ensures
        r == backend_named(name@),
{
    if str_equals(name, "cpu") {
        Some(Backend::CPU)
    } else if str_equals(name, "metal") {
        Some(Backend::Metal)
    } else if str_equals(name, "opencl") {
        Some(Backend::OpenCL)
    } else if str_equals(name, "opengl") {
        Some(Backend::OpenGL)
    } else if str_equals(name, "vulkan") {
        Some(Backend::Vulkan)
    } else if str_equals(name, "cuda") {
        Some(Backend::CUDA)
    } else {
        None
    }
}

/// The backend an all-ASCII name selects: compared after ASCII
/// lowercasing; an unknown name falls back to the CPU.
pub open spec fn ascii_backend_for(s: Seq<char>) -> Backend {
    match backend_named(ascii_lowercase(s)) {
        Some(b) => b,
        None => Backend::CPU,
    }
}

/// Looks a backend name up case-insensitively; `None` when it names none.
pub fn lookup_backend(s: &str) -> (r: Option<Backend>)
    ensures
        r == backend_named(lowercase(s@)),
        is_ascii_chars(s@) ==> r == backend_named(ascii_lowercase(s@)),
{
    let lower = to_lowercase(s);
    backend_from_lowercase(lower.as_str())
}

/// Parses a `--backend` value; unknown names select the CPU.
pub fn parse_backend(s: &str) -> (b: Backend)
    ensures
        b == backend_for(s@),
        backend_named(lowercase(s@)) is None ==> b == Backend::CPU,
        is_ascii_chars(s@) ==> b == ascii_backend_for(s@),
{
    match lookup_backend(s) {
        Some(b) => b,
        None => Backend::CPU,
    }
}

/// ASCII case does not matter in a backend name: an all-ASCII name, its
/// uppercase and its lowercase form select the same backend (`Metal`,
/// `METAL` and `metal` all select Metal).
pub proof fn law_backend_names_ignore_ascii_case(s: Seq<char>)
    requires
        is_ascii_chars(s),
    ensures
        is_ascii_chars(ascii_uppercase(s)),
        is_ascii_chars(ascii_lowercase(s)),
        ascii_backend_for(ascii_uppercase(s)) == ascii_backend_for(s),
        ascii_backend_for(ascii_lowercase(s)) == ascii_backend_for(s),
{
    let u = ascii_uppercase(s);
    let l = ascii_lowercase(s);
    assert forall|i: int| 0 <= i < u.len() implies (#[trigger] u[i] as u32) < 128 by {
        assert((s[i] as u32) < 128);
    }
    assert forall|i: int| 0 <= i < l.len() implies (#[trigger] l[i] as u32) < 128 by {
        assert((s[i] as u32) < 128);
    }
    assert(ascii_lowercase(u) =~= ascii_lowercase(s));
    assert(ascii_lowercase(l) =~= ascii_lowercase(s));
}

/// The six backend names, each selecting its own backend; any other name
/// selects none.
pub proof fn law_backend_names(name: Seq<char>)
    ensures
        backend_named("cpu"@) == Some(Backend::CPU),
        backend_named("metal"@) == Some(Backend::Metal),
        backend_named("opencl"@) == Some(Backend::OpenCL),
        backend_named("opengl"@) == Some(Backend::OpenGL),
        backend_named("vulkan"@) == Some(Backend::Vulkan),
        backend_named("cuda"@) == Some(Backend::CUDA),
        name != "cpu"@ && name != "metal"@ && name != "opencl"@ && name != "opengl"@
            && name != "vulkan"@ && name != "cuda"@ ==> backend_named(name) is None,
{
    reveal_strlit("cpu");
    reveal_strlit("metal");
    reveal_strlit("opencl");
    reveal_strlit("opengl");
    reveal_strlit("vulkan");
    reveal_strlit("cuda");
    assert("metal"@.len() != "cpu"@.len());
    assert("opencl"@.len() != "cpu"@.len() && "opencl"@.len() != "metal"@.len());
    assert("opengl"@[4] != "opencl"@[4]);
    assert("opengl"@.len() != "cpu"@.len() && "opengl"@.len() != "metal"@.len());
    assert("vulkan"@[0] != "opencl"@[0] && "vulkan"@[0] != "opengl"@[0]);
    assert("vulkan"@.len() != "cpu"@.len() && "vulkan"@.len() != "metal"@.len());
    assert("cuda"@.len() != "cpu"@.len() && "cuda"@.len() != "metal"@.len() && "cuda"@.len() != "opencl"@.len()
        && "cuda"@.len() != "opengl"@.len() && "cuda"@.len() != "vulkan"@.len());
}

} // verus!
