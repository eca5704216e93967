//! Where the host looks for the sources of the two shader stages.
//!
//! A source is looked for at its path as given and, failing that, at the same
//! path below the directory `shaders/`. The vertex stage has a fixed name; the
//! fragment stage has a default name that the host may replace.

use vstd::prelude::*;

verus! {

/// The name of the vertex shader's source.
pub fn vertex_shader_path() -> (path: String)
    ensures
        path@ == "vertex_shader.vert"@,
{
    String::from_str("vertex_shader.vert")
}

/// The path of the fragment shader's source: `requested` where the host names one, the
/// default name where it does not.
pub fn fragment_shader_path(requested: Option<String>) -> (path: String)
    ensures
        path@ == match requested {
            Some(name) => name@,
            None => "fragment_shader.frag"@,
        },
{
    match requested {
        Some(name) => name,
        None => String::from_str("fragment_shader.frag"),
    }
}

/// The second place to look for a shader's source: `path` below `shaders/`.
pub fn fallback_path(path: &str) -> (fallback: String)
    ensures
        fallback@ == "shaders/"@ + path@,
{
    String::from_str("shaders/").concat(path)
}

} // verus!
