//! Which image file the overlay shows.
//!
//! The host looks things up: the first command-line argument, the environment,
//! the file system. The order of preference among what it found is decided
//! here.

use vstd::prelude::*;

verus! {

/// Environment variable that names the image.
pub const IMAGE_PATH_VARIABLE: &'static str = "WL_CROSSHAIR_IMAGE_PATH";

/// Image that is shown when nothing else is configured.
pub const DEFAULT_IMAGE_PATH: &'static str = "cursors/inverse-v.png";

/// A path that is used only if a regular file lies there.
pub struct Candidate {
    pub path: String,
    /// Whether the host found a regular file at `path`.
    pub is_file: bool,
}

/// `candidates[i]` is a regular file and none before it is.
pub open spec fn is_first_file(candidates: Seq<Candidate>, i: int) -> bool {
    &&& 0 <= i < candidates.len()
    &&& candidates[i].is_file
    &&& forall|j: int| 0 <= j < i ==> !(#[trigger] candidates[j]).is_file
}

/// No candidate is a regular file.
pub open spec fn no_file(candidates: Seq<Candidate>) -> bool {
    forall|j: int| 0 <= j < candidates.len() ==> !(#[trigger] candidates[j]).is_file
}

/// The paths to fall back on, in order of preference: the one compiled in, if
/// there is one, then the default.
pub fn fallback_paths(compiled: Option<String>) -> (paths: Vec<String>)
    ensures
        compiled matches Some(path) ==> paths@.len() == 2 && paths@[0] == path && paths@[1]@
            == DEFAULT_IMAGE_PATH@,
        compiled is None ==> paths@.len() == 1 && paths@[0]@ == DEFAULT_IMAGE_PATH@,
{
    let mut paths: Vec<String> = Vec::new();
    match compiled {
        Some(path) => {
            paths.push(path);
        },
        None => {},
    }
    paths.push(DEFAULT_IMAGE_PATH.to_owned());
    paths
}

/// Chooses the image path: the command-line argument if there is one, else
/// the environment variable's value if it is set, else the first fallback at
/// which a regular file lies. Neither the argument nor the variable's value is
/// looked at further. `None` means that there is nothing to show.
pub fn get_cursor_image_path(
    argument: Option<String>,
    variable: Option<String>,
    fallbacks: &Vec<Candidate>,
) -> (chosen: Option<String>)
    ensures
        argument is Some ==> chosen == argument,
        argument is None && variable is Some ==> chosen == variable,
        argument is None && variable is None ==> match chosen {
            Some(path) => exists|i: int| is_first_file(fallbacks@, i) && fallbacks@[i].path == path,
            None => no_file(fallbacks@),
        },
        chosen is None <==> argument is None && variable is None && no_file(fallbacks@),
{
    if argument.is_some() {
        return argument;
    }
    if variable.is_some() {
        return variable;
    }
    let mut i: usize = 0;
    while i < fallbacks.len()
        invariant
            i <= fallbacks@.len(),
            argument is None,
            variable is None,
            forall|j: int| 0 <= j < i ==> !(#[trigger] fallbacks@[j]).is_file,
        decreases fallbacks@.len() - i,
    {
        if fallbacks[i].is_file {
            assert(is_first_file(fallbacks@, i as int));
            return Some(fallbacks[i].path.clone());
        }
        i = i + 1;
    }
    None
}

} // verus!
