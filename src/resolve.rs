//! Where the worker is looked for, and how it is launched.

use vstd::prelude::*;

verus! {

/// The worker script's locations, relative to the working directory, in the
/// order they are tried.
pub fn script_locations() -> (r: Vec<String>)
    ensures
        r@.len() == 2,
        r@[0]@ == "transcribe_wav.py"@,
        r@[1]@ == "src-tauri/transcribe_wav.py"@,
{
    let mut r: Vec<String> = Vec::new();
    r.push("transcribe_wav.py".to_owned());
    r.push("src-tauri/transcribe_wav.py".to_owned());
    r
}

/// The runtimes that may launch the worker, in the order they are tried.
pub fn runtime_candidates() -> (r: Vec<String>)
    ensures
        r@.len() == 2,
        r@[0]@ == "python3"@,
        r@[1]@ == "python"@,
{
    let mut r: Vec<String> = Vec::new();
    r.push("python3".to_owned());
    r.push("python".to_owned());
    r
}

/// The first candidate that was found, if any was.
pub fn first_found(found: &[bool]) -> (r: Option<usize>)
    ensures
        r matches Some(i) ==> i < found@.len() && found@[i as int] && forall|j: int|
            0 <= j < i ==> !found@[j],
        r is None ==> forall|j: int| 0 <= j < found@.len() ==> !found@[j],
{
    let mut i: usize = 0;
    while i < found.len()
        invariant
            i <= found@.len(),
            forall|j: int| 0 <= j < i ==> !found@[j],
        decreases found@.len() - i,
    {
        if found[i] {
            return Some(i);
        }
        i = i + 1;
    }
    None
}

/// The arguments that put the script in worker mode: the script, then
/// `--worker`.
pub fn worker_args(script: String) -> (r: Vec<String>)
    ensures
        r@.len() == 2,
        r@[0] == script,
        r@[1]@ == "--worker"@,
{
    let mut r: Vec<String> = Vec::new();
    r.push(script);
    r.push("--worker".to_owned());
    r
}

} // verus!
