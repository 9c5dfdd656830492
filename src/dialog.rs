use vstd::prelude::*;
use vstd::string::StringExecFns;

verus! {

/// The outcome of a file or folder dialog, from what its callback sent: the
/// chosen path, or nothing when the user cancelled. A callback that sent
/// nothing, or an empty path, counts as a cancel.
pub fn chosen_path(sent: Option<String>) -> (r: Option<String>)
    ensures
        r is Some <==> (sent is Some && sent->0@.len() > 0),
        r is Some ==> r->0@ == sent->0@,
{
    match sent {
        Some(p) => {
            if p.as_str().is_empty() {
                None
            } else {
                Some(p)
            }
        },
        None => None,
    }
}

/// The container extensions that the video file dialog offers.
pub fn video_extensions() -> (r: Vec<String>)
    ensures
        r@.len() == 5,
        r@[0]@ == "mp4"@,
        r@[1]@ == "avi"@,
        r@[2]@ == "mkv"@,
        r@[3]@ == "mov"@,
        r@[4]@ == "webm"@,
{
    let mut r: Vec<String> = Vec::new();
    r.push(String::from_str("mp4"));
    r.push(String::from_str("avi"));
    r.push(String::from_str("mkv"));
    r.push(String::from_str("mov"));
    r.push(String::from_str("webm"));
    r
}

} // verus!
