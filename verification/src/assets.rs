use vstd::prelude::*;

verus! {

use vstd::string::StringExecFns;
use crate::response::Response;
use crate::text::str_starts_with;

/// Maps a request path under the `/static/` prefix to the relative file
/// path the shell should read: the path with a leading `.`. Any other path
/// is no candidate for a static file.
pub fn static_file_candidate(path: &str) -> (result: Option<String>)
    ensures
        match result {
            Some(relative) => "/static/"@.is_prefix_of(path@) && relative@ == seq!['.'] + path@,
            None => !"/static/"@.is_prefix_of(path@),
        },
{
    if str_starts_with(path, "/static/") {
        let mut relative = String::from_str(".");
        relative.append(path);
        proof {
            reveal_strlit(".");
            assert(relative@ =~= seq!['.'] + path@);
        }
        Some(relative)
    } else {
        None
    }
}

/// Builds the response for a static file read the shell performed: the
/// contents with status 200 on success, 404 when the read failed in any
/// way (missing file, permission, undecodable bytes).
pub fn static_content_response(content: Option<String>) -> (response: Response)
    ensures
        match content {
            Some(text) => response.status == 200 && response.body@ == text@,
            None => response.status == 404 && response.body@ == "Not Found"@,
        },
{
    match content {
        Some(text) => Response { status: 200, body: text },
        None => Response { status: 404, body: String::from_str("Not Found") },
    }
}

} // verus!
