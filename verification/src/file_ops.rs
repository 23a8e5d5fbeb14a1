//! The checks made before a document is read or written: paths that try to
//! leave the project or reach system files are refused, and documents over
//! ten megabytes are too large.

use vstd::prelude::*;
use crate::text::{contains_seq, push_str, spec_to_lowercase, starts_with_seq, str_concat, str_contains,
    str_starts_with, to_lowercase};

verus! {

/// The largest document, in bytes.
pub const MAX_CONTENT_SIZE: usize = 10_485_760;

/// Patterns that betray an attempt to leave the project's directory.
pub open spec fn traversal_patterns() -> Seq<Seq<char>> {
    seq![
        ".."@, "../"@, "..\\"@, "..%2F"@, "..%5C"@, "../.."@, "../..\\"@, "....//"@, "....\\\\"@,
        "\\\\evil-server"@, "/etc/passwd"@, "C:\\Windows\\System32"@, "file://"@, "file:"@,
    ]
}

/// Whether the lower-cased path holds one of the patterns.
pub open spec fn has_traversal(path: Seq<char>) -> bool {
    exists|i: int| 0 <= i < traversal_patterns().len()
        && contains_seq(spec_to_lowercase(path), #[trigger] traversal_patterns()[i])
}

/// Whether the path names a system location.
pub open spec fn is_dangerous(path: Seq<char>) -> bool {
    starts_with_seq(path, "/etc/"@) || starts_with_seq(path, "C:\\Windows\\"@) || contains_seq(path, "system32"@)
}

/// Why a path is refused, if it is.
pub open spec fn path_problem(path: Seq<char>) -> Option<Seq<char>> {
    if has_traversal(path) {
        Some("Path traversal attempt detected: "@ + path)
    } else if is_dangerous(path) {
        Some("Potentially dangerous path detected: "@ + path)
    } else {
        None
    }
}

fn pattern_list() -> (v: Vec<&'static str>)
    ensures
        v@.map_values(|s: &str| s@) == traversal_patterns(),
{
    let v: Vec<&'static str> = vec![
        "..", "../", "..\\", "..%2F", "..%5C", "../..", "../..\\", "....//", "....\\\\",
        "\\\\evil-server", "/etc/passwd", "C:\\Windows\\System32", "file://", "file:",
    ];
    assert(v@.map_values(|s: &str| s@) =~= traversal_patterns());
    v
}

/// Checks a path before a document is read or written there.
pub fn validate_path(path: &str) -> (r: Result<(), String>)
    ensures
        match path_problem(path@) {
            Some(m) => r matches Err(e) && e@ == m,
            None => r is Ok,
        },
{
    let patterns = pattern_list();
    let lower = to_lowercase(path);
    let mut i: usize = 0;
    while i < patterns.len()
        invariant
            i <= patterns@.len(),
            patterns@.map_values(|s: &str| s@) == traversal_patterns(),
            lower@ == spec_to_lowercase(path@),
            forall|j: int| 0 <= j < i ==> !contains_seq(spec_to_lowercase(path@), #[trigger] traversal_patterns()[j]),
        decreases patterns@.len() - i,
    {
        assert(patterns@[i as int]@ == traversal_patterns()[i as int]);
        if str_contains(lower.as_str(), patterns[i]) {
            return Err(str_concat("Path traversal attempt detected: ", path));
        }
        i += 1;
    }
    if str_starts_with(path, "/etc/") || str_starts_with(path, "C:\\Windows\\") || str_contains(path, "system32") {
        return Err(str_concat("Potentially dangerous path detected: ", path));
    }
    Ok(())
}

/// Checks the size of a document's text.
pub fn check_content_size(content: &str) -> (r: Result<(), String>)
    ensures
        r is Ok <==> vstd::utf8::encode_utf8(content@).len() <= MAX_CONTENT_SIZE,
        r matches Err(e) ==> e@ == "Document content exceeds maximum size limit (10MB)"@,
{
    if content.as_bytes().len() > MAX_CONTENT_SIZE {
        Err("Document content exceeds maximum size limit (10MB)".to_string())
    } else {
        Ok(())
    }
}

/// Checks that a file can be turned into Markdown: only Markdown files
/// (by their lower-cased extension) can.
pub fn check_markdown_extension(extension: &str) -> (r: Result<(), String>)
    ensures
        r is Ok <==> spec_to_lowercase(extension@) == "md"@,
        r matches Err(e) ==> e@ == "Unsupported file extension: "@ + extension@,
{
    let lower = to_lowercase(extension);
    if crate::text::str_eq(lower.as_str(), "md") {
        Ok(())
    } else {
        let mut v: Vec<char> = Vec::new();
        push_str(&mut v, "Unsupported file extension: ");
        push_str(&mut v, extension);
        Err(crate::text::string_from_chars(&v))
    }
}

} // verus!
