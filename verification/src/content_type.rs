//! Content-type inference: a pure suffix-match table from file extension to
//! MIME string. Extension only, deterministic; no content sniffing.

use vstd::prelude::*;
use crate::text::str_has_suffix;

verus! {

/// The MIME string served for a file of the given name: decided by the file
/// extension alone, with `application/octet-stream` as the default.
pub open spec fn content_type_for(name: Seq<char>) -> Seq<char> {
    if ".html"@.is_suffix_of(name) {
        "text/html; charset=UTF-8"@
    } else if ".js"@.is_suffix_of(name) {
        "text/javascript; charset=UTF-8"@
    } else if ".css"@.is_suffix_of(name) {
        "text/css; charset=UTF-8"@
    } else if ".png"@.is_suffix_of(name) {
        "image/png"@
    } else if ".gif"@.is_suffix_of(name) {
        "image/gif"@
    } else if ".jpg"@.is_suffix_of(name) || ".jpeg"@.is_suffix_of(name) {
        "image/jpeg"@
    } else if ".svg"@.is_suffix_of(name) {
        "image/svg+xml; charset=UTF-8"@
    } else if ".txt"@.is_suffix_of(name) {
        "text/plain; charset=UTF-8"@
    } else {
        "application/octet-stream"@
    }
}

/// Maps a file name to the MIME type it is served with.
pub fn resolve_content_type(filename: &str) -> (r: &'static str)
    ensures
        r@ == content_type_for(filename@),
{
    if str_has_suffix(filename, ".html") {
        "text/html; charset=UTF-8"
    } else if str_has_suffix(filename, ".js") {
        "text/javascript; charset=UTF-8"
    } else if str_has_suffix(filename, ".css") {
        "text/css; charset=UTF-8"
    } else if str_has_suffix(filename, ".png") {
        "image/png"
    } else if str_has_suffix(filename, ".gif") {
        "image/gif"
    } else if str_has_suffix(filename, ".jpg") || str_has_suffix(filename, ".jpeg") {
        "image/jpeg"
    } else if str_has_suffix(filename, ".svg") {
        "image/svg+xml; charset=UTF-8"
    } else if str_has_suffix(filename, ".txt") {
        "text/plain; charset=UTF-8"
    } else {
        "application/octet-stream"
    }
}

} // verus!
