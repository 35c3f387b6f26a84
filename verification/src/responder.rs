//! Turning filesystem outcomes into structured responses: serving a file's
//! bytes and listing the mutable store's directory.
//!
//! The surrounding process performs the read itself and reports what it
//! found; the functions here decide the response. A read that fails for any
//! reason other than the file being absent stays a call-level failure in the
//! caller's hands and never reaches these functions.

use vstd::prelude::*;
use vstd::string::StrSliceExecFns;
use vstd::string::StringExecFns;
use vstd::utf8::encode_utf8;
use crate::response::{ClientErrorCode, Response, ResponseView};
use crate::text::str_eq;

verus! {

/// What opening and reading a file yielded: its full bytes, or nothing
/// because the file does not exist.
#[derive(Debug, Clone, PartialEq, Eq)]
pub enum FileOutcome {
    Data { bytes: Vec<u8> },
    Missing,
}

/// Mathematical image of a [`FileOutcome`].
pub enum FileOutcomeView {
    Data { bytes: Seq<u8> },
    Missing,
}

impl View for FileOutcome {
    type V = FileOutcomeView;

    open spec fn view(&self) -> FileOutcomeView {
        match self {
            FileOutcome::Data { bytes } => FileOutcomeView::Data { bytes: bytes@ },
            FileOutcome::Missing => FileOutcomeView::Missing,
        }
    }
}

/// The response owed for a file read: the bytes verbatim under the given
/// MIME type, or a not-found client error. The not-found case is a
/// successful response carrying a caller-visible code, not a call failure.
pub open spec fn file_response_view(mime_type: Seq<char>, outcome: FileOutcomeView) -> ResponseView {
    match outcome {
        FileOutcomeView::Data { bytes } => ResponseView::Content { mime_type, body: bytes },
        FileOutcomeView::Missing => ResponseView::ClientError { code: ClientErrorCode::NotFound },
    }
}

/// Builds the response for a file read: the payload copied verbatim (no
/// transcoding), or a not-found client error for an absent file.
pub fn file_response(mime_type: String, outcome: FileOutcome) -> (r: Response)
    ensures
        r@ == file_response_view(mime_type@, outcome@),
{
    match outcome {
        FileOutcome::Data { bytes } => Response::Content { mime_type, body: bytes },
        FileOutcome::Missing => Response::ClientError { code: ClientErrorCode::NotFound },
    }
}

/// A directory entry that belongs in a listing: everything but the `.` and
/// `..` entries.
pub open spec fn keep_entry(e: Seq<char>) -> bool {
    e != "."@ && e != ".."@
}

/// Whether any entry of the sequence belongs in the listing.
pub open spec fn any_kept(entries: Seq<Seq<char>>) -> bool
    decreases entries.len(),
{
    if entries.len() == 0 {
        false
    } else {
        any_kept(entries.drop_last()) || keep_entry(entries.last())
    }
}

/// The listing text: the kept entries in their given order, joined with a
/// newline between neighbours.
pub open spec fn listing_text(entries: Seq<Seq<char>>) -> Seq<char>
    decreases entries.len(),
{
    if entries.len() == 0 {
        Seq::empty()
    } else {
        let rest = listing_text(entries.drop_last());
        let e = entries.last();
        if !keep_entry(e) {
            rest
        } else if any_kept(entries.drop_last()) {
            rest + "\n"@ + e
        } else {
            e
        }
    }
}

/// A sequence without kept entries lists as the empty text.
proof fn lemma_no_kept_listing_empty(entries: Seq<Seq<char>>)
    requires
        !any_kept(entries),
    ensures
        listing_text(entries) == Seq::<char>::empty(),
    decreases entries.len(),
{
    if entries.len() > 0 {
        lemma_no_kept_listing_empty(entries.drop_last());
    }
}

/// Builds the listing response for the mutable store: one kept entry per
/// line, served as plain text.
pub fn var_listing_response(entries: &Vec<String>) -> (r: Response)
    ensures
        r@ == (ResponseView::Content {
            mime_type: "text/plain"@,
            body: encode_utf8(listing_text(entries.deep_view())),
        }),
{
    let ghost dv = entries.deep_view();
    let mut text = String::new();
    let mut seen: bool = false;
    let mut i: usize = 0;
    proof {
        assert(dv.take(0) =~= Seq::<Seq<char>>::empty());
    }
    while i < entries.len()
        invariant
            dv == entries.deep_view(),
            dv.len() == entries@.len(),
            i <= entries.len(),
            text@ == listing_text(dv.take(i as int)),
            seen == any_kept(dv.take(i as int)),
        decreases entries.len() - i,
    {
        proof {
            assert(dv.take(i + 1).drop_last() =~= dv.take(i as int));
            assert(dv.take(i + 1).last() == dv[i as int]);
            assert(dv[i as int] == entries@[i as int]@);
        }
        let e = &entries[i];
        if !(str_eq(e.as_str(), ".") || str_eq(e.as_str(), "..")) {
            if seen {
                text.append("\n");
            } else {
                proof {
                    lemma_no_kept_listing_empty(dv.take(i as int));
                    assert(text@ =~= Seq::<char>::empty());
                }
            }
            text.append(e.as_str());
            proof {
                if !any_kept(dv.take(i as int)) {
                    assert(text@ =~= dv[i as int]);
                }
            }
            seen = true;
        }
        i += 1;
    }
    proof {
        assert(dv.take(entries@.len() as int) =~= dv);
    }
    let body = text.as_str().as_bytes_vec();
    Response::Content { mime_type: String::from_str("text/plain"), body }
}

} // verus!
