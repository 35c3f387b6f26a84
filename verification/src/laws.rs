//! Laws of the request-handling core, stated over the decision functions
//! that every handler's contract is tied to.

use vstd::prelude::*;
use vstd::utf8::encode_utf8;
use crate::content_type::content_type_for;
use crate::error::CallErrorView;
use crate::paths::{dot_dot_segment_at, dot_segment_at, double_slash_at, is_canonical_path};
use crate::responder::{file_response_view, FileOutcomeView};
use crate::response::{ClientErrorCode, ResponseView};
use crate::session::{
    bool_text, delete_decision, get_decision, probe_decision, put_decision, DeletePlanView,
    GetPlanView, PutPlanView,
};

verus! {

/// A path without slashes is canonical unless it is itself `.` or `..`.
proof fn lemma_slashless_canonical(s: Seq<char>)
    requires
        forall|i: int| 0 <= i < s.len() ==> s[i] != '/',
        !(s.len() == 1 && s[0] == '.'),
        !(s.len() == 2 && s[0] == '.' && s[1] == '.'),
    ensures
        is_canonical_path(s),
{
    assert forall|i: int| !double_slash_at(s, i) by {
        if 0 <= i && i + 1 < s.len() {
            assert(s[i] != '/');
        }
    }
    assert forall|i: int| !dot_segment_at(s, i) by {
        if dot_segment_at(s, i) {
            assert(i == 0);
            assert(i + 1 == s.len());
        }
    }
    assert forall|i: int| !dot_dot_segment_at(s, i) by {
        if dot_dot_segment_at(s, i) {
            assert(i == 0);
            assert(i + 2 == s.len());
        }
    }
}

/// `get(".can-write")` answers from the session's own write bit, as the
/// text `true` or `false`, and the plan touches no file.
pub proof fn lemma_can_write_probe_reports_permission(can_write: bool)
    ensures
        get_decision(can_write, ".can-write"@) == Ok::<GetPlanView, CallErrorView>(
            GetPlanView::Respond {
                response: ResponseView::Content {
                    mime_type: "text/plain"@,
                    body: encode_utf8(bool_text(can_write)),
                },
            },
        ),
{
    let s = ".can-write"@;
    reveal_strlit(".can-write");
    reveal_strlit("var");
    reveal_strlit("var/");
    assert(s.len() == 10);
    assert forall|i: int| 0 <= i < s.len() implies s[i] != '/' by {
        if i == 0 {
        } else if i == 1 {
        } else if i == 2 {
        } else if i == 3 {
        } else if i == 4 {
        } else if i == 5 {
        } else if i == 6 {
        } else if i == 7 {
        } else if i == 8 {
        } else {
            assert(i == 9);
        }
    }
    lemma_slashless_canonical(s);
    assert(s != "var"@);
    assert(s != "var/"@);
    assert(!"var/"@.is_prefix_of(s)) by {
        if "var/"@.is_prefix_of(s) {
            assert("var/"@[0] == s.subrange(0, 4)[0]);
        }
    }
}

/// PUT and DELETE on a path outside the mutable `var/` tree fail the call,
/// whatever the session's permission.
pub proof fn lemma_mutation_confined_to_var(can_write: bool, path: Seq<char>)
    requires
        !"var/"@.is_prefix_of(path),
    ensures
        put_decision(can_write, path) is Err,
        delete_decision(can_write, path) is Err,
{
}

/// Without the write permission, PUT and DELETE under `var/` answer with a
/// forbidden client error, and the plan carries no filesystem step.
pub proof fn lemma_write_gate_forbids(path: Seq<char>)
    requires
        is_canonical_path(path),
        "var/"@.is_prefix_of(path),
    ensures
        put_decision(false, path) == Ok::<PutPlanView, CallErrorView>(
            PutPlanView::Deny {
                response: ResponseView::ClientError { code: ClientErrorCode::Forbidden },
            },
        ),
        delete_decision(false, path) == Ok::<DeletePlanView, CallErrorView>(
            DeletePlanView::Deny {
                response: ResponseView::ClientError { code: ClientErrorCode::Forbidden },
            },
        ),
{
}

/// Round trip through the mutable store: a PUT writes exactly the file a
/// later GET of the same path serves, and serving those bytes yields a
/// content response that returns them verbatim as
/// `application/octet-stream`.
pub proof fn lemma_var_round_trip(can_write: bool, path: Seq<char>, body: Seq<u8>)
    requires
        is_canonical_path(path),
        "var/"@.is_prefix_of(path),
        path != "var/"@,
    ensures
        put_decision(true, path) == Ok::<PutPlanView, CallErrorView>(
            PutPlanView::Write { temp_path: path + ".uploading"@, target_path: path },
        ),
        get_decision(can_write, path) == Ok::<GetPlanView, CallErrorView>(
            GetPlanView::ServeFile { filename: path, mime_type: "application/octet-stream"@ },
        ),
        file_response_view(
            "application/octet-stream"@,
            FileOutcomeView::Data { bytes: body },
        ) == (ResponseView::Content { mime_type: "application/octet-stream"@, body }),
{
    reveal_strlit("var");
    reveal_strlit("var/");
    assert(path.len() >= 4);
    assert(path != "var"@);
}

/// A GET of the empty path or of any slash-terminated path outside `var/`
/// serves that directory's `index.html` under the static tree, as HTML.
pub proof fn lemma_directory_serves_index(can_write: bool, path: Seq<char>)
    requires
        is_canonical_path(path),
        !"var/"@.is_prefix_of(path),
        path.len() == 0 || path[path.len() - 1] == '/',
    ensures
        get_decision(can_write, path) == Ok::<GetPlanView, CallErrorView>(
            GetPlanView::ServeFile {
                filename: "client/"@ + path + "index.html"@,
                mime_type: "text/html; charset=UTF-8"@,
            },
        ),
{
    reveal_strlit("var");
    reveal_strlit("var/");
    reveal_strlit(".can-write");
    assert(path != "var"@);
    assert(path != "var/"@) by {
        if path == "var/"@ {
            assert("var/"@ =~= path.subrange(0, 4));
        }
    }
    assert(path != ".can-write"@);
}

/// A GET of a path that names a directory without its trailing slash first
/// probes the static tree, and the probe's answer is a permanent redirect
/// to the slash-terminated form, with GET preserved.
pub proof fn lemma_bare_directory_redirects(can_write: bool, path: Seq<char>)
    requires
        is_canonical_path(path),
        !"var/"@.is_prefix_of(path),
        path != "var"@,
        path != ".can-write"@,
        path.len() > 0,
        path[path.len() - 1] != '/',
    ensures
        get_decision(can_write, path) == Ok::<GetPlanView, CallErrorView>(
            GetPlanView::ProbeDir { filename: "client/"@ + path },
        ),
        probe_decision(path, true) == (GetPlanView::Respond {
            response: ResponseView::Redirect {
                location: path + "/"@,
                is_permanent: true,
                switch_to_get: true,
            },
        }),
        probe_decision(path, false) == (GetPlanView::ServeFile {
            filename: "client/"@ + path,
            mime_type: content_type_for(path),
        }),
{
    reveal_strlit("var/");
    assert(path != "var/"@) by {
        if path == "var/"@ {
            assert("var/"@ =~= path.subrange(0, 4));
        }
    }
}

} // verus!
