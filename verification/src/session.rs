//! The per-caller session handler.
//!
//! A session owns a single immutable bit, `can_write`, fixed at
//! construction from the caller's permission set. Each verb handler
//! validates the request path, applies the write-permission gate where the
//! verb mutates, and either answers directly or names the one filesystem
//! step the surrounding process must perform. The decision for every verb is
//! a function of the session's write bit and the path alone.

use vstd::prelude::*;
use vstd::string::StrSliceExecFns;
use vstd::string::StringExecFns;
use vstd::utf8::encode_utf8;
use crate::content_type::{content_type_for, resolve_content_type};
use crate::error::{CallError, CallErrorView};
use crate::paths::{is_canonical_path, require_canonical_path};
use crate::response::{ClientErrorCode, Response, ResponseView};
use crate::text::{str_eq, str_has_prefix, str_has_suffix};

verus! {

/// One caller's session: a capability holding the write permission derived
/// once from that caller's identity.
#[derive(Debug)]
pub struct WebSession {
    can_write: bool,
}

/// The filesystem step (if any) a GET request asks for.
#[derive(Debug, Clone, PartialEq, Eq)]
pub enum GetPlan {
    /// Answer at once with this response; the filesystem is not touched.
    Respond { response: Response },
    /// List the single level of entries of this directory, then build the
    /// response with [`crate::responder::var_listing_response`].
    ListVarDir { dir: String },
    /// Read this file, then build the response with
    /// [`crate::responder::file_response`] and this MIME type.
    ServeFile { filename: String, mime_type: String },
    /// Ask whether this file is a directory, then resolve the answer with
    /// [`WebSession::resolve_dir_probe`].
    ProbeDir { filename: String },
}

/// Mathematical image of a [`GetPlan`].
pub enum GetPlanView {
    Respond { response: ResponseView },
    ListVarDir { dir: Seq<char> },
    ServeFile { filename: Seq<char>, mime_type: Seq<char> },
    ProbeDir { filename: Seq<char> },
}

impl View for GetPlan {
    type V = GetPlanView;

    open spec fn view(&self) -> GetPlanView {
        match self {
            GetPlan::Respond { response } => GetPlanView::Respond { response: response@ },
            GetPlan::ListVarDir { dir } => GetPlanView::ListVarDir { dir: dir@ },
            GetPlan::ServeFile { filename, mime_type } => GetPlanView::ServeFile {
                filename: filename@,
                mime_type: mime_type@,
            },
            GetPlan::ProbeDir { filename } => GetPlanView::ProbeDir { filename: filename@ },
        }
    }
}

/// The filesystem step (if any) a PUT request asks for.
#[derive(Debug, Clone, PartialEq, Eq)]
pub enum PutPlan {
    /// Answer at once with this response; nothing is written.
    Deny { response: Response },
    /// Write the request body to the temporary file, sync it durably, then
    /// atomically rename it over the target; on success answer with
    /// [`WebSession::put_completion`]. Readers of the target never observe a
    /// partial write.
    Write { temp_path: String, target_path: String },
}

/// Mathematical image of a [`PutPlan`].
pub enum PutPlanView {
    Deny { response: ResponseView },
    Write { temp_path: Seq<char>, target_path: Seq<char> },
}

impl View for PutPlan {
    type V = PutPlanView;

    open spec fn view(&self) -> PutPlanView {
        match self {
            PutPlan::Deny { response } => PutPlanView::Deny { response: response@ },
            PutPlan::Write { temp_path, target_path } => PutPlanView::Write {
                temp_path: temp_path@,
                target_path: target_path@,
            },
        }
    }
}

/// The filesystem step (if any) a DELETE request asks for.
#[derive(Debug, Clone, PartialEq, Eq)]
pub enum DeletePlan {
    /// Answer at once with this response; nothing is removed.
    Deny { response: Response },
    /// Remove the target file, then answer with
    /// [`WebSession::delete_completion`] whether or not the file existed.
    Remove { target_path: String },
}

/// Mathematical image of a [`DeletePlan`].
pub enum DeletePlanView {
    Deny { response: ResponseView },
    Remove { target_path: Seq<char> },
}

impl View for DeletePlan {
    type V = DeletePlanView;

    open spec fn view(&self) -> DeletePlanView {
        match self {
            DeletePlan::Deny { response } => DeletePlanView::Deny { response: response@ },
            DeletePlan::Remove { target_path } => DeletePlanView::Remove {
                target_path: target_path@,
            },
        }
    }
}

/// The text a boolean renders as.
pub open spec fn bool_text(b: bool) -> Seq<char> {
    if b {
        "true"@
    } else {
        "false"@
    }
}

/// The decision a GET request comes down to, as a function of the session's
/// write bit and the request path.
pub open spec fn get_decision(can_write: bool, path: Seq<char>) -> Result<
    GetPlanView,
    CallErrorView,
> {
    if !is_canonical_path(path) {
        Err(CallErrorView::NonCanonicalPath { path })
    } else if path == "var"@ || path == "var/"@ {
        Ok(GetPlanView::ListVarDir { dir: path })
    } else if "var/"@.is_prefix_of(path) {
        // User-supplied content is never served with an HTML-capable type,
        // whatever its extension: that would let one user store markup that
        // scripts against another.
        Ok(GetPlanView::ServeFile { filename: path, mime_type: "application/octet-stream"@ })
    } else if path == ".can-write"@ {
        Ok(
            GetPlanView::Respond {
                response: ResponseView::Content {
                    mime_type: "text/plain"@,
                    body: encode_utf8(bool_text(can_write)),
                },
            },
        )
    } else if path.len() == 0 || path[path.len() - 1] == '/' {
        Ok(
            GetPlanView::ServeFile {
                filename: "client/"@ + path + "index.html"@,
                mime_type: "text/html; charset=UTF-8"@,
            },
        )
    } else {
        Ok(GetPlanView::ProbeDir { filename: "client/"@ + path })
    }
}

/// The decision a directory probe comes down to: a directory named without
/// its trailing slash earns a permanent redirect to the slash-terminated
/// form; anything else is served as a static file with its inferred type.
pub open spec fn probe_decision(path: Seq<char>, is_dir: bool) -> GetPlanView {
    if is_dir {
        GetPlanView::Respond {
            response: ResponseView::Redirect {
                location: path + "/"@,
                is_permanent: true,
                switch_to_get: true,
            },
        }
    } else {
        GetPlanView::ServeFile { filename: "client/"@ + path, mime_type: content_type_for(path) }
    }
}

/// The decision a PUT request comes down to.
pub open spec fn put_decision(can_write: bool, path: Seq<char>) -> Result<
    PutPlanView,
    CallErrorView,
> {
    if !is_canonical_path(path) {
        Err(CallErrorView::NonCanonicalPath { path })
    } else if !"var/"@.is_prefix_of(path) {
        Err(CallErrorView::PutOutsideVar)
    } else if !can_write {
        Ok(PutPlanView::Deny { response: ResponseView::ClientError { code: ClientErrorCode::Forbidden } })
    } else {
        Ok(PutPlanView::Write { temp_path: path + ".uploading"@, target_path: path })
    }
}

/// The decision a DELETE request comes down to.
pub open spec fn delete_decision(can_write: bool, path: Seq<char>) -> Result<
    DeletePlanView,
    CallErrorView,
> {
    if !is_canonical_path(path) {
        Err(CallErrorView::NonCanonicalPath { path })
    } else if !"var/"@.is_prefix_of(path) {
        Err(CallErrorView::DeleteOutsideVar)
    } else if !can_write {
        Ok(DeletePlanView::Deny { response: ResponseView::ClientError { code: ClientErrorCode::Forbidden } })
    } else {
        Ok(DeletePlanView::Remove { target_path: path })
    }
}

impl WebSession {
    /// Whether this session was created with the write permission.
    pub closed spec fn can_write(&self) -> bool {
        self.can_write
    }

    /// Creates the session handler for a caller with the given permission
    /// bits. Bit 0 is "write"; an absent or short permission list grants
    /// nothing. The bit never changes for the life of the session.
    pub fn new(permissions: &Vec<bool>) -> (s: WebSession)
        ensures
            s.can_write() == (permissions@.len() > 0 && permissions@[0]),
    {
        let can_write = permissions.len() > 0 && permissions[0];
        WebSession { can_write }
    }

    /// Handles a GET request up to its one filesystem step.
    pub fn get_plan(&self, path: &str) -> (r: Result<GetPlan, CallError>)
        ensures
            match r {
                Ok(p) => get_decision(self.can_write(), path@) == Ok::<
                    GetPlanView,
                    CallErrorView,
                >(p@),
                Err(e) => get_decision(self.can_write(), path@) == Err::<
                    GetPlanView,
                    CallErrorView,
                >(e@),
            },
    {
        if let Err(e) = require_canonical_path(path) {
            return Err(e);
        }
        if str_eq(path, "var") || str_eq(path, "var/") {
            Ok(GetPlan::ListVarDir { dir: String::from_str(path) })
        } else if str_has_prefix(path, "var/") {
            Ok(
                GetPlan::ServeFile {
                    filename: String::from_str(path),
                    mime_type: String::from_str("application/octet-stream"),
                },
            )
        } else if str_eq(path, ".can-write") {
            let body = if self.can_write {
                "true".as_bytes_vec()
            } else {
                "false".as_bytes_vec()
            };
            Ok(
                GetPlan::Respond {
                    response: Response::Content {
                        mime_type: String::from_str("text/plain"),
                        body,
                    },
                },
            )
        } else {
            let ends_in_slash = str_has_suffix(path, "/");
            proof {
                reveal_strlit("/");
                if path@.len() > 0 {
                    if path@[path@.len() - 1] == '/' {
                        assert("/"@ =~= path@.subrange(
                            path@.len() - 1,
                            path@.len() as int,
                        ));
                    }
                    if "/"@.is_suffix_of(path@) {
                        assert(path@[path@.len() - 1] == path@.subrange(
                            path@.len() - 1,
                            path@.len() as int,
                        )[0]);
                    }
                }
            }
            if path.unicode_len() == 0 || ends_in_slash {
                let filename = String::from_str("client/").concat(path).concat("index.html");
                Ok(
                    GetPlan::ServeFile {
                        filename,
                        mime_type: String::from_str("text/html; charset=UTF-8"),
                    },
                )
            } else {
                Ok(GetPlan::ProbeDir { filename: String::from_str("client/").concat(path) })
            }
        }
    }

    /// Resolves a GET's directory probe once the surrounding process has
    /// asked the filesystem whether the named file is a directory.
    pub fn resolve_dir_probe(&self, path: &str, is_dir: bool) -> (r: GetPlan)
        ensures
            r@ == probe_decision(path@, is_dir),
    {
        if is_dir {
            GetPlan::Respond {
                response: Response::Redirect {
                    location: String::from_str(path).concat("/"),
                    is_permanent: true,
                    switch_to_get: true,
                },
            }
        } else {
            let mime = resolve_content_type(path);
            GetPlan::ServeFile {
                filename: String::from_str("client/").concat(path),
                mime_type: String::from_str(mime),
            }
        }
    }

    /// Maps a file name to the MIME type it is served with, by extension
    /// alone.
    pub fn infer_content_type(&self, filename: &str) -> (r: &'static str)
        ensures
            r@ == content_type_for(filename@),
    {
        resolve_content_type(filename)
    }

    /// Handles a PUT request up to its one filesystem step. Writes are
    /// confined to the mutable `var/` tree; without the write permission the
    /// answer is a forbidden client error and nothing touches the
    /// filesystem.
    pub fn put_plan(&self, path: &str) -> (r: Result<PutPlan, CallError>)
        ensures
            match r {
                Ok(p) => put_decision(self.can_write(), path@) == Ok::<
                    PutPlanView,
                    CallErrorView,
                >(p@),
                Err(e) => put_decision(self.can_write(), path@) == Err::<
                    PutPlanView,
                    CallErrorView,
                >(e@),
            },
    {
        if let Err(e) = require_canonical_path(path) {
            return Err(e);
        }
        if !str_has_prefix(path, "var/") {
            return Err(CallError::PutOutsideVar);
        }
        if !self.can_write {
            Ok(
                PutPlan::Deny {
                    response: Response::ClientError { code: ClientErrorCode::Forbidden },
                },
            )
        } else {
            Ok(
                PutPlan::Write {
                    temp_path: String::from_str(path).concat(".uploading"),
                    target_path: String::from_str(path),
                },
            )
        }
    }

    /// The response owed once a PUT's temporary file has been written,
    /// synced and renamed over the target.
    pub fn put_completion(&self) -> (r: Response)
        ensures
            r@ == ResponseView::NoContent,
    {
        Response::NoContent
    }

    /// Handles a DELETE request up to its one filesystem step, under the
    /// same confinement and permission gate as PUT.
    pub fn delete_plan(&self, path: &str) -> (r: Result<DeletePlan, CallError>)
        ensures
            match r {
                Ok(p) => delete_decision(self.can_write(), path@) == Ok::<
                    DeletePlanView,
                    CallErrorView,
                >(p@),
                Err(e) => delete_decision(self.can_write(), path@) == Err::<
                    DeletePlanView,
                    CallErrorView,
                >(e@),
            },
    {
        if let Err(e) = require_canonical_path(path) {
            return Err(e);
        }
        if !str_has_prefix(path, "var/") {
            return Err(CallError::DeleteOutsideVar);
        }
        if !self.can_write {
            Ok(
                DeletePlan::Deny {
                    response: Response::ClientError { code: ClientErrorCode::Forbidden },
                },
            )
        } else {
            Ok(DeletePlan::Remove { target_path: String::from_str(path) })
        }
    }

    /// The response owed once a DELETE's removal has run: the same success
    /// whether or not the file was there, so deleting is idempotent.
    pub fn delete_completion(&self, file_was_present: bool) -> (r: Response)
        ensures
            r@ == ResponseView::NoContent,
    {
        Response::NoContent
    }
}

} // verus!
