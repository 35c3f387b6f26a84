use web_session::content_type::resolve_content_type;
use web_session::error::CallError;
use web_session::responder::{file_response, var_listing_response, FileOutcome};
use web_session::response::{ClientErrorCode, Response};
use web_session::session::{DeletePlan, GetPlan, PutPlan, WebSession};

fn writer() -> WebSession {
    WebSession::new(&vec![true])
}

fn reader() -> WebSession {
    WebSession::new(&vec![false])
}

fn anonymous() -> WebSession {
    WebSession::new(&Vec::new())
}

#[test]
fn content_type_table() {
    assert_eq!(resolve_content_type("index.html"), "text/html; charset=UTF-8");
    assert_eq!(resolve_content_type("app.js"), "text/javascript; charset=UTF-8");
    assert_eq!(resolve_content_type("style.css"), "text/css; charset=UTF-8");
    assert_eq!(resolve_content_type("logo.png"), "image/png");
    assert_eq!(resolve_content_type("anim.gif"), "image/gif");
    assert_eq!(resolve_content_type("photo.jpg"), "image/jpeg");
    assert_eq!(resolve_content_type("photo.jpeg"), "image/jpeg");
    assert_eq!(resolve_content_type("icon.svg"), "image/svg+xml; charset=UTF-8");
    assert_eq!(resolve_content_type("notes.txt"), "text/plain; charset=UTF-8");
    assert_eq!(resolve_content_type("data.bin"), "application/octet-stream");
    assert_eq!(resolve_content_type("noextension"), "application/octet-stream");
}

#[test]
fn infer_content_type_matches_resolver() {
    let s = reader();
    assert_eq!(s.infer_content_type("a.html"), "text/html; charset=UTF-8");
    assert_eq!(s.infer_content_type("a"), "application/octet-stream");
}

#[test]
fn get_var_lists_directory() {
    let s = reader();
    assert_eq!(
        s.get_plan("var").unwrap(),
        GetPlan::ListVarDir {
            dir: String::from("var")
        }
    );
    assert_eq!(
        s.get_plan("var/").unwrap(),
        GetPlan::ListVarDir {
            dir: String::from("var/")
        }
    );
}

#[test]
fn get_under_var_serves_octet_stream() {
    let s = reader();
    assert_eq!(
        s.get_plan("var/notes.txt").unwrap(),
        GetPlan::ServeFile {
            filename: String::from("var/notes.txt"),
            mime_type: String::from("application/octet-stream"),
        }
    );
}

#[test]
fn get_can_write_reports_true_for_writer() {
    let plan = writer().get_plan(".can-write").unwrap();
    assert_eq!(
        plan,
        GetPlan::Respond {
            response: Response::Content {
                mime_type: String::from("text/plain"),
                body: b"true".to_vec(),
            }
        }
    );
}

#[test]
fn get_can_write_reports_false_for_reader() {
    let expected = GetPlan::Respond {
        response: Response::Content {
            mime_type: String::from("text/plain"),
            body: b"false".to_vec(),
        },
    };
    assert_eq!(reader().get_plan(".can-write").unwrap(), expected);
    assert_eq!(anonymous().get_plan(".can-write").unwrap(), expected);
}

#[test]
fn get_empty_path_serves_index() {
    assert_eq!(
        reader().get_plan("").unwrap(),
        GetPlan::ServeFile {
            filename: String::from("client/index.html"),
            mime_type: String::from("text/html; charset=UTF-8"),
        }
    );
}

#[test]
fn get_directory_path_serves_its_index() {
    assert_eq!(
        reader().get_plan("anydir/").unwrap(),
        GetPlan::ServeFile {
            filename: String::from("client/anydir/index.html"),
            mime_type: String::from("text/html; charset=UTF-8"),
        }
    );
}

#[test]
fn get_plain_path_probes_directory() {
    assert_eq!(
        reader().get_plan("anydir").unwrap(),
        GetPlan::ProbeDir {
            filename: String::from("client/anydir")
        }
    );
}

#[test]
fn probe_of_directory_redirects_permanently() {
    assert_eq!(
        reader().resolve_dir_probe("anydir", true),
        GetPlan::Respond {
            response: Response::Redirect {
                location: String::from("anydir/"),
                is_permanent: true,
                switch_to_get: true,
            }
        }
    );
}

#[test]
fn probe_of_file_serves_inferred_type() {
    assert_eq!(
        reader().resolve_dir_probe("page.html", false),
        GetPlan::ServeFile {
            filename: String::from("client/page.html"),
            mime_type: String::from("text/html; charset=UTF-8"),
        }
    );
}

#[test]
fn get_rejects_traversal() {
    let e = writer().get_plan("../secret").unwrap_err();
    assert_eq!(
        e,
        CallError::NonCanonicalPath {
            path: String::from("../secret")
        }
    );
}

#[test]
fn file_response_copies_bytes_verbatim() {
    let bytes = vec![0u8, 159, 146, 150, 10];
    let r = file_response(
        String::from("application/octet-stream"),
        FileOutcome::Data {
            bytes: bytes.clone(),
        },
    );
    assert_eq!(
        r,
        Response::Content {
            mime_type: String::from("application/octet-stream"),
            body: bytes,
        }
    );
}

#[test]
fn file_response_missing_is_not_found() {
    let r = file_response(String::from("text/html; charset=UTF-8"), FileOutcome::Missing);
    assert_eq!(
        r,
        Response::ClientError {
            code: ClientErrorCode::NotFound
        }
    );
}

#[test]
fn listing_skips_dot_entries_and_joins_lines() {
    let entries = vec![
        String::from("."),
        String::from(".."),
        String::from("b.txt"),
        String::from("a"),
    ];
    assert_eq!(
        var_listing_response(&entries),
        Response::Content {
            mime_type: String::from("text/plain"),
            body: b"b.txt\na".to_vec(),
        }
    );
}

#[test]
fn listing_of_empty_directory_is_empty() {
    assert_eq!(
        var_listing_response(&Vec::new()),
        Response::Content {
            mime_type: String::from("text/plain"),
            body: Vec::new(),
        }
    );
    let only_dots = vec![String::from("."), String::from("..")];
    assert_eq!(
        var_listing_response(&only_dots),
        Response::Content {
            mime_type: String::from("text/plain"),
            body: Vec::new(),
        }
    );
}

#[test]
fn listing_single_entry_has_no_newline() {
    let entries = vec![String::from("only")];
    assert_eq!(
        var_listing_response(&entries),
        Response::Content {
            mime_type: String::from("text/plain"),
            body: b"only".to_vec(),
        }
    );
}

#[test]
fn put_outside_var_fails_for_everyone() {
    for s in [writer(), reader(), anonymous()] {
        let e = s.put_plan("client/a").unwrap_err();
        assert_eq!(e, CallError::PutOutsideVar);
        assert_eq!(e.message(), "PUT only supported under /var.");
    }
}

#[test]
fn put_without_permission_is_forbidden() {
    for s in [reader(), anonymous()] {
        assert_eq!(
            s.put_plan("var/x").unwrap(),
            PutPlan::Deny {
                response: Response::ClientError {
                    code: ClientErrorCode::Forbidden
                }
            }
        );
    }
}

#[test]
fn put_with_permission_writes_through_temp_file() {
    assert_eq!(
        writer().put_plan("var/x").unwrap(),
        PutPlan::Write {
            temp_path: String::from("var/x.uploading"),
            target_path: String::from("var/x"),
        }
    );
    assert_eq!(writer().put_completion(), Response::NoContent);
}

#[test]
fn put_validates_path_first() {
    let e = writer().put_plan("var/../etc").unwrap_err();
    assert_eq!(
        e,
        CallError::NonCanonicalPath {
            path: String::from("var/../etc")
        }
    );
}

#[test]
fn put_get_round_trip_returns_same_bytes() {
    let w = writer();
    let put = w.put_plan("var/x").unwrap();
    let target = match put {
        PutPlan::Write {
            temp_path,
            target_path,
        } => {
            assert_eq!(temp_path, "var/x.uploading");
            target_path
        }
        other => panic!("unexpected put plan: {:?}", other),
    };
    assert_eq!(target, "var/x");
    let get = reader().get_plan("var/x").unwrap();
    match get {
        GetPlan::ServeFile {
            filename,
            mime_type,
        } => {
            assert_eq!(filename, target);
            let body = b"stored bytes \x00\xff".to_vec();
            let r = file_response(
                mime_type,
                FileOutcome::Data {
                    bytes: body.clone(),
                },
            );
            assert_eq!(
                r,
                Response::Content {
                    mime_type: String::from("application/octet-stream"),
                    body,
                }
            );
        }
        other => panic!("unexpected get plan: {:?}", other),
    }
}

#[test]
fn delete_outside_var_fails_for_everyone() {
    for s in [writer(), reader(), anonymous()] {
        let e = s.delete_plan("client/a").unwrap_err();
        assert_eq!(e, CallError::DeleteOutsideVar);
        assert_eq!(e.message(), "DELETE only supported under /var.");
    }
}

#[test]
fn delete_without_permission_is_forbidden() {
    for s in [reader(), anonymous()] {
        assert_eq!(
            s.delete_plan("var/x").unwrap(),
            DeletePlan::Deny {
                response: Response::ClientError {
                    code: ClientErrorCode::Forbidden
                }
            }
        );
    }
}

#[test]
fn delete_with_permission_removes_target() {
    assert_eq!(
        writer().delete_plan("var/x").unwrap(),
        DeletePlan::Remove {
            target_path: String::from("var/x")
        }
    );
}

#[test]
fn delete_of_missing_file_still_succeeds() {
    let w = writer();
    assert_eq!(
        w.delete_plan("var/missing").unwrap(),
        DeletePlan::Remove {
            target_path: String::from("var/missing")
        }
    );
    assert_eq!(w.delete_completion(false), Response::NoContent);
    assert_eq!(w.delete_completion(true), Response::NoContent);
}

#[test]
fn get_leading_slash_is_tolerated() {
    assert_eq!(
        reader().get_plan("/a").unwrap(),
        GetPlan::ProbeDir {
            filename: String::from("client//a")
        }
    );
}

#[test]
fn get_dots_inside_names_are_not_segments() {
    assert_eq!(
        reader().get_plan("...").unwrap(),
        GetPlan::ProbeDir {
            filename: String::from("client/...")
        }
    );
}

#[test]
fn put_to_var_itself_is_outside_the_tree() {
    assert_eq!(writer().put_plan("var").unwrap_err(), CallError::PutOutsideVar);
    assert_eq!(
        writer().delete_plan("var").unwrap_err(),
        CallError::DeleteOutsideVar
    );
}
