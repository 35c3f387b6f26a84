use web_session::error::CallError;
use web_session::response::Response;
use web_session::session::GetPlan;
use web_session::view_info::{UiView, WEB_SESSION_TYPE_ID};

#[test]
fn view_info_has_one_permission_and_two_roles() {
    let vi = UiView::new().get_view_info();
    assert_eq!(vi.permissions.len(), 1);
    assert_eq!(vi.permissions[0].name, "write");
    assert_eq!(vi.permissions[0].title, "write");
    assert_eq!(vi.roles.len(), 2);
    assert_eq!(vi.roles[0].title, "editor");
    assert_eq!(vi.roles[0].verb_phrase, "can edit");
    assert_eq!(vi.roles[0].permissions, vec![true]);
    assert_eq!(vi.roles[1].title, "viewer");
    assert_eq!(vi.roles[1].verb_phrase, "can view");
    assert_eq!(vi.roles[1].permissions, vec![false]);
}

#[test]
fn view_info_is_the_same_every_call() {
    let v = UiView::new();
    assert_eq!(v.get_view_info(), v.get_view_info());
}

#[test]
fn new_session_rejects_unknown_session_type() {
    let v = UiView::new();
    let e = v.new_session(0, &vec![true]).unwrap_err();
    assert_eq!(e, CallError::UnsupportedSessionType);
    assert_eq!(e.message(), "unsupported session type");
    let e2 = v
        .new_session(WEB_SESSION_TYPE_ID.wrapping_add(1), &vec![true])
        .unwrap_err();
    assert_eq!(e2, CallError::UnsupportedSessionType);
}

#[test]
fn new_session_takes_write_bit_from_permission_zero() {
    let v = UiView::new();
    let cases: [(Vec<bool>, &[u8]); 4] = [
        (vec![true], b"true"),
        (vec![false], b"false"),
        (Vec::new(), b"false"),
        (vec![false, true], b"false"),
    ];
    for (perms, expected) in cases {
        let s = v.new_session(WEB_SESSION_TYPE_ID, &perms).unwrap();
        assert_eq!(
            s.get_plan(".can-write").unwrap(),
            GetPlan::Respond {
                response: Response::Content {
                    mime_type: String::from("text/plain"),
                    body: expected.to_vec(),
                }
            }
        );
    }
}
